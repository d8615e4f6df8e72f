use sidecar_supervisor::config::{SpawnConfiguration, API_KEY_VARIABLE, MODEL_VARIABLE};
use sidecar_supervisor::error::SupervisorError;
use sidecar_supervisor::locator::confirm;
use sidecar_supervisor::supervisor::prepare;

fn configuration(api_key: Option<&str>, model: Option<&str>) -> SpawnConfiguration {
    SpawnConfiguration::build(confirm("bin/main".to_string(), true).unwrap(), api_key, model)
}

fn pair(name: &str, value: &str) -> (String, String) {
    (name.to_string(), value.to_string())
}

#[test]
fn variable_names_are_the_known_two() {
    assert_eq!(API_KEY_VARIABLE, "OPENROUTER_API_KEY");
    assert_eq!(MODEL_VARIABLE, "OPENROUTER_MODEL");
}

#[test]
fn both_settings_present() {
    let config = configuration(Some("sk-123"), Some("gpt"));
    assert_eq!(config.program(), "bin/main");
    assert_eq!(
        config.variables(),
        &vec![pair("OPENROUTER_API_KEY", "sk-123"), pair("OPENROUTER_MODEL", "gpt")]
    );
    assert_eq!(config.value_of(&API_KEY_VARIABLE.to_string()), Some(&"sk-123".to_string()));
    assert_eq!(config.value_of(&MODEL_VARIABLE.to_string()), Some(&"gpt".to_string()));
}

#[test]
fn only_the_api_key_present() {
    let config = configuration(Some("sk-123"), None);
    assert_eq!(config.variables(), &vec![pair("OPENROUTER_API_KEY", "sk-123")]);
    assert_eq!(config.value_of(&MODEL_VARIABLE.to_string()), None);
}

#[test]
fn only_the_model_present() {
    let config = configuration(None, Some("gpt"));
    assert_eq!(config.variables(), &vec![pair("OPENROUTER_MODEL", "gpt")]);
    assert_eq!(config.value_of(&API_KEY_VARIABLE.to_string()), None);
    assert_eq!(config.value_of(&MODEL_VARIABLE.to_string()), Some(&"gpt".to_string()));
}

#[test]
fn neither_setting_present() {
    let config = configuration(None, None);
    assert!(config.variables().is_empty());
    assert_eq!(config.value_of(&API_KEY_VARIABLE.to_string()), None);
    assert_eq!(config.value_of(&MODEL_VARIABLE.to_string()), None);
}

#[test]
fn absent_setting_is_not_an_empty_variable() {
    let config = configuration(None, Some("gpt"));
    assert!(config.variables().iter().all(|(name, _)| name != API_KEY_VARIABLE));
    assert!(config.variables().iter().all(|(_, value)| !value.is_empty()));
}

#[test]
fn present_but_empty_setting_is_kept_as_given() {
    let config = configuration(Some(""), None);
    assert_eq!(config.variables(), &vec![pair("OPENROUTER_API_KEY", "")]);
    assert_eq!(config.value_of(&API_KEY_VARIABLE.to_string()), Some(&String::new()));
}

#[test]
fn unknown_variable_has_no_value() {
    let config = configuration(Some("sk-123"), Some("gpt"));
    assert_eq!(config.value_of(&"PATH".to_string()), None);
}

#[test]
fn existing_worker_is_prepared_for_spawning() {
    let config = prepare("bin/main".to_string(), true, Some("sk-123"), None).unwrap();
    assert_eq!(config.program(), "bin/main");
    assert_eq!(config.variables(), &vec![pair("OPENROUTER_API_KEY", "sk-123")]);
}

#[test]
fn missing_worker_is_never_prepared_for_spawning() {
    let error = prepare("bin/main".to_string(), false, Some("sk-123"), Some("gpt")).unwrap_err();
    assert!(matches!(&error, SupervisorError::BinaryNotFound(path) if path == "bin/main"));
    assert_eq!(error.message(), "Sidecar binary not found at \"bin/main\"");
}
