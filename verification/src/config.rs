//! How the worker is started: which program, with which environment.
//!
//! The worker takes no arguments and inherits the standard streams. All it
//! is given are the settings that were fixed when the application was
//! built, each as one environment variable. A setting that was not fixed
//! then gets no variable at all.

use vstd::prelude::*;
use vstd::string::StringExecFns;
use crate::locator::ResolvedBinaryPath;

verus! {

/// The variable that carries the API key to the worker.
pub const API_KEY_VARIABLE: &'static str = "OPENROUTER_API_KEY";

/// The variable that carries the model identifier to the worker.
pub const MODEL_VARIABLE: &'static str = "OPENROUTER_MODEL";

/// One variable: its name and its value.
pub type Entry = (Seq<char>, Seq<char>);

/// The program to start and the variables to set for it.
#[derive(Debug)]
pub struct SpawnConfiguration {
    program: String,
    variables: Vec<(String, String)>,
}

/// A `SpawnConfiguration` as mathematical values.
pub struct ConfigurationView {
    /// The path of the program.
    pub program: Seq<char>,
    /// The variables in the order in which they are set.
    pub entries: Seq<Entry>,
}

/// The view of a setting that may be absent.
pub open spec fn setting_view(setting: Option<&str>) -> Option<Seq<char>> {
    match setting {
        Some(value) => Some(value@),
        None => None,
    }
}

/// The views of a list of variables.
pub open spec fn entries_view(variables: Seq<(String, String)>) -> Seq<Entry> {
    variables.map_values(|entry: (String, String)| (entry.0@, entry.1@))
}

/// The mapping from name to value that setting `entries` in order gives:
/// a later entry replaces an earlier one of the same name.
pub open spec fn environment_of(entries: Seq<Entry>) -> Map<Seq<char>, Seq<char>>
    decreases entries.len(),
{
    if entries.len() == 0 {
        Map::empty()
    } else {
        environment_of(entries.drop_last()).insert(entries.last().0, entries.last().1)
    }
}

/// The entry for `name`, if the setting is present.
pub open spec fn entry_if_present(name: Seq<char>, setting: Option<Seq<char>>) -> Seq<Entry> {
    match setting {
        Some(value) => seq![(name, value)],
        None => seq![],
    }
}

/// The variables for the two settings: the API key's first, then the
/// model's, each only if present.
pub open spec fn expected_entries(api_key: Option<Seq<char>>, model: Option<Seq<char>>) -> Seq<
    Entry,
> {
    entry_if_present(API_KEY_VARIABLE@, api_key) + entry_if_present(MODEL_VARIABLE@, model)
}

impl ConfigurationView {
    /// The mapping from name to value that the worker will see set.
    pub open spec fn environment(self) -> Map<Seq<char>, Seq<char>> {
        environment_of(self.entries)
    }
}

impl View for SpawnConfiguration {
    type V = ConfigurationView;

    closed spec fn view(&self) -> ConfigurationView {
        ConfigurationView { program: self.program@, entries: entries_view(self.variables@) }
    }
}

impl SpawnConfiguration {
    /// The configuration for starting the worker at `program` with the
    /// settings that are present.
    pub fn build(program: ResolvedBinaryPath, api_key: Option<&str>, model: Option<&str>) -> (config:
        SpawnConfiguration)
        ensures
            config@.program == program@,
            config@.entries == expected_entries(setting_view(api_key), setting_view(model)),
    {
        let mut variables: Vec<(String, String)> = Vec::new();
        assert(entries_view(variables@) =~= Seq::<Entry>::empty());
        if let Some(value) = api_key {
            let ghost before = variables@;
            variables.push((String::from_str(API_KEY_VARIABLE), String::from_str(value)));
            assert(entries_view(variables@) =~= entries_view(before).push(
                (API_KEY_VARIABLE@, value@),
            ));
        }
        assert(entries_view(variables@) =~= entry_if_present(
            API_KEY_VARIABLE@,
            setting_view(api_key),
        ));
        if let Some(value) = model {
            let ghost before = variables@;
            variables.push((String::from_str(MODEL_VARIABLE), String::from_str(value)));
            assert(entries_view(variables@) =~= entries_view(before).push(
                (MODEL_VARIABLE@, value@),
            ));
        }
        assert(entries_view(variables@) =~= expected_entries(
            setting_view(api_key),
            setting_view(model),
        ));
        SpawnConfiguration { program: program.into_string(), variables }
    }

    /// The path of the program to start.
    pub fn program(&self) -> (path: &str)
        ensures
            path@ == self@.program,
    {
        self.program.as_str()
    }

    /// The variables to set, in order.
    pub fn variables(&self) -> (variables: &Vec<(String, String)>)
        ensures
            entries_view(variables@) == self@.entries,
    {
        &self.variables
    }

    /// The value that the worker will see for the variable `name`, if any.
    pub fn value_of(&self, name: &String) -> (value: Option<&String>)
        ensures
            value is Some == self@.environment().contains_key(name@),
            value matches Some(text) ==> text@ == self@.environment()[name@],
    {
        let ghost entries = self@.entries;
        let mut found: Option<&String> = None;
        let mut i: usize = 0;
        while i < self.variables.len()
            invariant
                i <= self.variables.len(),
                entries == entries_view(self.variables@),
                found is Some == environment_of(entries.take(i as int)).contains_key(name@),
                found matches Some(text) ==> text@ == environment_of(entries.take(i as int))[name@],
            decreases self.variables.len() - i,
        {
            let ghost next = entries.take(i + 1);
            assert(next.drop_last() =~= entries.take(i as int));
            assert(next.last() == (self.variables@[i as int].0@, self.variables@[i as int].1@));
            if self.variables[i].0 == *name {
                found = Some(&self.variables[i].1);
            }
            i += 1;
        }
        assert(entries.take(i as int) =~= entries);
        found
    }
}

/// The worker's environment holds exactly the settings that are present,
/// each under its own name with its exact value, and nothing else: an
/// absent setting has no variable, not an empty one.
pub proof fn lemma_environment_holds_exactly_the_present(
    api_key: Option<Seq<char>>,
    model: Option<Seq<char>>,
)
    ensures
        ({
            let environment = environment_of(expected_entries(api_key, model));
            &&& environment.contains_key(API_KEY_VARIABLE@) == api_key is Some
            &&& environment.contains_key(MODEL_VARIABLE@) == model is Some
            &&& api_key matches Some(value) ==> environment[API_KEY_VARIABLE@] == value
            &&& model matches Some(value) ==> environment[MODEL_VARIABLE@] == value
            &&& forall|name: Seq<char>| #[trigger]
                environment.contains_key(name) ==> name == API_KEY_VARIABLE@ || name
                    == MODEL_VARIABLE@
        }),
{
    reveal_strlit("OPENROUTER_API_KEY");
    reveal_strlit("OPENROUTER_MODEL");
    assert(API_KEY_VARIABLE@.len() != MODEL_VARIABLE@.len());
    let entries = expected_entries(api_key, model);
    reveal_with_fuel(environment_of, 3);
    match (api_key, model) {
        (Some(key), Some(id)) => {
            assert(entries =~= seq![(API_KEY_VARIABLE@, key), (MODEL_VARIABLE@, id)]);
            assert(entries.drop_last() =~= seq![(API_KEY_VARIABLE@, key)]);
            assert(entries.drop_last().drop_last() =~= Seq::<Entry>::empty());
        },
        (Some(key), None) => {
            assert(entries =~= seq![(API_KEY_VARIABLE@, key)]);
            assert(entries.drop_last() =~= Seq::<Entry>::empty());
        },
        (None, Some(id)) => {
            assert(entries =~= seq![(MODEL_VARIABLE@, id)]);
            assert(entries.drop_last() =~= Seq::<Entry>::empty());
        },
        (None, None) => {
            assert(entries =~= Seq::<Entry>::empty());
        },
    }
}

} // verus!
