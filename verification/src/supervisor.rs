//! The decision between finding the worker and starting it.

use vstd::prelude::*;
use crate::config::{expected_entries, setting_view, ConfigurationView, SpawnConfiguration};
use crate::error::{Failure, SupervisorError};
use crate::locator::confirm;

verus! {

/// Decides whether the worker is to be started, and how.
///
/// `candidate` is where the worker is expected and `exists` says whether a
/// file is there. Only if it is does a configuration come back: a missing
/// worker is reported and nothing is started. The two settings are those
/// fixed when the application was built; an absent one gets no variable.
pub fn prepare(candidate: String, exists: bool, api_key: Option<&str>, model: Option<&str>) -> (plan:
    Result<SpawnConfiguration, SupervisorError>)
    ensures
        exists ==> (plan matches Ok(config) && config@ == (ConfigurationView {
            program: candidate@,
            entries: expected_entries(setting_view(api_key), setting_view(model)),
        })),
        !exists ==> (plan matches Err(error) && error@ == Failure::BinaryNotFound(candidate@)),
{
    match confirm(candidate, exists) {
        Ok(program) => Ok(SpawnConfiguration::build(program, api_key, model)),
        Err(error) => Err(error),
    }
}

} // verus!
