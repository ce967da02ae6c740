//! What loading and saving the stored configuration decide, apart from the
//! reading and writing itself.

use crate::text::join;
use vstd::prelude::*;
use vstd::string::StringExecFns;

verus! {

/// Why the stored configuration could not be loaded or saved.
#[derive(Debug)]
pub enum ConfigError {
    /// No location for the configuration file could be determined.
    NotFound,
    /// The stored text is no configuration. Carries the decoder's words.
    Decode(String),
    /// The configuration could not be written as text. Carries the encoder's
    /// words.
    Encode(String),
}

/// What loading does at the configuration file's location.
#[derive(Debug, Clone, Copy, PartialEq, Eq, Structural)]
pub enum LoadPlan {
    /// Read and decode what is stored there. Stored text that does not
    /// decode is an error; it is neither repaired nor replaced.
    ReadStored,
    /// Nothing is stored there: store the default configuration and go on
    /// with it.
    StoreDefault,
}

/// The message of an error.
pub open spec fn error_text(error: ConfigError) -> Seq<char> {
    match error {
        ConfigError::NotFound => "Failed to get config file path"@,
        ConfigError::Decode(detail) => "Failed to decode data from json format: "@ + detail@,
        ConfigError::Encode(detail) => "Failed to encode data into json format: "@ + detail@,
    }
}

/// What loading does, given the location of the configuration file, if one
/// could be determined, and whether a file exists there.
pub open spec fn load_plan(location: Option<&str>, exists: bool) -> Result<LoadPlan, ConfigError> {
    match location {
        None => Err(ConfigError::NotFound),
        Some(_) => if exists {
            Ok(LoadPlan::ReadStored)
        } else {
            Ok(LoadPlan::StoreDefault)
        },
    }
}

impl ConfigError {
    /// The message shown for this error.
    pub fn message(&self) -> (text: String)
        ensures
            text@ == error_text(*self),
    {
        match self {
            ConfigError::NotFound => String::from_str("Failed to get config file path"),
            ConfigError::Decode(detail) => join(
                "Failed to decode data from json format: ",
                detail.as_str(),
            ),
            ConfigError::Encode(detail) => join(
                "Failed to encode data into json format: ",
                detail.as_str(),
            ),
        }
    }
}

/// Decides what loading does: without a location it fails, at a location
/// that holds a file it reads that file, and at one that holds none it
/// stores the defaults.
pub fn plan_load(location: Option<&str>, exists: bool) -> (plan: Result<LoadPlan, ConfigError>)
    ensures
        plan == load_plan(location, exists),
{
    match location {
        None => Err(ConfigError::NotFound),
        Some(_) => if exists {
            Ok(LoadPlan::ReadStored)
        } else {
            Ok(LoadPlan::StoreDefault)
        },
    }
}

/// Decides where saving writes: to the location, or nowhere, with an error,
/// if no location could be determined.
pub fn plan_store(location: Option<&str>) -> (target: Result<String, ConfigError>)
    ensures
        match location {
            Some(path) => target matches Ok(written) && written@ == path@,
            None => target == Err::<String, ConfigError>(ConfigError::NotFound),
        },
{
    match location {
        Some(path) => Ok(String::from_str(path)),
        None => Err(ConfigError::NotFound),
    }
}

} // verus!
