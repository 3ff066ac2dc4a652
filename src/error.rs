//! The one error that startup reports to the host.

use vstd::prelude::*;

verus! {

/// The description of an invalid log level.
pub const INVALID_LEVEL_MESSAGE: &'static str = "invalid log level";

/// Why startup stopped. Each variant names the stage that failed.
#[derive(Clone, Debug)]
pub enum BootstrapError {
    /// A required secret is absent; holds the key that was looked up.
    SecretMissing(String),
    /// A supervised task ended abnormally; holds its message.
    TaskPanicked(String),
    /// A supervised task returned an error; holds its description.
    TaskFailed(String),
    /// The configured log level is not a valid filter.
    LogLevelInvalid,
    /// A resource could not be provisioned or initialised; holds the cause.
    ResourceProvisionFailed(String),
}

impl BootstrapError {
    /// An equal copy of the error.
    pub fn duplicate(&self) -> (r: BootstrapError)
        ensures
            r == *self,
    {
        match self {
            BootstrapError::SecretMissing(k) => BootstrapError::SecretMissing(k.clone()),
            BootstrapError::TaskPanicked(m) => BootstrapError::TaskPanicked(m.clone()),
            BootstrapError::TaskFailed(m) => BootstrapError::TaskFailed(m.clone()),
            BootstrapError::LogLevelInvalid => BootstrapError::LogLevelInvalid,
            BootstrapError::ResourceProvisionFailed(m) => BootstrapError::ResourceProvisionFailed(
                m.clone(),
            ),
        }
    }

    /// A description of the error for logs and for the host.
    pub fn message(&self) -> (r: String)
        ensures
            match self {
                BootstrapError::SecretMissing(k) => r@ == k@,
                BootstrapError::TaskPanicked(m) => r@ == m@,
                BootstrapError::TaskFailed(m) => r@ == m@,
                BootstrapError::ResourceProvisionFailed(m) => r@ == m@,
                BootstrapError::LogLevelInvalid => r@ == INVALID_LEVEL_MESSAGE@,
            },
    {
        match self {
            BootstrapError::SecretMissing(k) => k.clone(),
            BootstrapError::TaskPanicked(m) => m.clone(),
            BootstrapError::TaskFailed(m) => m.clone(),
            BootstrapError::ResourceProvisionFailed(m) => m.clone(),
            BootstrapError::LogLevelInvalid => {
                INVALID_LEVEL_MESSAGE.to_owned()
            },
        }
    }
}

} // verus!
