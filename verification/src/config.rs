//! The configuration: its sections, defaults, environment overrides and
//! checks.
pub mod mode;
pub mod overrides;
pub mod schema;

use crate::config::overrides::{apply_overrides, env_view, override_error, overridden};
use crate::config::schema::FselConfig;
use vstd::prelude::*;

verus! {

/// A configuration that cannot be used.
#[derive(Clone, Copy, Debug, PartialEq, Eq, Structural)]
pub enum ConfigValidationError {
    /// Both `systemd_run` and `uwsm` are enabled.
    MultipleLaunchMethods,
}

/// Why the configuration could not be set up.
pub enum ConfigError {
    /// The environment variable `key` holds `value`, which its setting
    /// cannot take; `expected` says what it can.
    InvalidEnvironmentOverride { key: String, value: String, expected: String },
    /// The configuration is inconsistent.
    Validation(ConfigValidationError),
}

impl ConfigValidationError {
    /// The message of this error.
    pub fn message(&self) -> (s: String)
        ensures
            s@ == "Only one launch method can be enabled: systemd_run or uwsm"@,
    {
        String::from_str("Only one launch method can be enabled: systemd_run or uwsm")
    }
}

impl FselConfig {
    /// Applies the environment overrides `vars` to the loaded configuration
    /// and checks the result.
    pub fn new(loaded: FselConfig, vars: &Vec<(String, String)>) -> (r: Result<
        FselConfig,
        ConfigError,
    >)
        ensures
            match override_error(env_view(vars@)) {
                Some((k, v, e)) => r matches Err(
                    ConfigError::InvalidEnvironmentOverride { key, value, expected },
                ) && key@ == k && value@ == v && expected@ == e,
                None => match r {
                    Ok(c) => overridden(loaded, c, env_view(vars@)) && !(c.general.systemd_run
                        && c.general.uwsm),
                    Err(ConfigError::Validation(ConfigValidationError::MultipleLaunchMethods)) =>
                        exists|c: FselConfig|
                        overridden(loaded, c, env_view(vars@)) && c.general.systemd_run
                            && c.general.uwsm,
                    Err(_) => false,
                },
            },
    {
        let mut cfg = loaded;
        match apply_overrides(&mut cfg, vars) {
            Err(e) => return Err(e),
            Ok(()) => {},
        }
        match cfg.validate() {
            Err(e) => Err(ConfigError::Validation(e)),
            Ok(()) => Ok(cfg),
        }
    }

    /// Rejects a configuration that enables two launch methods.
    pub fn validate(&self) -> (r: Result<(), ConfigValidationError>)
        ensures
            r is Err <==> (self.general.systemd_run && self.general.uwsm),
            r is Err ==> r == Err::<(), ConfigValidationError>(
                ConfigValidationError::MultipleLaunchMethods,
            ),
    {
        if self.general.systemd_run && self.general.uwsm {
            return Err(ConfigValidationError::MultipleLaunchMethods);
        }
        Ok(())
    }
}

} // verus!
