//! The controller's configuration: the two charge thresholds, their default
//! values, and the range check applied when a configuration is loaded.

use vstd::prelude::*;

verus! {

/// An error raised while loading or validating a configuration.
#[derive(Debug, PartialEq, Eq)]
pub enum ConfigError {
    /// The configuration file could not be read or written, or its contents
    /// could not be decoded.
    NotAccessible,
    /// A configuration value lies outside its permitted range.
    OutOfRange { value_name: String, from: i32, to: i32 },
}

/// The two charge thresholds, immutable for the life of the process.
#[derive(Debug, Clone, Copy, PartialEq, Eq, Structural)]
pub struct Config {
    /// Capacity at or above which charging is inhibited.
    pub stop_charging_threshold: i32,
    /// Capacity at or below which charging resumes.
    pub start_charging_threshold: i32,
}

impl Config {
    /// The configuration written when no configuration file exists yet:
    /// stop charging at 85 percent, resume at 80.
    pub fn default() -> (c: Config)
        ensures
            c.stop_charging_threshold == 85,
            c.start_charging_threshold == 80,
    {
        Config { stop_charging_threshold: 85, start_charging_threshold: 80 }
    }

    pub fn get_stop_charging_threshold(&self) -> (r: i32)
        ensures
            r == self.stop_charging_threshold,
    {
        self.stop_charging_threshold
    }

    pub fn get_start_charging_threshold(&self) -> (r: i32)
        ensures
            r == self.start_charging_threshold,
    {
        self.start_charging_threshold
    }

    /// Accepts the configuration unchanged when `start_charging_threshold`
    /// lies in 0..=100, and rejects it as out of range otherwise.
    pub fn validate(self) -> (r: Result<Config, ConfigError>)
        ensures
            0 <= self.start_charging_threshold <= 100 ==> r == Ok::<Config, ConfigError>(self),
            !(0 <= self.start_charging_threshold <= 100) ==> (r matches Err(e) && (e matches
                ConfigError::OutOfRange { value_name, from, to } && value_name@
                == "start_charging_threshold"@ && from == 0 && to == 100)),
    {
        if self.start_charging_threshold < 0 || self.start_charging_threshold > 100 {
            return Err(ConfigError::OutOfRange {
                value_name: "start_charging_threshold".to_owned(),
                from: 0,
                to: 100,
            });
        }
        Ok(self)
    }
}

} // verus!
