//! A battery charge-threshold controller: reads battery telemetry from a
//! sysfs-style control interface, decides each polling cycle whether to
//! inhibit or allow charging, and writes the decision back.
//!
//! This crate holds the verified core: the textual encoding of the three
//! control-interface entries and the threshold decision policy. The file
//! reads and writes themselves, configuration loading and the polling loop's
//! timing live outside it and hand it plain byte strings.

pub mod battery_handling;
pub mod config;
pub mod text;

