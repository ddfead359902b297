//! Blaine: the decision logic of a battery, disk and network-interface watchdog.
//!
//! The library decides; the program around it probes the machine and raises
//! the alerts that the library chose.

pub mod level;
pub mod battery_monitor;
pub mod disks_meter;
pub mod chaeyoung;
pub mod failed_networks;
pub mod cli;
