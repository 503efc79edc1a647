//! Monitoring and control for Acer Nitro laptops: the capability model,
//! the sysfs/procfs parsers, power-profile and battery-limit logic, and the
//! text the command line and dashboard render.

pub mod capability;
pub mod command;
pub mod dmi;
pub mod sensor;
pub mod sysfs;
pub mod text;
pub mod battery_calibration;
pub mod battery_limit;
pub mod power_profile;
pub mod rows;
pub mod commands;
pub mod provider;
pub mod evidence;
pub mod power_draw;
pub mod dashboard;
pub mod dbus;
pub mod laws;
