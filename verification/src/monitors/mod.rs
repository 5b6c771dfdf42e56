//! The collectors.

pub mod file_monitor;
pub mod package_monitor;

pub use file_monitor::{FileMonitor, FileMonitorConfig};
pub use package_monitor::{PackageMonitor, PackageMonitorConfig};
