//! Clients for the notification proxy and restore services of an iOS device,
//! the pairing records of the host, and the decisions of the tool that lists
//! the apps installed on a device.

pub mod error;
pub mod list_apps;
pub mod services;
pub mod text;
