//! Clients of the services that a device offers over its connection.

pub mod notification_proxy;
pub mod restored;
pub mod userpref;
