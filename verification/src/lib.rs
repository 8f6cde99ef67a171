//! Consumer Electronics Control for Linux: messages, devices and the logic of a CEC daemon.

pub mod address;
pub mod attach;
pub mod bytes14;
pub mod cdc;
pub mod codec;
pub mod config;
pub mod configure;
pub mod dbus;
pub mod device;
pub mod drm;
pub mod error;
pub mod keys;
pub mod layout;
pub mod lifecycle;
pub mod limits;
pub mod message;
pub mod numbers;
pub mod operand;
pub mod sources;
pub mod status;
pub mod system;
pub mod task;
pub mod testing;
pub mod text;
pub mod wake;
