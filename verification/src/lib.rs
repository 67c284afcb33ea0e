//! A logging bridge between concurrent producers and one host consumer,
//! together with the small network-configuration helpers that ship with it.

pub mod level;
pub mod text;
pub mod record;
pub mod policy;
pub mod bridge;
pub mod laws;
pub mod pem;
pub mod certs;
pub mod proxy;
pub mod samples;

pub use crate::bridge::{BridgeError, LogBridge};
pub use crate::certs::ca_certs;
pub use crate::level::Level;
pub use crate::policy::FilterPolicy;
pub use crate::proxy::Sysproxy;
pub use crate::record::{LogEntry, LogRecord};
