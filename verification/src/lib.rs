//! Verified core of the uProtocol Python bindings: the message data model,
//! payload construction and extraction, error reporting, and the bookkeeping
//! of registered listeners.

pub mod communication;
pub mod errors;
pub mod listeners;
pub mod local_transport;
pub mod payload;
pub mod uattributes;
pub mod ucode;
pub mod umessage;
pub mod uri;
pub mod uuid;
pub mod zenoh_transport;
