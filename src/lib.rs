//! Layered configuration resolution and the listening loop of a chat notifier.
pub mod config;
pub mod config_laws;
pub mod listen;
pub mod listen_laws;
pub mod present;
