//! Attacca: the decision logic of a Roon desktop client, with its contracts.
//!
//! Everything that talks to the network, the file system, D-Bus or Qt lives
//! in the application around this crate; what it decides lives here.
pub mod bridge;
pub mod bridge_setup;
pub mod browse;
pub mod cli;
pub mod client;
pub mod json;
pub mod mpris;
pub mod paths;
pub mod session;
pub mod sort;
pub mod text;
pub mod zones;
