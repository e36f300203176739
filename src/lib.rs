//! Control plane of a small function-as-a-service host.
//!
//! Clients register named function apps, upload their code as an archive,
//! and start the built image on a host port. This crate holds the rules:
//! the status state machine, the registry of apps, the checks on an uploaded
//! archive, and the naming of images. Storage, processes and the network are
//! driven from outside with the values these functions compute.

pub mod status;
pub mod error;
pub mod text;
pub mod app_id;
pub mod registry;
pub mod lifecycle;
pub mod image;
pub mod stager;
pub mod client;
