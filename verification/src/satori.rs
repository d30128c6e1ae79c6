//! The Satori protocol: resources, events and the API that adapters implement.

pub mod api;
pub mod event;
pub mod resources;
