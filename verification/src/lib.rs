//! A chat-bot framework speaking the Satori protocol: the protocol's
//! resources, events and API surfaces, the topic layer with its events and
//! message nodes, and the plugin-facing helpers.

pub mod clock;
mod error;
mod json;
pub mod satori;
pub mod topic;
pub mod event;
pub mod logging;
pub mod kissa;
pub mod test_plugin;
pub mod test_plugin_2;

pub use satori::resources;
pub use satori::api;
