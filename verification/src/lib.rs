//! Desktop notifications: the data model, the rules that turn a notification
//! into what a notification server receives, and the decisions taken when a
//! server answers.
use vstd::prelude::*;

pub mod action;
pub mod dbus_server;
pub mod error;
pub mod hints;
pub mod image;
pub mod interruption_level;
pub mod macos;
pub mod message;
pub mod noops;
pub mod notification;
pub mod oneshot_server;
pub mod portal;
pub mod priority;
pub mod properties;
pub mod server;
pub mod text;
pub mod timeout;
pub mod urgency;
pub mod windows;
pub mod xdg;

verus! {

/// Return value of `get_server_information()`.
#[derive(Debug)]
pub struct ServerInformation {
    /// The product name of the server.
    pub name: String,
    /// The vendor name.
    pub vendor: String,
    /// The server's version string.
    pub version: String,
    /// The specification version the server is compliant with.
    pub spec_version: String,
}

} // verus!
