//! How far a notification may break through the user's focus settings.
use vstd::prelude::*;

verus! {

/// Interruption level for a notification. Only macOS honours it; elsewhere
/// the value is carried and ignored.
#[derive(Debug, Clone, Copy, PartialEq, Eq, Structural)]
pub enum InterruptionLevel {
    /// Adds to the notification list without lighting the screen or playing a sound.
    Passive,
    /// Presents immediately, lights the screen, and can play a sound. The default.
    Active,
    /// Presents immediately and bypasses Focus settings.
    TimeSensitive,
    /// Presents immediately, bypasses mute and Do Not Disturb.
    Critical,
}

} // verus!
