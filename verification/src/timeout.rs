//! How long a notification stays on screen.
use vstd::prelude::*;

use crate::message::{item_i32, DbusItem};

verus! {

/// Describes the timeout of a notification.
#[derive(Debug, Copy, Clone, PartialEq, Eq, Structural)]
pub enum Timeout {
    /// Expires according to server default.
    Default,
    /// Do not expire, user will have to close this manually.
    Never,
    /// Expire after n milliseconds.
    Milliseconds(u32),
}

/// The timeout that the wire value `value` stands for: negative values leave it
/// to the server, zero means never, positive values are milliseconds.
pub open spec fn timeout_of_i32(value: i32) -> Timeout {
    if value > 0 {
        Timeout::Milliseconds(value as u32)
    } else if value < 0 {
        Timeout::Default
    } else {
        Timeout::Never
    }
}

/// The wire value of a timeout: `-1` for the server default, `0` for never,
/// the milliseconds otherwise (reinterpreted as `i32`, as the wire format has it).
pub open spec fn i32_of_timeout(timeout: Timeout) -> i32 {
    match timeout {
        Timeout::Default => -1i32,
        Timeout::Never => 0i32,
        Timeout::Milliseconds(ms) => ms as i32,
    }
}

impl Timeout {
    /// Converts a wire value into a timeout.
    pub fn from_i32(value: i32) -> (t: Timeout)
        ensures
            t == timeout_of_i32(value),
    {
        if value > 0 {
            Timeout::Milliseconds(value as u32)
        } else if value < 0 {
            Timeout::Default
        } else {
            Timeout::Never
        }
    }

    /// Converts a duration, given in whole milliseconds, into a timeout: zero
    /// never expires, a count that does not fit in an `i32` falls back to the
    /// server default.
    pub fn from_duration_millis(millis: u128) -> (t: Timeout)
        ensures
            t == (if millis == 0 {
                Timeout::Never
            } else if millis > i32::MAX {
                Timeout::Default
            } else {
                Timeout::Milliseconds(millis as u32)
            }),
    {
        if millis == 0 {
            Timeout::Never
        } else if millis > 0x7fff_ffff {
            Timeout::Default
        } else {
            Timeout::Milliseconds(millis as u32)
        }
    }

    /// Converts a timeout into its wire value.
    pub fn into_i32(self) -> (value: i32)
        ensures
            value == i32_of_timeout(self),
    {
        match self {
            Timeout::Default => -1,
            Timeout::Never => 0,
            Timeout::Milliseconds(ms) => ms as i32,
        }
    }
}

impl Default for Timeout {
    /// The server's default timeout.
    fn default() -> (t: Timeout)
        ensures
            t == Timeout::Default,
    {
        Timeout::Default
    }
}

/// A timeout on its way to or from the server.
pub struct TimeoutMessage(pub Timeout);

impl TimeoutMessage {
    /// Wraps a timeout.
    pub fn from_timeout(timeout: Timeout) -> (m: TimeoutMessage)
        ensures
            m.0 == timeout,
    {
        TimeoutMessage(timeout)
    }

    /// The wrapped timeout.
    pub fn timeout(&self) -> (t: Timeout)
        ensures
            t == self.0,
    {
        self.0
    }

    /// Reads a timeout from a message item: a signed 32-bit integer, read
    /// through variants, as its wire value; any other item is refused.
    pub fn try_from_item(item: &DbusItem) -> (r: Result<TimeoutMessage, ()>)
        ensures
            match item_i32(item@) {
                Some(v) => r matches Ok(m) && m.0 == timeout_of_i32(v),
                None => r is Err,
            },
    {
        match item.inner_i32() {
            Some(v) => Ok(TimeoutMessage(Timeout::from_i32(v))),
            None => Err(()),
        }
    }
}

} // verus!
