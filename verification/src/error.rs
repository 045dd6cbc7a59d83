//! The error type of the library.
use vstd::prelude::*;

use crate::image::ImageError;
use vstd::string::StringExecFns;

verus! {

/// The kind of an error. Errors of the D-Bus stacks and of number parsing are
/// carried as their rendered messages.
#[derive(Debug)]
pub enum ErrorKind {
    /// A plain message.
    Msg(String),
    /// An error of the dbus-rs stack.
    Dbus(String),
    /// An error of the zbus stack.
    Zbus(String),
    /// A number could not be parsed.
    Parse(String),
    /// The server reported a specification version that could not be read.
    SpecVersion(String),
    /// A value could not be converted.
    Conversion(String),
    /// An image could not be built.
    Image(ImageError),
}

/// The error type.
#[derive(Debug)]
pub struct Error {
    kind: ErrorKind,
}

/// Concatenates two strings.
fn concat_str(a: &str, b: &str) -> (r: String)
    ensures
        r@ == a@ + b@,
{
    let mut s = crate::text::owned(a);
    s.append(b);
    s
}

/// The message an error of each kind is shown with.
pub open spec fn kind_message(kind: ErrorKind) -> Seq<char> {
    match kind {
        ErrorKind::Msg(m) => m@,
        ErrorKind::Dbus(m) => m@,
        ErrorKind::Zbus(m) => m@,
        ErrorKind::Parse(m) => "Parsing Error: "@ + m@,
        ErrorKind::SpecVersion(m) => m@,
        ErrorKind::Conversion(m) => "Conversion Error: "@ + m@,
        ErrorKind::Image(e) => image_error_message(e),
    }
}

/// The message an image error is shown with.
pub open spec fn image_error_message(e: ImageError) -> Seq<char> {
    match e {
        ImageError::TooBig => "The given image is too big. DBus only has 32 bits for width / height"@,
        ImageError::WrongDataSize => "The given bytes don't match the width, height and channel count"@,
        ImageError::CantOpen(_) => "Can't open given path"@,
        ImageError::CantConvert => "Can't open given path"@,
    }
}

/// The message an image error is shown with.
pub fn image_error_text(e: &ImageError) -> (r: String)
    ensures
        r@ == image_error_message(*e),
{
    match e {
        ImageError::TooBig => owned_text("The given image is too big. DBus only has 32 bits for width / height"),
        ImageError::WrongDataSize => owned_text("The given bytes don't match the width, height and channel count"),
        ImageError::CantOpen(_) => owned_text("Can't open given path"),
        ImageError::CantConvert => owned_text("Can't open given path"),
    }
}

fn owned_text(s: &str) -> (r: String)
    ensures
        r@ == s@,
{
    crate::text::owned(s)
}

impl Error {
    /// An error of the given kind.
    pub fn from_kind(kind: ErrorKind) -> (e: Error)
        ensures
            e.kind() == kind,
    {
        Error { kind }
    }

    /// An error carrying a plain message.
    pub fn msg(message: &str) -> (e: Error)
        ensures
            e.kind() matches ErrorKind::Msg(m) && m@ == message@,
    {
        Error { kind: ErrorKind::Msg(crate::text::owned(message)) }
    }

    /// An error from a failed image.
    pub fn from_image(e: ImageError) -> (r: Error)
        ensures
            r.kind() == ErrorKind::Image(e),
    {
        Error { kind: ErrorKind::Image(e) }
    }

    /// The kind of this error.
    pub closed spec fn kind(&self) -> ErrorKind {
        self.kind
    }

    /// The kind of this error.
    pub fn get_kind(&self) -> (r: &ErrorKind)
        ensures
            *r == self.kind(),
    {
        &self.kind
    }

    /// The message this error is shown with.
    pub fn message(&self) -> (r: String)
        ensures
            r@ == kind_message(self.kind()),
    {
        match &self.kind {
            ErrorKind::Msg(m) => m.clone(),
            ErrorKind::Dbus(m) => m.clone(),
            ErrorKind::Zbus(m) => m.clone(),
            ErrorKind::Parse(m) => concat_str("Parsing Error: ", m.as_str()),
            ErrorKind::SpecVersion(m) => m.clone(),
            ErrorKind::Conversion(m) => concat_str("Conversion Error: ", m.as_str()),
            ErrorKind::Image(e) => image_error_text(e),
        }
    }
}

} // verus!
