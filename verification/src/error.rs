use vstd::prelude::*;
use vstd::string::*;

verus! {

/// What can go wrong when creating or driving a window.
#[derive(Debug)]
pub enum Error {
    Platform(String),
    NoDisplay,
    WindowDestroyed,
    Unsupported(&'static str),
}

pub type Result<T> = core::result::Result<T, Error>;

impl Error {
    /// The human-readable description of the error.
    pub open spec fn spec_message(&self) -> Seq<char> {
        match self {
            Error::Platform(msg) => "platform error: "@ + msg@,
            Error::NoDisplay => "could not connect to display server"@,
            Error::WindowDestroyed => "window has already been destroyed"@,
            Error::Unsupported(feat) => "unsupported on this platform: "@ + feat@,
        }
    }

    /// Describes the error, as its `Display` form does.
    pub fn message(&self) -> (res: String)
        ensures
            res@ == self.spec_message(),
    {
        match self {
            Error::Platform(msg) => String::from_str("platform error: ").concat(msg.as_str()),
            Error::NoDisplay => String::from_str("could not connect to display server"),
            Error::WindowDestroyed => String::from_str("window has already been destroyed"),
            Error::Unsupported(feat) => String::from_str("unsupported on this platform: ").concat(
                feat,
            ),
        }
    }
}

} // verus!
