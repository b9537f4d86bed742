//! The errors of the sampler.

use vstd::prelude::*;
use vstd::std_specs::convert::FromSpecImpl;

verus! {

/// The errors of the sampler.
#[derive(Debug, PartialEq, Eq, Structural, Clone, Copy)]
pub enum Error {
    /// The wave decoder failed.
    HoundError,
    /// The given path does not exist.
    IoPathDoesNotExist,
    /// Reading or writing failed.
    IoError,
    /// The wave holds samples of a kind that the sampler does not load.
    IoWrongDatatyp,
}

/// The result of the sampler's fallible operations.
pub type Result<T> = core::result::Result<T, Error>;

/// The name of an error, which is also what its `Display` form shows.
pub open spec fn error_text(e: Error) -> Seq<char> {
    match e {
        Error::HoundError => "HoundError"@,
        Error::IoPathDoesNotExist => "IoPathDoesNotExist"@,
        Error::IoError => "IoError"@,
        Error::IoWrongDatatyp => "IoWrongDatatyp"@,
    }
}

impl Error {
    /// Renders the error as its `Display` form does: the variant's name.
    pub fn to_string(&self) -> (s: String)
        ensures
            s@ == error_text(*self),
    {
        match self {
            Error::HoundError => String::from_str("HoundError"),
            Error::IoPathDoesNotExist => String::from_str("IoPathDoesNotExist"),
            Error::IoError => String::from_str("IoError"),
            Error::IoWrongDatatyp => String::from_str("IoWrongDatatyp"),
        }
    }
}

impl From<hound::Error> for Error {
    /// Every decoder failure becomes `HoundError`.
    fn from(err: hound::Error) -> (e: Error) {
        Error::HoundError
    }
}

impl FromSpecImpl<hound::Error> for Error {
    open spec fn obeys_from_spec() -> bool {
        true
    }

    open spec fn from_spec(err: hound::Error) -> Error {
        Error::HoundError
    }
}

impl From<std::io::Error> for Error {
    /// Every I/O failure becomes `IoError`.
    fn from(err: std::io::Error) -> (e: Error) {
        Error::IoError
    }
}

impl FromSpecImpl<std::io::Error> for Error {
    open spec fn obeys_from_spec() -> bool {
        true
    }

    open spec fn from_spec(err: std::io::Error) -> Error {
        Error::IoError
    }
}

} // verus!
