//! Error type for toolkit operations.

use vstd::prelude::*;

verus! {

/// Declares `std::io::Error` so that it can be carried in the error type;
/// the value is opaque to the verified library.
#[verifier::external_type_specification]
#[verifier::external_body]
pub struct ExIoError(std::io::Error);

/// Error type for toolkit operations.
#[derive(Debug)]
pub enum Error {
    /// Rendering error
    Render(String),
    /// IO error
    Io(std::io::Error),
    /// Animation error
    Animation(String),
    /// Invalid configuration
    Config(String),
    /// Generic error
    Other(String),
}

/// Relies on the `Display` implementation of `std::io::Error` to describe
/// the error; nothing is claimed of the text.
#[verifier::external_body]
fn io_error_message(e: &std::io::Error) -> (r: String) {
    format!("{}", e)
}

impl Error {
    /// The human-readable description of the error: a fixed prefix naming
    /// the failure, followed by the detail it carries.
    pub fn message(&self) -> (r: String)
        ensures
            ({
                match *self {
                    Error::Render(s) => r@ == "Rendering error: "@ + s@,
                    Error::Io(_) => exists|t: Seq<char>| r@ == "IO error: "@ + t,
                    Error::Animation(s) => r@ == "Animation error: "@ + s@,
                    Error::Config(s) => r@ == "Invalid configuration: "@ + s@,
                    Error::Other(s) => r@ == s@,
                }
            }),
    {
        match self {
            Error::Render(s) => {
                let mut m = String::from_str("Rendering error: ");
                m.append(s.as_str());
                assert(m@ =~= "Rendering error: "@ + s@);
                m
            },
            Error::Io(e) => {
                let mut m = String::from_str("IO error: ");
                let detail = io_error_message(e);
                m.append(detail.as_str());
                assert(m@ == "IO error: "@ + detail@);
                m
            },
            Error::Animation(s) => {
                let mut m = String::from_str("Animation error: ");
                m.append(s.as_str());
                assert(m@ =~= "Animation error: "@ + s@);
                m
            },
            Error::Config(s) => {
                let mut m = String::from_str("Invalid configuration: ");
                m.append(s.as_str());
                assert(m@ =~= "Invalid configuration: "@ + s@);
                m
            },
            Error::Other(s) => {
                let mut m = String::from_str("");
                m.append(s.as_str());
                proof { reveal_strlit(""); }
                assert(m@ =~= s@);
                m
            },
        }
    }
}

impl From<std::io::Error> for Error {
    /// Wraps an I/O error in the `Io` variant.
    fn from(e: std::io::Error) -> (r: Self)
        ensures
            r == Error::Io(e),
    {
        Error::Io(e)
    }
}

impl vstd::std_specs::convert::FromSpecImpl<std::io::Error> for Error {
    open spec fn obeys_from_spec() -> bool {
        true
    }

    open spec fn from_spec(e: std::io::Error) -> Self {
        Error::Io(e)
    }
}

} // verus!
