//! The four kinds of failure of a run, each with its message.
use vstd::prelude::*;

verus! {

/// Why a run stopped: the vector-format backend, input or output, the
/// point-cloud reader, or a value that could not be derived from a path.
#[derive(Debug, Clone, PartialEq, Eq)]
pub enum LasBoundsError {
    GdalError(String),
    IOError(String),
    LASError(String),
    Custom(String),
}

/// The message that describes an error: its kind, a colon, and what went wrong.
pub open spec fn message_of(e: LasBoundsError) -> Seq<char> {
    match e {
        LasBoundsError::GdalError(m) => "GdalError: "@ + m@,
        LasBoundsError::IOError(m) => "IOError: "@ + m@,
        LasBoundsError::LASError(m) => "LASError: "@ + m@,
        LasBoundsError::Custom(m) => "Custom: "@ + m@,
    }
}

impl LasBoundsError {
    /// The message for a user: the error's kind, then what went wrong.
    pub fn message(&self) -> (r: String)
        ensures
            r@ == message_of(*self),
    {
        let (mut r, m) = match self {
            LasBoundsError::GdalError(m) => (String::from_str("GdalError: "), m),
            LasBoundsError::IOError(m) => (String::from_str("IOError: "), m),
            LasBoundsError::LASError(m) => (String::from_str("LASError: "), m),
            LasBoundsError::Custom(m) => (String::from_str("Custom: "), m),
        };
        r.append(m.as_str());
        r
    }
}

impl From<String> for LasBoundsError {
    fn from(s: String) -> (r: Self) {
        LasBoundsError::Custom(s)
    }
}

impl vstd::std_specs::convert::FromSpecImpl<String> for LasBoundsError {
    open spec fn obeys_from_spec() -> bool {
        true
    }

    open spec fn from_spec(s: String) -> Self {
        LasBoundsError::Custom(s)
    }
}

} // verus!
