use vstd::prelude::*;

verus! {

/// The error taxonomy of the library.
///
/// Absence of an optional field is never an error: it is reported by the
/// field staying unset.  Every fallible operation returns one of these
/// instead of panicking.
#[derive(Debug)]
pub enum Error {
    /// The mandatory name field could not be derived by any fallback rule;
    /// the payload names the missing field.
    MissingField(String),
    /// The input could not be parsed as a document at all.
    ParseError(String),
    /// A storage engine failure during schema init, upsert, lookup or
    /// search; the payload wraps the engine's message.
    DatabaseError(String),
    /// A malformed identifier or URL was supplied.
    InvalidInput(String),
    /// Any other error.
    Other(String),
}

impl From<String> for Error {
    /// Wrap a bare message as `Error::Other`.
    fn from(s: String) -> (r: Error) {
        Error::Other(s)
    }
}

impl vstd::std_specs::convert::FromSpecImpl<String> for Error {
    open spec fn obeys_from_spec() -> bool {
        true
    }

    open spec fn from_spec(v: String) -> Error {
        Error::Other(v)
    }
}

impl From<&str> for Error {
    /// Wrap a bare message as `Error::Other`.
    fn from(s: &str) -> (r: Error)
        ensures
            r matches Error::Other(m) && m@ == s@,
    {
        Error::Other(s.to_owned())
    }
}

impl vstd::std_specs::convert::FromSpecImpl<&str> for Error {
    open spec fn obeys_from_spec() -> bool {
        false
    }

    open spec fn from_spec(v: &str) -> Error {
        arbitrary()
    }
}

} // verus!
