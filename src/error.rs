use vstd::prelude::*;

verus! {

/// Why resolving a key failed. Neither failure is ever cached.
#[derive(Clone, Copy, Debug, PartialEq, Eq, Structural)]
pub enum ResolveError {
    /// The durable store could not be reached, or a call to it failed.
    StoreUnavailable,
    /// A stored asset lacks its delimiter, or a stored card does not parse.
    MalformedRecord,
}

impl ResolveError {
    /// A short operator-facing description of the failure.
    pub fn describe(&self) -> (r: String)
        ensures
            *self == ResolveError::StoreUnavailable ==> r@ == "durable store unavailable"@,
            *self == ResolveError::MalformedRecord ==> r@ == "malformed durable record"@,
    {
        match self {
            ResolveError::StoreUnavailable => "durable store unavailable".to_string(),
            ResolveError::MalformedRecord => "malformed durable record".to_string(),
        }
    }
}

} // verus!
