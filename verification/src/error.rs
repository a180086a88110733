//! The failure value returned when a raw string does not match a grammar.

use vstd::prelude::*;

verus! {

/// The validated-string kinds, used to tag a parse failure with the
/// grammar that rejected the input.
#[derive(Debug, Clone, Copy, PartialEq, Eq, Hash, Structural)]
pub enum Kind {
    Username,
    Text,
}

/// A parse failure: the tagged kind rejected the carried original input.
/// No value of the rejected type is ever constructed alongside it.
#[derive(Debug, Clone, Eq, Hash)]
pub enum Error {
    FailedParsing(Kind, String),
}

impl Error {
    /// The kind whose grammar rejected the input.
    pub fn kind(&self) -> (k: Kind)
        ensures
            k == self->FailedParsing_0,
    {
        match self {
            Error::FailedParsing(k, _) => *k,
        }
    }

    /// The exact input that was rejected, unchanged.
    pub fn input(&self) -> (s: &str)
        ensures
            s@ == self->FailedParsing_1@,
    {
        match self {
            Error::FailedParsing(_, s) => s.as_str(),
        }
    }
}

impl PartialEq for Error {
    fn eq(&self, other: &Error) -> (r: bool) {
        match (self, other) {
            (Error::FailedParsing(k1, s1), Error::FailedParsing(k2, s2)) => {
                *k1 == *k2 && *s1 == *s2
            },
        }
    }
}

impl vstd::std_specs::cmp::PartialEqSpecImpl for Error {
    open spec fn obeys_eq_spec() -> bool {
        true
    }

    open spec fn eq_spec(&self, other: &Error) -> bool {
        self->FailedParsing_0 == other->FailedParsing_0
            && self->FailedParsing_1@ == other->FailedParsing_1@
    }
}

} // verus!
