//! A piece of UTF-8 valid text.

use vstd::prelude::*;

use crate::error::Error;

verus! {

/// A piece of UTF-8 valid text.
///
/// The grammar accepts every sequence of Unicode scalar values, the empty
/// sequence included: once the input is text at all, it is valid. The
/// wrapper still goes through `from_str`, so every kind is constructed the
/// same way.
#[derive(Debug, Clone, Eq, Hash)]
pub struct Text(String);

impl View for Text {
    type V = Seq<char>;

    closed spec fn view(&self) -> Seq<char> {
        self.0@
    }
}

impl Text {
    /// Parse a raw string into a `Text`.
    ///
    /// Every input is accepted, and the buffer keeps the input verbatim.
    /// The `Result` shape matches the other kinds so callers can treat all
    /// validated types alike.
    pub fn from_str(s: &str) -> (r: Result<Text, Error>)
        ensures
            r is Ok,
            r->Ok_0@ == s@,
    {
        Ok(Text(String::from_str(s)))
    }

    /// The text, as a borrowed view.
    pub fn as_str(&self) -> (r: &str)
        ensures
            r@ == self@,
    {
        self.0.as_str()
    }

    /// The text, as an owned string equal to the buffer.
    pub fn to_text(&self) -> (r: String)
        ensures
            r@ == self@,
    {
        self.0.clone()
    }

    /// Generate a passage of prose of seed-controlled length.
    ///
    /// Every sequence of Unicode scalar values satisfies the free-text
    /// grammar, so the passage is wrapped as it comes. The result is a
    /// pure function of the seed and word count, so equal seeds give
    /// equal values, and its text always re-parses successfully.
    pub fn generate_valid(seed: &[u8; 32], words: u8) -> (r: Text)
        ensures
            r@ == crate::testing::lipsum_of(seed@, words as nat),
    {
        Text(crate::testing::lipsum_text(seed, words))
    }
}

/// Idempotence of the generation class: the text of a generated passage
/// is a pure function of the seed and word count, so any two values
/// generated from equal inputs hold equal text — and so, by `eq_spec`,
/// are equal.
pub proof fn lemma_generation_deterministic(seed: Seq<u8>, words: nat, a: Text, b: Text)
    requires
        a@ == crate::testing::lipsum_of(seed, words),
        b@ == crate::testing::lipsum_of(seed, words),
    ensures
        a@ == b@,
{
}

impl PartialEq for Text {
    fn eq(&self, other: &Text) -> (r: bool) {
        self.0 == other.0
    }
}

impl vstd::std_specs::cmp::PartialEqSpecImpl for Text {
    open spec fn obeys_eq_spec() -> bool {
        true
    }

    open spec fn eq_spec(&self, other: &Text) -> bool {
        self@ == other@
    }
}

} // verus!
