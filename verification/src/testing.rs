//! Seeded test-data generation: the random sources behind the positive
//! and negative generators of the validated string types.
//!
//! These functions exist to drive property-style tests of the parsing
//! layer; they are not meant as production construction paths. Every
//! source here is a pure function of its seed, so failing runs can be
//! replayed.

use vstd::prelude::*;

use fake::Fake;
use rand::RngCore;
use rand::SeedableRng;

use crate::internet::username::is_handle_char;
use crate::internet::username::is_handle_lead;

verus! {

/// The token that fake's seeded username faker draws for a given seed.
pub uninterp spec fn fake_username_of(seed: Seq<u8>) -> Seq<char>;

/// Relies on fake's `faker::internet::en::Username` driven by rand's
/// `StdRng::from_seed`: the token depends on the seed alone, and is built
/// from fixed English first-name and lorem-word lists (all non-empty, all
/// ASCII letters), optionally lowercased, joined by `.`, `_` or a decimal
/// number. So it is non-empty, opens with an ASCII letter, and every
/// character is an ASCII letter, digit, underscore or dot.
#[verifier::external_body]
pub(crate) fn fake_username_raw(seed: &[u8; 32]) -> (r: String)
    ensures
        r@ == fake_username_of(seed@),
        r@.len() > 0,
        is_handle_lead(r@[0]),
        forall|i: int| 0 <= i < r@.len() ==> is_handle_char(#[trigger] r@[i]) || r@[i] == '.',
{
    let mut rng = rand::rngs::StdRng::from_seed(*seed);
    fake::faker::internet::en::Username().fake_with_rng::<String, _>(&mut rng)
}

/// The byte stream that rand's seeded generator yields for a given seed.
pub uninterp spec fn rng_bytes_of(seed: Seq<u8>, n: nat) -> Seq<u8>;

/// Relies on rand's `StdRng::from_seed` and `RngCore::fill_bytes`: the
/// generator is deterministic in its seed, and `fill_bytes` fills the
/// whole buffer, so the result holds exactly `n` bytes that depend on the
/// seed alone.
#[verifier::external_body]
pub(crate) fn rng_bytes(seed: &[u8; 32], n: usize) -> (r: Vec<u8>)
    ensures
        r@ == rng_bytes_of(seed@, n as nat),
        r@.len() == n,
{
    let mut rng = rand::rngs::StdRng::from_seed(*seed);
    let mut buf = vec![0u8; n];
    rng.fill_bytes(&mut buf);
    buf
}

/// The passage that lipsum's seeded generator yields for a given seed and
/// word count.
pub uninterp spec fn lipsum_of(seed: Seq<u8>, words: nat) -> Seq<char>;

/// Relies on lipsum's `lipsum_with_rng` driven by rand's
/// `StdRng::from_seed`: the passage is sampled from a Markov chain built
/// over a fixed corpus, so it depends on the seed and word count alone.
#[verifier::external_body]
pub(crate) fn lipsum_text(seed: &[u8; 32], words: u8) -> (r: String)
    ensures
        r@ == lipsum_of(seed@, words as nat),
{
    let rng = rand::rngs::StdRng::from_seed(*seed);
    lipsum::lipsum_with_rng(rng, words as usize)
}

/// Relies on `String::push`: it appends the one character to the buffer.
#[verifier::external_body]
pub(crate) fn push_char(s: &mut String, c: char)
    ensures
        final(s)@ == old(s)@.push(c),
{
    s.push(c);
}

} // verus!
