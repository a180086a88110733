//! A handle for a user, with only alphanumeric characters and underscores.

use vstd::prelude::*;

use crate::error::Error;
use crate::error::Kind;

verus! {

/// Whether `c` may open a handle: an ASCII letter or digit.
pub open spec fn is_handle_lead(c: char) -> bool {
    (48 <= c as u32 && c as u32 <= 57) || (65 <= c as u32 && c as u32 <= 90) || (97 <= c as u32
        && c as u32 <= 122)
}

/// Whether `c` may continue a handle: an ASCII letter, digit or underscore.
pub open spec fn is_handle_char(c: char) -> bool {
    is_handle_lead(c) || c as u32 == 95
}

/// The handle grammar: a non-empty sequence whose first scalar value is an
/// ASCII letter or digit and whose remaining scalar values are ASCII
/// letters, digits or underscores. The whole input must match: there is no
/// prefix acceptance.
pub open spec fn handle_accepts(s: Seq<char>) -> bool {
    &&& s.len() > 0
    &&& is_handle_lead(s[0])
    &&& forall|i: int| 1 <= i < s.len() ==> is_handle_char(#[trigger] s[i])
}

/// A handle for a user, with only alphanumeric characters and underscores.
///
/// The buffer always satisfies `handle_accepts`; the only construction
/// paths are `from_str` and the positive generator, both of which
/// establish it.
#[derive(Debug, Clone, Eq, Hash)]
pub struct Username(String);

impl View for Username {
    type V = Seq<char>;

    closed spec fn view(&self) -> Seq<char> {
        self.0@
    }
}

/// Whether `c` may open a handle.
fn char_is_handle_lead(c: char) -> (r: bool)
    ensures
        r == is_handle_lead(c),
{
    let n = c as u32;
    (48 <= n && n <= 57) || (65 <= n && n <= 90) || (97 <= n && n <= 122)
}

/// Whether `c` may continue a handle.
fn char_is_handle_char(c: char) -> (r: bool)
    ensures
        r == is_handle_char(c),
{
    char_is_handle_lead(c) || c as u32 == 95
}

impl Username {
    /// The invariant carried by every `Username`: its text is accepted by
    /// the handle grammar.
    pub open spec fn wf(&self) -> bool {
        handle_accepts(self@)
    }

    /// Parse a raw string into a `Username`.
    ///
    /// Succeeds exactly when the handle grammar accepts the whole input,
    /// and then keeps the input verbatim: no trimming, no case folding.
    /// On failure the error carries the rejecting kind and the exact
    /// original input.
    pub fn from_str(s: &str) -> (r: Result<Username, Error>)
        ensures
            r is Ok <==> handle_accepts(s@),
            r is Ok ==> r->Ok_0@ == s@ && r->Ok_0.wf(),
            r is Err ==> r->Err_0->FailedParsing_0 == Kind::Username
                && r->Err_0->FailedParsing_1@ == s@,
    {
        let len = s.unicode_len();
        let mut ok = len > 0 && char_is_handle_lead(s.get_char(0));
        let mut i: usize = 1;
        while ok && i < len
            invariant
                1 <= i,
                i <= len || !ok,
                len == s@.len(),
                ok ==> is_handle_lead(s@[0]) && len > 0,
                ok ==> forall|j: int| 1 <= j < i ==> is_handle_char(#[trigger] s@[j]),
                !ok ==> !handle_accepts(s@),
            decreases len - i,
        {
            if !char_is_handle_char(s.get_char(i)) {
                ok = false;
            }
            i = i + 1;
        }
        if ok {
            Ok(Username(String::from_str(s)))
        } else {
            Err(Error::FailedParsing(Kind::Username, String::from_str(s)))
        }
    }

    /// The text of the handle, as a borrowed view.
    pub fn as_str(&self) -> (r: &str)
        ensures
            r@ == self@,
    {
        self.0.as_str()
    }

    /// The text of the handle, as an owned string equal to the buffer.
    pub fn to_text(&self) -> (r: String)
        ensures
            r@ == self@,
    {
        self.0.clone()
    }
}

/// `s` with every `.` rewritten to `_` and every other character kept:
/// the repair pass applied to generated handle-shaped tokens.
pub open spec fn dots_to_underscores(s: Seq<char>) -> Seq<char> {
    Seq::new(s.len(), |i: int| if s[i] == '.' { '_' } else { s[i] })
}

/// A character that may not open a handle, picked by a byte.
pub open spec fn bad_lead_char(b: u8) -> char {
    let k = b % 8;
    if k == 0 {
        '_'
    } else if k == 1 {
        '.'
    } else if k == 2 {
        ' '
    } else if k == 3 {
        '!'
    } else if k == 4 {
        '-'
    } else if k == 5 {
        '@'
    } else if k == 6 {
        '#'
    } else {
        '~'
    }
}

/// A character that may stand nowhere in a handle, picked by a byte.
pub open spec fn bad_tail_char(b: u8) -> char {
    let k = b % 8;
    if k == 0 {
        '%'
    } else if k == 1 {
        '.'
    } else if k == 2 {
        ' '
    } else if k == 3 {
        '!'
    } else if k == 4 {
        '-'
    } else if k == 5 {
        '@'
    } else if k == 6 {
        '#'
    } else {
        '~'
    }
}

/// A lowercase ASCII letter, picked by a byte.
pub open spec fn filler_char(b: u8) -> char {
    ((b % 26 + 97) as u8) as char
}

/// The string drawn from the complement of the handle grammar for a given
/// run of random bytes: either it opens with a character that may not
/// open a handle, or it carries, past the first position, a character
/// that may stand nowhere in a handle.
pub open spec fn complement_text(bytes: Seq<u8>) -> Seq<char> {
    if bytes[0] % 2 == 0 {
        Seq::new(
            8,
            |i: int|
                if i == 0 {
                    bad_lead_char(bytes[1])
                } else {
                    filler_char(bytes[i + 1])
                },
        )
    } else {
        Seq::new(
            8,
            |i: int|
                if i == 7 {
                    bad_tail_char(bytes[1])
                } else {
                    filler_char(bytes[i + 2])
                },
        )
    }
}

/// Round trip, positive side: any token that is non-empty, opens with an
/// ASCII letter or digit, and otherwise holds only handle characters and
/// dots — the shape of every generated raw token — is accepted by the
/// handle grammar once its dots are rewritten to underscores. By
/// `from_str`'s contract, re-parsing such text therefore succeeds and
/// returns it verbatim.
pub proof fn lemma_repair_preserves_handle(s: Seq<char>)
    requires
        s.len() > 0,
        is_handle_lead(s[0]),
        forall|i: int| 0 <= i < s.len() ==> is_handle_char(#[trigger] s[i]) || s[i] == '.',
    ensures
        handle_accepts(dots_to_underscores(s)),
{
    let t = dots_to_underscores(s);
    assert(t[0] == s[0]);
    assert forall|i: int| 1 <= i < t.len() implies is_handle_char(#[trigger] t[i]) by {
        if s[i] == '.' {
            assert(t[i] == '_');
        }
    }
}

/// Idempotence of the generation class: the text of a generated handle
/// is a pure function of the seed, so any two values generated from
/// equal seeds hold equal text — and so, by `eq_spec`, are equal.
pub proof fn lemma_generation_deterministic(seed: Seq<u8>, a: Username, b: Username)
    requires
        a@ == dots_to_underscores(crate::testing::fake_username_of(seed)),
        b@ == dots_to_underscores(crate::testing::fake_username_of(seed)),
    ensures
        a@ == b@,
{
}

/// Total rejection of the complement: every string drawn from the
/// complement pattern is rejected by the handle grammar. By `from_str`'s
/// contract, parsing it therefore fails, with a failure that carries
/// `Kind::Username` and the input unchanged.
pub proof fn lemma_complement_rejected(bytes: Seq<u8>)
    requires
        bytes.len() >= 9,
    ensures
        !handle_accepts(complement_text(bytes)),
{
    let s = complement_text(bytes);
    if bytes[0] % 2 == 0 {
        assert(!is_handle_lead(s[0]));
    } else {
        assert(!is_handle_char(s[7]));
    }
}

/// A character that may not open a handle, picked by a byte.
fn pick_bad_lead(b: u8) -> (c: char)
    ensures
        c == bad_lead_char(b),
{
    let k = b % 8;
    if k == 0 {
        '_'
    } else if k == 1 {
        '.'
    } else if k == 2 {
        ' '
    } else if k == 3 {
        '!'
    } else if k == 4 {
        '-'
    } else if k == 5 {
        '@'
    } else if k == 6 {
        '#'
    } else {
        '~'
    }
}

/// A character that may stand nowhere in a handle, picked by a byte.
fn pick_bad_tail(b: u8) -> (c: char)
    ensures
        c == bad_tail_char(b),
{
    let k = b % 8;
    if k == 0 {
        '%'
    } else if k == 1 {
        '.'
    } else if k == 2 {
        ' '
    } else if k == 3 {
        '!'
    } else if k == 4 {
        '-'
    } else if k == 5 {
        '@'
    } else if k == 6 {
        '#'
    } else {
        '~'
    }
}

/// A lowercase ASCII letter, picked by a byte.
fn pick_filler(b: u8) -> (c: char)
    ensures
        c == filler_char(b),
{
    let code: u8 = b % 26 + 97;
    code as char
}

/// `s` with every `.` rewritten to `_`.
fn replace_dots(s: &str) -> (r: String)
    ensures
        r@ == dots_to_underscores(s@),
{
    let len = s.unicode_len();
    let mut out = String::new();
    let mut i: usize = 0;
    while i < len
        invariant
            i <= len,
            len == s@.len(),
            out@.len() == i,
            forall|j: int|
                0 <= j < i ==> #[trigger] out@[j] == (if s@[j] == '.' {
                    '_'
                } else {
                    s@[j]
                }),
        decreases len - i,
    {
        let c = s.get_char(i);
        if c == '.' {
            crate::testing::push_char(&mut out, '_');
        } else {
            crate::testing::push_char(&mut out, c);
        }
        i = i + 1;
    }
    proof {
        assert(out@ =~= dots_to_underscores(s@));
    }
    out
}

impl Username {
    /// Generate a handle that is guaranteed to satisfy the grammar.
    ///
    /// A handle-shaped token is drawn from a seeded fake-username source,
    /// and any dot in it is rewritten to the allowed underscore — a
    /// repair pass on top of the source, not a replacement for the
    /// grammar. The result is a pure function of the seed, so equal seeds
    /// give equal values, and its text always re-parses successfully.
    pub fn generate_valid(seed: &[u8; 32]) -> (r: Username)
        ensures
            r@ == dots_to_underscores(crate::testing::fake_username_of(seed@)),
            r.wf(),
    {
        let raw = crate::testing::fake_username_raw(seed);
        let repaired = replace_dots(raw.as_str());
        proof {
            lemma_repair_preserves_handle(raw@);
        }
        Username(repaired)
    }

    /// Generate a raw string that is guaranteed to violate the grammar.
    ///
    /// The string is drawn from the explicit complement pattern — a bad
    /// opening character, or a forbidden character past the first
    /// position — rather than by corrupting a valid value, and it is a
    /// pure function of the seed.
    pub fn generate_invalid(seed: &[u8; 32]) -> (r: String)
        ensures
            r@ == complement_text(crate::testing::rng_bytes_of(seed@, 9)),
            !handle_accepts(r@),
    {
        let bytes = crate::testing::rng_bytes(seed, 9);
        let mut out = String::new();
        if bytes[0] % 2 == 0 {
            crate::testing::push_char(&mut out, pick_bad_lead(bytes[1]));
            let mut i: usize = 1;
            while i < 8
                invariant
                    1 <= i <= 8,
                    bytes@.len() == 9,
                    bytes@[0] % 2 == 0,
                    out@.len() == i,
                    out@[0] == bad_lead_char(bytes@[1]),
                    forall|j: int| 1 <= j < i ==> #[trigger] out@[j] == filler_char(bytes@[j + 1]),
                decreases 8 - i,
            {
                crate::testing::push_char(&mut out, pick_filler(bytes[i + 1]));
                i = i + 1;
            }
        } else {
            let mut i: usize = 0;
            while i < 7
                invariant
                    i <= 7,
                    bytes@.len() == 9,
                    out@.len() == i,
                    forall|j: int| 0 <= j < i ==> #[trigger] out@[j] == filler_char(bytes@[j + 2]),
                decreases 7 - i,
            {
                crate::testing::push_char(&mut out, pick_filler(bytes[i + 2]));
                i = i + 1;
            }
            crate::testing::push_char(&mut out, pick_bad_tail(bytes[1]));
        }
        proof {
            assert(out@ =~= complement_text(bytes@));
            lemma_complement_rejected(bytes@);
        }
        out
    }
}

impl PartialEq for Username {
    fn eq(&self, other: &Username) -> (r: bool) {
        self.0 == other.0
    }
}

impl vstd::std_specs::cmp::PartialEqSpecImpl for Username {
    open spec fn obeys_eq_spec() -> bool {
        true
    }

    open spec fn eq_spec(&self, other: &Username) -> bool {
        self@ == other@
    }
}

} // verus!
