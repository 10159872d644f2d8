//! Finding a byte pattern in a buffer, and looking a size field up by the
//! value it holds.

use crate::le32::{encode, le_bytes};
use vstd::prelude::*;

verus! {

/// `needle` stands in `haystack` at offset `at`.
pub open spec fn window_at(haystack: Seq<u8>, needle: Seq<u8>, at: int) -> bool {
    &&& 0 <= at
    &&& at + needle.len() <= haystack.len()
    &&& haystack.subrange(at, at + needle.len()) == needle
}

/// `needle` appears somewhere in `haystack` as a contiguous run of bytes.
pub open spec fn occurs(haystack: Seq<u8>, needle: Seq<u8>) -> bool {
    exists|at: int| window_at(haystack, needle, at)
}

/// `at` is the lowest offset at which `needle` stands in `haystack`.
pub open spec fn is_first_match(haystack: Seq<u8>, needle: Seq<u8>, at: int) -> bool {
    &&& window_at(haystack, needle, at)
    &&& forall|below: int| 0 <= below < at ==> !window_at(haystack, needle, below)
}

/// The lowest offset at which `needle` stands in `haystack`, if it occurs
/// there at all.
pub open spec fn locate(haystack: Seq<u8>, needle: Seq<u8>) -> Option<int> {
    if occurs(haystack, needle) {
        Some(choose|at: int| is_first_match(haystack, needle, at))
    } else {
        None
    }
}

/// The outcome of looking a size field up by the value it holds. What a
/// missing match means is for the caller to say, field by field: `or_nominal`
/// where the nominal offset of the field may be used instead, `located` where
/// it may not.
#[derive(Clone, Copy, Debug, PartialEq, Eq, Structural)]
pub enum Lookup {
    /// The value searched for first stands at this offset.
    Located(usize),
    /// The value stands nowhere in the buffer.
    Missing,
}

/// The lookup of `needle` in `haystack`.
pub open spec fn lookup(haystack: Seq<u8>, needle: Seq<u8>) -> Lookup {
    match locate(haystack, needle) {
        Some(at) => Lookup::Located(at as usize),
        None => Lookup::Missing,
    }
}

impl Lookup {
    /// The located offset, or else `nominal`.
    pub open spec fn spec_or_nominal(self, nominal: usize) -> usize {
        match self {
            Lookup::Located(at) => at,
            Lookup::Missing => nominal,
        }
    }

    /// The located offset, if there is one.
    pub open spec fn spec_located(self) -> Option<usize> {
        match self {
            Lookup::Located(at) => Some(at),
            Lookup::Missing => None,
        }
    }

    /// The offset of a field for which a missing match is tolerable: the
    /// located one, or else `nominal`.
    #[verifier::when_used_as_spec(spec_or_nominal)]
    pub fn or_nominal(self, nominal: usize) -> (at: usize)
        ensures
            at == self.spec_or_nominal(nominal),
    {
        match self {
            Lookup::Located(at) => at,
            Lookup::Missing => nominal,
        }
    }

    /// The offset of a field for which a missing match is fatal: the located
    /// one, and nothing in its absence.
    #[verifier::when_used_as_spec(spec_located)]
    pub fn located(self) -> (at: Option<usize>)
        ensures
            at == self.spec_located(),
    {
        match self {
            Lookup::Located(at) => Some(at),
            Lookup::Missing => None,
        }
    }
}

/// Below any match there is a lowest one.
proof fn lemma_lowest_match(haystack: Seq<u8>, needle: Seq<u8>, at: int) -> (low: int)
    requires
        window_at(haystack, needle, at),
    ensures
        is_first_match(haystack, needle, low),
        low <= at,
    decreases at,
{
    if exists|below: int| 0 <= below < at && window_at(haystack, needle, below) {
        let below = choose|below: int| 0 <= below < at && window_at(haystack, needle, below);
        lemma_lowest_match(haystack, needle, below)
    } else {
        at
    }
}

/// What `locate` gives: nothing exactly when the needle occurs nowhere in the
/// haystack, and otherwise the lowest offset at which it stands.
pub proof fn lemma_locate(haystack: Seq<u8>, needle: Seq<u8>)
    ensures
        match locate(haystack, needle) {
            Some(at) => is_first_match(haystack, needle, at),
            None => !occurs(haystack, needle),
        },
        locate(haystack, needle) is None <==> !occurs(haystack, needle),
{
    if occurs(haystack, needle) {
        let at = choose|at: int| window_at(haystack, needle, at);
        let low = lemma_lowest_match(haystack, needle, at);
    }
}

/// A needle longer than the haystack occurs nowhere in it, and the empty
/// needle stands at offset 0 of every haystack.
pub proof fn lemma_locate_edges(haystack: Seq<u8>, needle: Seq<u8>)
    ensures
        needle.len() > haystack.len() ==> locate(haystack, needle) is None,
        needle.len() == 0 ==> locate(haystack, needle) == Some(0int),
{
    lemma_locate(haystack, needle);
    if needle.len() == 0 {
        assert(haystack.subrange(0, 0) =~= needle);
        assert(window_at(haystack, needle, 0));
    }
}

/// Whether `needle` stands in `haystack` at offset `at`.
fn matches_at(haystack: &[u8], needle: &[u8], at: usize) -> (hit: bool)
    requires
        at + needle.len() <= haystack.len(),
    ensures
        hit == window_at(haystack@, needle@, at as int),
{
    let mut i: usize = 0;
    while i < needle.len()
        invariant
            i <= needle.len(),
            at + needle.len() <= haystack.len(),
            forall|j: int| 0 <= j < i ==> haystack@[at + j] == needle@[j],
        decreases needle.len() - i,
    {
        if haystack[at + i] != needle[i] {
            assert(haystack@.subrange(at as int, at + needle@.len())[i as int] != needle@[i as int]);
            return false;
        }
        i += 1;
    }
    assert(haystack@.subrange(at as int, at + needle@.len()) =~= needle@);
    true
}

/// The first offset at which `needle` stands in `haystack`.
///
/// Returns `None` exactly when `needle` is not a contiguous run of bytes of
/// `haystack`, which includes every needle longer than the haystack;
/// otherwise the lowest matching offset. The empty needle is found at 0.
pub fn find_seq(haystack: &[u8], needle: &[u8]) -> (found: Option<usize>)
    ensures
        found is None <==> !occurs(haystack@, needle@),
        found matches Some(at) ==> is_first_match(haystack@, needle@, at as int),
        match found {
            Some(at) => locate(haystack@, needle@) == Some(at as int),
            None => locate(haystack@, needle@) is None,
        },
{
    if needle.len() == 0 {
        proof {
            lemma_locate_edges(haystack@, needle@);
            lemma_locate(haystack@, needle@);
        }
        return Some(0);
    }
    if needle.len() > haystack.len() {
        return None;
    }
    let windows: usize = haystack.len() - needle.len() + 1;
    let mut at: usize = 0;
    while at < windows
        invariant
            needle.len() <= haystack.len(),
            windows == haystack.len() - needle.len() + 1,
            at <= windows,
            forall|below: int| 0 <= below < at ==> !window_at(haystack@, needle@, below),
        decreases windows - at,
    {
        if matches_at(haystack, needle, at) {
            proof {
                lemma_locate(haystack@, needle@);
            }
            return Some(at);
        }
        at += 1;
    }
    None
}

/// Looks the field that holds `value` up in `haystack`: located at the
/// lowest offset at which the encoding of `value` stands, missing where it
/// stands nowhere.
pub fn find_field(haystack: &[u8], value: u32) -> (found: Lookup)
    ensures
        found == lookup(haystack@, le_bytes(value)),
{
    let needle = encode(value);
    match find_seq(haystack, needle.as_slice()) {
        Some(at) => Lookup::Located(at),
        None => Lookup::Missing,
    }
}

} // verus!
