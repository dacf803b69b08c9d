//! Capability negotiation: pure selection of a mutually supported
//! encoding and (optionally) compression from peer-ordered candidates.
//!
//! The peer's preference order decides: the first candidate that the
//! local registry recognizes wins, whatever order the registry lists
//! its own names in. Names are matched case-sensitively.

use crate::errors::LoquiError;
use vstd::prelude::*;

verus! {

/// Whether the registry `items` holds `name`.
pub open spec fn seq_contains(items: Seq<Seq<char>>, name: Seq<char>) -> bool {
    exists|i: int| 0 <= i < items.len() && items[i] == name
}

/// The first candidate, in the order the peer supplied them, that the
/// local registry recognizes; `None` when no candidate is recognized.
pub open spec fn first_supported(candidates: Seq<Seq<char>>, supported: Seq<Seq<char>>) -> Option<
    Seq<char>,
>
    decreases candidates.len(),
{
    if candidates.len() == 0 {
        None
    } else if seq_contains(supported, candidates[0]) {
        Some(candidates[0])
    } else {
        first_supported(candidates.skip(1), supported)
    }
}

/// Whether the local registry recognizes `name`.
fn is_supported(name: &String, supported: &Vec<String>) -> (r: bool)
    ensures
        r == seq_contains(supported.deep_view(), name@),
{
    let ghost sup = supported.deep_view();
    let mut i: usize = 0;
    while i < supported.len()
        invariant
            i <= supported.len(),
            sup == supported.deep_view(),
            forall|j: int| 0 <= j < i ==> sup[j] != name@,
        decreases supported.len() - i,
    {
        if supported[i].eq(name) {
            proof {
                assert(sup[i as int] == name@);
            }
            return true;
        }
        i = i + 1;
    }
    proof {
        assert forall|j: int| 0 <= j < sup.len() implies sup[j] != name@ by {}
    }
    false
}

/// The first locally recognized candidate, cloned out of the candidate
/// list; `None` when no candidate is recognized.
fn find_first_supported(candidates: &Vec<String>, supported: &Vec<String>) -> (r: Option<String>)
    ensures
        r matches Some(chosen) ==> first_supported(candidates.deep_view(), supported.deep_view())
            == Some(chosen@),
        r is None ==> first_supported(candidates.deep_view(), supported.deep_view()) is None,
{
    let ghost cs = candidates.deep_view();
    let ghost sup = supported.deep_view();
    proof {
        assert(cs.skip(0) =~= cs);
    }
    let mut idx: usize = 0;
    while idx < candidates.len()
        invariant
            idx <= candidates.len(),
            cs == candidates.deep_view(),
            sup == supported.deep_view(),
            first_supported(cs, sup) == first_supported(cs.skip(idx as int), sup),
        decreases candidates.len() - idx,
    {
        proof {
            assert(cs.skip(idx as int).len() == cs.len() - idx);
            assert(cs.skip(idx as int)[0] == cs[idx as int]);
            assert(cs[idx as int] == candidates[idx as int]@);
        }
        if is_supported(&candidates[idx], supported) {
            proof {
                assert(first_supported(cs.skip(idx as int), sup) == Some(cs[idx as int]));
            }
            return Some(candidates[idx].clone());
        }
        proof {
            assert(cs.skip(idx as int).skip(1) =~= cs.skip(idx as int + 1));
        }
        idx = idx + 1;
    }
    proof {
        assert(cs.skip(idx as int).len() == 0);
        assert(first_supported(cs.skip(idx as int), sup) is None);
    }
    None
}

/// Selects the encoding for the connection: the first candidate, in the
/// peer's preference order, that the local registry recognizes. An empty
/// or entirely unrecognized candidate list fails with `NoCommonEncoding`.
pub fn negotiate_encoding(candidates: &Vec<String>, supported: &Vec<String>) -> (r: Result<
    String,
    LoquiError,
>)
    ensures
        r matches Ok(encoding) ==> first_supported(
            candidates.deep_view(),
            supported.deep_view(),
        ) == Some(encoding@),
        r matches Err(e) ==> first_supported(candidates.deep_view(), supported.deep_view())
            is None && e == LoquiError::NoCommonEncoding,
        r is Ok <==> first_supported(candidates.deep_view(), supported.deep_view()) is Some,
{
    match find_first_supported(candidates, supported) {
        Some(encoding) => Ok(encoding),
        None => Err(LoquiError::NoCommonEncoding),
    }
}

/// Selects the optional compression for the connection. An empty
/// candidate list is a valid "no compression requested" and yields
/// `None`; a non-empty list none of whose entries is recognized fails
/// with `NoCommonCompression`.
pub fn negotiate_compression(candidates: &Vec<String>, supported: &Vec<String>) -> (r: Result<
    Option<String>,
    LoquiError,
>)
    ensures
        candidates@.len() == 0 ==> (r matches Ok(c) && c is None),
        r matches Ok(Some(compression)) ==> candidates@.len() > 0 && first_supported(
            candidates.deep_view(),
            supported.deep_view(),
        ) == Some(compression@),
        r matches Ok(None) ==> candidates@.len() == 0,
        r matches Err(e) ==> candidates@.len() > 0 && first_supported(
            candidates.deep_view(),
            supported.deep_view(),
        ) is None && e == LoquiError::NoCommonCompression,
        candidates@.len() > 0 ==> (r is Ok <==> first_supported(
            candidates.deep_view(),
            supported.deep_view(),
        ) is Some),
{
    if candidates.len() == 0 {
        return Ok(None);
    }
    match find_first_supported(candidates, supported) {
        Some(compression) => Ok(Some(compression)),
        None => Err(LoquiError::NoCommonCompression),
    }
}

/// The selection is exactly "first match in peer order": a chosen name
/// is a recognized candidate all of whose predecessors are unrecognized,
/// and no choice means no candidate is recognized at all.
pub proof fn lemma_first_supported_characterization(
    candidates: Seq<Seq<char>>,
    supported: Seq<Seq<char>>,
)
    ensures
        first_supported(candidates, supported) matches Some(chosen) ==> exists|i: int|
            0 <= i < candidates.len() && candidates[i] == chosen && seq_contains(
                supported,
                candidates[i],
            ) && (forall|j: int| 0 <= j < i ==> !seq_contains(supported, candidates[j])),
        first_supported(candidates, supported) is None ==> forall|i: int|
            0 <= i < candidates.len() ==> !seq_contains(supported, candidates[i]),
    decreases candidates.len(),
{
    if candidates.len() == 0 {
    } else if seq_contains(supported, candidates[0]) {
        assert(0 <= 0 < candidates.len() && candidates[0] == candidates[0] && seq_contains(
            supported,
            candidates[0],
        ) && (forall|j: int| 0 <= j < 0 ==> !seq_contains(supported, candidates[j])));
    } else {
        let rest = candidates.skip(1);
        lemma_first_supported_characterization(rest, supported);
        assert(forall|k: int| 0 <= k < rest.len() ==> rest[k] == candidates[k + 1]);
        match first_supported(candidates, supported) {
            Some(chosen) => {
                let i = choose|i: int|
                    0 <= i < rest.len() && rest[i] == chosen && seq_contains(supported, rest[i])
                        && (forall|j: int| 0 <= j < i ==> !seq_contains(supported, rest[j]));
                assert(candidates[i + 1] == chosen);
                assert forall|j: int| 0 <= j < i + 1 implies !seq_contains(
                    supported,
                    candidates[j],
                ) by {
                    if j > 0 {
                        assert(candidates[j] == rest[j - 1]);
                    }
                }
            },
            None => {
                assert forall|i: int| 0 <= i < candidates.len() implies !seq_contains(
                    supported,
                    candidates[i],
                ) by {
                    if i > 0 {
                        assert(candidates[i] == rest[i - 1]);
                    }
                }
            },
        }
    }
}

/// A candidate list holding exactly one locally supported name selects
/// that name.
pub proof fn lemma_singleton_candidate(name: Seq<char>, supported: Seq<Seq<char>>)
    requires
        seq_contains(supported, name),
    ensures
        first_supported(seq![name], supported) == Some(name),
{
    assert(seq![name][0] == name);
}

/// Peer preference order decides: when the peer lists two locally
/// supported names, the one it lists first is selected, whatever order
/// the local registry holds them in.
pub proof fn lemma_peer_preference(first: Seq<char>, second: Seq<char>, supported: Seq<Seq<char>>)
    requires
        seq_contains(supported, first),
        seq_contains(supported, second),
    ensures
        first_supported(seq![first, second], supported) == Some(first),
{
    assert(seq![first, second][0] == first);
}

/// Negotiation has no hidden state: the selection is a function of the
/// candidate list and the local registry alone, so repeating it with
/// the same inputs always yields the same result.
pub proof fn lemma_negotiation_idempotent(
    candidates: Seq<Seq<char>>,
    supported: Seq<Seq<char>>,
    r1: Option<Seq<char>>,
    r2: Option<Seq<char>>,
)
    requires
        r1 == first_supported(candidates, supported),
        r2 == first_supported(candidates, supported),
    ensures
        r1 == r2,
{
}

} // verus!
