use vstd::prelude::*;

use crate::schema::StructInfo;
use crate::typestate::{creation_pattern, Marker, Pattern};

verus! {

/// Whether a slot admits a field that is set (`true`) or unset (`false`).
pub open spec fn slot_accepts(m: Option<Marker>, set: bool) -> bool {
    match m {
        Some(Marker::Unset) => !set,
        Some(Marker::Filled) => set,
        _ => true,
    }
}

/// Whether an impl on pattern `p` applies to a builder in state `s`, where
/// `s[i]` tells whether field `i` is set.
pub open spec fn accepts(p: Seq<Option<Marker>>, s: Seq<bool>) -> bool {
    &&& p.len() == s.len()
    &&& forall|i: int| 0 <= i < p.len() ==> slot_accepts(#[trigger] p[i], s[i])
}

/// Whether a field is set in a builder returned with slot `m`, having been `set` before.
pub open spec fn slot_after(m: Option<Marker>, set: bool) -> bool {
    match m {
        Some(Marker::Unset) => false,
        Some(Marker::Filled) => true,
        _ => set,
    }
}

/// The state of a builder returned with pattern `p` from one in state `s`:
/// generic slots carry their field's state over.
pub open spec fn advance(p: Seq<Option<Marker>>, s: Seq<bool>) -> Seq<bool> {
    Seq::new(s.len(), |i: int| slot_after(p[i], s[i]))
}

/// The states a builder of `info` can be in: only fields of the builder's
/// state can be set, and mutator-only fields always are.
pub open spec fn state_of(info: StructInfo, s: Seq<bool>) -> bool {
    &&& s.len() == info.fields@.len()
    &&& forall|i: int| 0 <= i < s.len() ==> {
        &&& (!(#[trigger] info.field(i)).included() ==> !s[i])
        &&& (info.field(i).included() && info.field(i).builder_attr.via_mutators ==> s[i])
    }
}

/// The state the entry point starts a builder in.
pub open spec fn initial_state(info: StructInfo) -> Seq<bool> {
    advance(creation_pattern(info), Seq::new(info.fields@.len(), |i: int| false))
}

/// Whether an impl on pattern `p` applies to a builder in state `s`.
pub fn pattern_accepts(p: &Pattern, s: &Vec<bool>) -> (r: bool)
    ensures
        r == accepts(p@, s@),
{
    if p.len() != s.len() {
        return false;
    }
    let mut i: usize = 0;
    while i < p.len()
        invariant
            p@.len() == s@.len(),
            i <= p@.len(),
            forall|j: int| 0 <= j < i ==> slot_accepts(#[trigger] p@[j], s@[j]),
        decreases p@.len() - i,
    {
        let ok = match p[i] {
            Some(Marker::Unset) => !s[i],
            Some(Marker::Filled) => s[i],
            _ => true,
        };
        if !ok {
            return false;
        }
        i += 1;
    }
    true
}

/// The state of a builder returned with pattern `p` from one in state `s`.
pub fn advance_state(p: &Pattern, s: &Vec<bool>) -> (r: Vec<bool>)
    requires
        p@.len() == s@.len(),
    ensures
        r@ == advance(p@, s@),
{
    let mut r: Vec<bool> = Vec::new();
    let mut i: usize = 0;
    while i < s.len()
        invariant
            p@.len() == s@.len(),
            i <= s@.len(),
            r@.len() == i,
            forall|j: int| 0 <= j < i ==> r@[j] == slot_after(p@[j], s@[j]),
        decreases s@.len() - i,
    {
        let set = match p[i] {
            Some(Marker::Unset) => false,
            Some(Marker::Filled) => true,
            _ => s[i],
        };
        r.push(set);
        i += 1;
    }
    assert(r@ =~= advance(p@, s@));
    r
}

} // verus!
