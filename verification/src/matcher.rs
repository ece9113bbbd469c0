use vstd::prelude::*;
use crate::disk::Disk;

verus! {

/// Is `l` one of the still-pending labels?
pub open spec fn is_pending(pending: Seq<Seq<char>>, l: Seq<char>) -> bool {
    pending.contains(l)
}

/// Does some disk of the snapshot carry a pending label?
pub open spec fn snapshot_matches(snap: Seq<Disk>, pending: Seq<Seq<char>>) -> bool {
    exists|i: int| 0 <= i < snap.len() && is_pending(pending, snap[i].label@)
}

/// Is `i` the first position of the snapshot whose label is pending?
pub open spec fn first_match_at(snap: Seq<Disk>, pending: Seq<Seq<char>>, i: int) -> bool {
    &&& 0 <= i < snap.len()
    &&& is_pending(pending, snap[i].label@)
    &&& forall|j: int| 0 <= j < i ==> !is_pending(pending, snap[j].label@)
}

/// The first matching position of a snapshot is unique.
pub proof fn lemma_first_match_unique(snap: Seq<Disk>, pending: Seq<Seq<char>>, i: int, j: int)
    requires
        first_match_at(snap, pending, i),
        first_match_at(snap, pending, j),
    ensures
        i == j,
{
    if i < j {
        assert(!is_pending(pending, snap[i].label@));
    }
    if j < i {
        assert(!is_pending(pending, snap[j].label@));
    }
}

/// Membership test against the pending labels.
pub fn contains_label(pending: &Vec<String>, l: &String) -> (r: bool)
    ensures
        r == is_pending(pending.deep_view(), l@),
{
    let mut k: usize = 0;
    while k < pending.len()
        invariant
            k <= pending@.len(),
            forall|j: int| 0 <= j < k ==> pending.deep_view()[j] != l@,
        decreases pending@.len() - k,
    {
        if l.eq(&pending[k]) {
            assert(pending.deep_view()[k as int] == l@);
            return true;
        }
        k = k + 1;
    }
    assert(forall|j: int|
        0 <= j < pending.deep_view().len() ==> pending.deep_view()[j] != l@);
    false
}

/// The Disk Matcher: the index of the first disk of the snapshot, in
/// enumeration order, whose label is a member of the pending set — never a
/// disk with a non-pending label, and nothing when no disk is pending.
pub fn match_disk(snap: &Vec<Disk>, pending: &Vec<String>) -> (r: Option<usize>)
    ensures
        match r {
            Some(i) => first_match_at(snap@, pending.deep_view(), i as int),
            None => !snapshot_matches(snap@, pending.deep_view()),
        },
{
    let mut k: usize = 0;
    while k < snap.len()
        invariant
            k <= snap@.len(),
            forall|j: int| 0 <= j < k ==> !is_pending(pending.deep_view(), snap@[j].label@),
        decreases snap@.len() - k,
    {
        if contains_label(pending, &snap[k].label) {
            return Some(k);
        }
        k = k + 1;
    }
    None
}

} // verus!
