use vstd::prelude::*;

verus! {

/// The pending set's invariant: labels are pairwise distinct.
pub open spec fn unique_labels(labels: Seq<Seq<char>>) -> bool {
    forall|i: int, j: int| 0 <= i < j < labels.len() ==> labels[i] != labels[j]
}

/// What retiring a label leaves behind: every other label, in order.
pub open spec fn spec_retire(pending: Seq<Seq<char>>, label: Seq<char>) -> Seq<Seq<char>> {
    pending.filter(|l: Seq<char>| l != label)
}

/// Remove every occurrence of `label` from the pending list, keeping the
/// remaining labels in their original order.  After the call the retired
/// label is no longer pending and all other members are unchanged.
pub fn retire_label(pending: &mut Vec<String>, label: &String)
    ensures
        final(pending).deep_view() == spec_retire(old(pending).deep_view(), label@),
{
    let mut out: Vec<String> = Vec::new();
    let mut k: usize = 0;
    while k < pending.len()
        invariant
            k <= pending@.len(),
            out.deep_view() =~= old(pending).deep_view().take(k as int).filter(
                |l: Seq<char>| l != label@,
            ),
            pending == old(pending),
        decreases pending@.len() - k,
    {
        let ghost prefix = old(pending).deep_view().take(k as int);
        let ghost next = old(pending).deep_view().take(k as int + 1);
        proof {
            assert(next.drop_last() =~= prefix);
            assert(next.last() == old(pending).deep_view()[k as int]);
            reveal(Seq::filter);
        }
        if !label.eq(&pending[k]) {
            out.push(pending[k].clone());
        }
        k = k + 1;
    }
    proof {
        assert(old(pending).deep_view().take(pending@.len() as int) =~= old(
            pending,
        ).deep_view());
    }
    *pending = out;
}

/// Retiring a pending label never leaves it behind, and keeps exactly the
/// labels that differ from it: membership of every other label is unchanged.
pub proof fn lemma_retire_membership(pending: Seq<Seq<char>>, label: Seq<char>)
    ensures
        !spec_retire(pending, label).contains(label),
        forall|l: Seq<char>|
            l != label ==> (#[trigger] spec_retire(pending, label).contains(l)
                <==> pending.contains(l)),
        unique_labels(pending) ==> unique_labels(spec_retire(pending, label)),
        !pending.contains(label) ==> spec_retire(pending, label) == pending,
        unique_labels(pending) && pending.contains(label) ==> spec_retire(
            pending,
            label,
        ).len() == pending.len() - 1,
    decreases pending.len(),
{
    reveal(Seq::filter);
    let out = spec_retire(pending, label);
    if pending.len() == 0 {
        assert(forall|l: Seq<char>| !out.contains(l)) by {
            assert(out.len() == 0);
        }
    } else {
        let prefix = pending.drop_last();
        let x = pending.last();
        lemma_retire_membership(prefix, label);
        let sub = spec_retire(prefix, label);
        assert(unique_labels(pending) ==> unique_labels(prefix));
        assert(unique_labels(pending) ==> !prefix.contains(x)) by {
            if unique_labels(pending) && prefix.contains(x) {
                let i = choose|i: int| 0 <= i < prefix.len() && prefix[i] == x;
                assert(pending[i] == pending[pending.len() - 1]);
            }
        }
        if x != label {
            assert(out =~= sub.push(x));
            assert(!out.contains(label)) by {
                if out.contains(label) {
                    let i = choose|i: int| 0 <= i < out.len() && out[i] == label;
                    if i < sub.len() {
                        assert(sub.contains(label));
                    }
                }
            }
            assert forall|l: Seq<char>| l != label implies (#[trigger] out.contains(l)
                <==> pending.contains(l)) by {
                if out.contains(l) {
                    let i = choose|i: int| 0 <= i < out.len() && out[i] == l;
                    if i < sub.len() {
                        assert(sub.contains(l));
                        assert(prefix.contains(l));
                        let j = choose|j: int| 0 <= j < prefix.len() && prefix[j] == l;
                        assert(pending[j] == l);
                    } else {
                        assert(pending[pending.len() - 1] == l);
                    }
                }
                if pending.contains(l) {
                    let i = choose|i: int| 0 <= i < pending.len() && pending[i] == l;
                    if i < prefix.len() {
                        assert(prefix[i] == l);
                        assert(prefix.contains(l));
                        assert(sub.contains(l));
                        let j = choose|j: int| 0 <= j < sub.len() && sub[j] == l;
                        assert(out[j] == l);
                    } else {
                        assert(out[out.len() - 1] == l);
                    }
                }
            }
            assert(unique_labels(pending) ==> unique_labels(out)) by {
                if unique_labels(pending) {
                    assert(!sub.contains(x));
                    assert forall|i: int, j: int| 0 <= i < j < out.len() implies out[i]
                        != out[j] by {
                        if j < sub.len() {
                        } else {
                            assert(out[j] == x);
                            assert(sub.contains(out[i]));
                        }
                    }
                }
            }
            if unique_labels(pending) && pending.contains(label) {
                assert(prefix.contains(label)) by {
                    let i = choose|i: int| 0 <= i < pending.len() && pending[i] == label;
                    assert(i < prefix.len());
                    assert(prefix[i] == label);
                }
                assert(sub.len() == prefix.len() - 1);
                assert(out.len() == pending.len() - 1);
            }
            if !pending.contains(label) {
                assert(!prefix.contains(label)) by {
                    if prefix.contains(label) {
                        let i = choose|i: int| 0 <= i < prefix.len() && prefix[i] == label;
                        assert(pending[i] == label);
                    }
                }
                assert(sub == prefix);
                assert(out =~= pending);
            }
        } else {
            assert(out =~= sub);
            assert(pending.contains(label)) by {
                assert(pending[pending.len() - 1] == label);
            }
            assert(unique_labels(pending) ==> !prefix.contains(label));
            if unique_labels(pending) {
                assert(sub == prefix);
                assert(out.len() == pending.len() - 1);
            }
            assert forall|l: Seq<char>| l != label implies (#[trigger] out.contains(l)
                <==> pending.contains(l)) by {
                if pending.contains(l) {
                    let i = choose|i: int| 0 <= i < pending.len() && pending[i] == l;
                    assert(i < prefix.len());
                    assert(prefix[i] == l);
                    assert(prefix.contains(l));
                }
                if prefix.contains(l) {
                    let i = choose|i: int| 0 <= i < prefix.len() && prefix[i] == l;
                    assert(pending[i] == l);
                }
            }
        }
    }
}

} // verus!
