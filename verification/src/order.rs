//! Putting identifiers in ascending order.

use vstd::prelude::*;

verus! {

/// Whether each element is smaller than the one after it.
pub open spec fn strictly_ascending(ids: Seq<u32>) -> bool {
    forall|i: int, j: int| 0 <= i < j < ids.len() ==> ids[i] < ids[j]
}

/// The place at which `id` belongs in an ascending sequence: the number of
/// elements smaller than it.
fn place_of(sorted: &Vec<u32>, id: u32) -> (at: usize)
    requires
        strictly_ascending(sorted@),
    ensures
        at <= sorted@.len(),
        forall|i: int| 0 <= i < at ==> sorted@[i] < id,
        forall|i: int| at <= i < sorted@.len() ==> sorted@[i] >= id,
{
    let mut at: usize = 0;
    while at < sorted.len() && sorted[at] < id
        invariant
            at <= sorted@.len(),
            strictly_ascending(sorted@),
            forall|i: int| 0 <= i < at ==> sorted@[i] < id,
        decreases sorted@.len() - at,
    {
        at += 1;
    }
    at
}

/// The same identifiers in ascending order.
///
/// There is one such sequence and no other: the result holds exactly the
/// identifiers given, each once, smallest first.
pub fn ascending(ids: &Vec<u32>) -> (sorted: Vec<u32>)
    requires
        ids@.no_duplicates(),
    ensures
        strictly_ascending(sorted@),
        sorted@.len() == ids@.len(),
        forall|id: u32| sorted@.contains(id) <==> ids@.contains(id),
{
    let mut sorted: Vec<u32> = Vec::new();
    let mut done: usize = 0;
    while done < ids.len()
        invariant
            done <= ids@.len(),
            ids@.no_duplicates(),
            strictly_ascending(sorted@),
            sorted@.len() == done,
            forall|id: u32| sorted@.contains(id) <==> ids@.take(done as int).contains(id),
        decreases ids@.len() - done,
    {
        let id = ids[done];
        let ghost before = sorted@;
        let at = place_of(&sorted, id);
        proof {
            assert(!before.contains(id)) by {
                if before.contains(id) {
                    let k = choose|k: int| 0 <= k < done && ids@.take(done as int)[k] == id;
                    assert(ids@[k] == ids@[done as int]);
                }
            }
            assert(forall|i: int| at <= i < before.len() ==> before[i] > id) by {
                assert forall|i: int| at <= i < before.len() implies before[i] > id by {
                    assert(before.contains(before[i]));
                }
            }
        }
        sorted.insert(at, id);
        proof {
            let after = sorted@;
            assert(after == before.insert(at as int, id));
            assert forall|i: int, j: int| 0 <= i < j < after.len() implies after[i] < after[j] by {
                if i < at && j > at {
                    assert(after[i] == before[i]);
                    assert(after[j] == before[j - 1]);
                } else if i < at && j < at {
                    assert(after[i] == before[i] && after[j] == before[j]);
                } else if i > at {
                    assert(after[i] == before[i - 1] && after[j] == before[j - 1]);
                } else if i == at {
                    assert(after[j] == before[j - 1]);
                } else {
                    assert(j == at);
                    assert(after[i] == before[i]);
                }
            }
            assert forall|x: u32| after.contains(x) <==> ids@.take(done + 1).contains(x) by {
                let longer = ids@.take(done + 1);
                let shorter = ids@.take(done as int);
                if after.contains(x) {
                    let k = choose|k: int| 0 <= k < after.len() && after[k] == x;
                    if k == at {
                        assert(longer[done as int] == x);
                    } else {
                        let b = if k < at { k } else { k - 1 };
                        assert(before[b] == x);
                        assert(before.contains(x));
                        let m = choose|m: int| 0 <= m < shorter.len() && shorter[m] == x;
                        assert(longer[m] == x);
                    }
                }
                if longer.contains(x) {
                    let m = choose|m: int| 0 <= m < longer.len() && longer[m] == x;
                    if m == done {
                        assert(after[at as int] == x);
                    } else {
                        assert(shorter[m] == x);
                        assert(shorter.contains(x));
                        assert(before.contains(x));
                        let b = choose|b: int| 0 <= b < before.len() && before[b] == x;
                        let k = if b < at { b } else { b + 1 };
                        assert(after[k] == x);
                    }
                }
            }
        }
        done += 1;
    }
    assert(ids@.take(done as int) =~= ids@);
    sorted
}

/// Two ascending sequences that hold the same identifiers are one sequence.
pub proof fn lemma_ascending_is_unique(a: Seq<u32>, b: Seq<u32>)
    requires
        strictly_ascending(a),
        strictly_ascending(b),
        forall|id: u32| a.contains(id) <==> b.contains(id),
    ensures
        a == b,
    decreases a.len(),
{
    if a.len() == 0 {
        if b.len() > 0 {
            assert(b.contains(b[0]));
        }
        assert(a =~= b);
    } else if b.len() == 0 {
        assert(a.contains(a[0]));
    } else {
        assert(a.contains(a[0]));
        assert(b.contains(b[0]));
        let i = choose|i: int| 0 <= i < b.len() && b[i] == a[0];
        let j = choose|j: int| 0 <= j < a.len() && a[j] == b[0];
        assert(a[0] == b[0]);
        let a1 = a.skip(1);
        let b1 = b.skip(1);
        assert forall|id: u32| a1.contains(id) <==> b1.contains(id) by {
            if a1.contains(id) {
                let k = choose|k: int| 0 <= k < a1.len() && a1[k] == id;
                assert(a[k + 1] == id);
                assert(a.contains(id));
                let m = choose|m: int| 0 <= m < b.len() && b[m] == id;
                assert(m != 0);
                assert(b1[m - 1] == id);
            }
            if b1.contains(id) {
                let k = choose|k: int| 0 <= k < b1.len() && b1[k] == id;
                assert(b[k + 1] == id);
                assert(b.contains(id));
                let m = choose|m: int| 0 <= m < a.len() && a[m] == id;
                assert(m != 0);
                assert(a1[m - 1] == id);
            }
        }
        lemma_ascending_is_unique(a1, b1);
        assert(a =~= seq![a[0]] + a1);
        assert(b =~= seq![b[0]] + b1);
    }
}

} // verus!
