//! The set of validators that one engine simulates.
//!
//! The ids are kept in ascending order, so that no id is held twice and a
//! set is walked in the same order wherever it was made.
use vstd::prelude::*;
use crate::slot_generator::ValId;

verus! {

/// The ids stand in strictly ascending order.
pub open spec fn ascending(ids: Seq<ValId>) -> bool {
    forall|i: int, j: int| 0 <= i < j < ids.len() ==> ids[i].0 < ids[j].0
}

/// The ids from `start` up to, and without, `end`, in ascending order.
pub open spec fn range_ids(start: u64, end: u64) -> Seq<ValId> {
    Seq::new(
        if start <= end {
            (end - start) as nat
        } else {
            0nat
        },
        |i: int| ValId((start + i) as u64),
    )
}

/// Ids in ascending order hold no id twice.
pub proof fn lemma_ascending_no_duplicates(ids: Seq<ValId>)
    requires
        ascending(ids),
    ensures
        ids.no_duplicates(),
{
    assert forall|i: int, j: int| 0 <= i < ids.len() && 0 <= j < ids.len() && i != j implies ids[i]
        != ids[j] by {
        if i < j {
            assert(ids[i].0 < ids[j].0);
        } else {
            assert(ids[j].0 < ids[i].0);
        }
    }
}

/// A set of validator ids.
#[derive(Debug)]
pub struct ValidatorSet {
    ids: Vec<ValId>,
}

impl View for ValidatorSet {
    type V = Seq<ValId>;

    /// The ids held, in ascending order.
    closed spec fn view(&self) -> Seq<ValId> {
        self.ids@
    }
}

impl ValidatorSet {
    /// What holds of every set: its ids stand in ascending order.
    #[verifier::type_invariant]
    pub open spec fn in_order(&self) -> bool {
        ascending(self@)
    }

    /// The empty set.
    pub fn new() -> (set: Self)
        ensures
            set@ == Seq::<ValId>::empty(),
    {
        ValidatorSet { ids: Vec::new() }
    }

    /// The ids from `start` up to, and without, `end`.
    pub fn from_range(start: u64, end: u64) -> (set: Self)
        ensures
            set@ == range_ids(start, end),
    {
        let mut ids: Vec<ValId> = Vec::new();
        let mut next: u64 = start;
        while next < end
            invariant
                start <= next,
                start <= end ==> next <= end,
                start > end ==> next == start,
                ids@ == range_ids(start, next),
            decreases end - next,
        {
            ids.push(ValId(next));
            assert(range_ids(start, (next + 1) as u64) =~= range_ids(start, next).push(
                ValId(next),
            ));
            next += 1;
        }
        assert(ids@ =~= range_ids(start, end));
        ValidatorSet { ids }
    }

    /// The set of the given ids, where they stand in strictly ascending
    /// order; `None` where they do not.
    pub fn from_sorted(ids: Vec<ValId>) -> (set: Option<Self>)
        ensures
            set is Some <==> ascending(ids@),
            set is Some ==> set->Some_0@ == ids@,
    {
        let mut i: usize = 1;
        while i < ids.len()
            invariant
                1 <= i,
                forall|a: int, b: int|
                    0 <= a < b < i && b < ids@.len() ==> (#[trigger] ids@[a]).0 < (
                    #[trigger] ids@[b]).0,
            decreases ids.len() - i,
        {
            if ids[i - 1].0 >= ids[i].0 {
                assert(!ascending(ids@)) by {
                    if ascending(ids@) {
                        assert(ids@[i - 1].0 < ids@[i as int].0);
                    }
                }
                return None;
            }
            assert forall|a: int, b: int| 0 <= a < b < i + 1 && b < ids@.len() implies (
            #[trigger] ids@[a]).0 < (#[trigger] ids@[b]).0 by {
                if b == i && a < i - 1 {
                    assert(ids@[a].0 < ids@[i - 1].0);
                }
            }
            i += 1;
        }
        assert(ascending(ids@));
        Some(ValidatorSet { ids })
    }

    /// The ids held, in ascending order.
    pub fn ids(&self) -> (ids: &Vec<ValId>)
        ensures
            ids@ == self@,
            ascending(self@),
    {
        proof {
            use_type_invariant(self);
        }
        &self.ids
    }

    /// Number of ids held.
    pub fn len(&self) -> (n: usize)
        ensures
            n == self@.len(),
    {
        self.ids.len()
    }

    /// Whether no id is held.
    pub fn is_empty(&self) -> (empty: bool)
        ensures
            empty == (self@.len() == 0),
    {
        self.ids.len() == 0
    }

    /// Whether `id` is held.
    pub fn contains(&self, id: ValId) -> (found: bool)
        ensures
            found == self@.contains(id),
    {
        proof {
            use_type_invariant(self);
        }
        let mut lo: usize = 0;
        let mut hi: usize = self.ids.len();
        while lo < hi
            invariant
                lo <= hi <= self.ids.len(),
                ascending(self.ids@),
                forall|i: int| 0 <= i < lo ==> (#[trigger] self.ids@[i]).0 < id.0,
                forall|i: int| hi <= i < self.ids.len() ==> (#[trigger] self.ids@[i]).0 > id.0,
            decreases hi - lo,
        {
            let mid: usize = lo + (hi - lo) / 2;
            let at: u64 = self.ids[mid].0;
            if at == id.0 {
                assert(self.ids@[mid as int] == id);
                return true;
            }
            if at < id.0 {
                assert forall|i: int| 0 <= i < mid + 1 implies (#[trigger] self.ids@[i]).0
                    < id.0 by {
                    if i < mid {
                        assert(self.ids@[i].0 < self.ids@[mid as int].0);
                    }
                }
                lo = mid + 1;
            } else {
                assert forall|i: int| mid <= i < self.ids.len() implies (#[trigger] self.ids@[i]).0
                    > id.0 by {
                    if mid < i {
                        assert(self.ids@[mid as int].0 < self.ids@[i].0);
                    }
                }
                hi = mid;
            }
        }
        assert(!self.ids@.contains(id)) by {
            if self.ids@.contains(id) {
                let i = choose|i: int| 0 <= i < self.ids@.len() && self.ids@[i] == id;
                assert(self.ids@[i].0 == id.0);
            }
        }
        false
    }
}

} // verus!
