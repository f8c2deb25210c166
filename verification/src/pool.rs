//! The pool of sandbox ids: each sandbox is used by one job at a time, and
//! ids are handed out in the order they were given back.

use vstd::prelude::*;
use std::collections::VecDeque;
use crate::errors::AppError;

verus! {

/// The ids `1..=n`, in ascending order.
pub open spec fn first_ids(n: nat) -> Seq<u32> {
    Seq::new(n, |i: int| (i + 1) as u32)
}

/// The ids `1..=n` as a set.
pub open spec fn id_range(n: u32) -> Set<u32> {
    Set::new(|x: u32| 1 <= x <= n)
}

/// The free sandbox ids, oldest first, how many the pool holds in all, and
/// the ids handed out and not yet given back.
pub struct SandboxPool {
    free: VecDeque<u32>,
    capacity: u32,
    issued: Ghost<Set<u32>>,
}

impl SandboxPool {
    /// The free ids, oldest first.
    pub closed spec fn free_ids(self) -> Seq<u32> {
        self.free@
    }

    /// How many ids the pool holds in all.
    pub closed spec fn spec_capacity(self) -> u32 {
        self.capacity
    }

    /// The ids handed out and not yet given back: the boxes in use.
    pub closed spec fn issued_ids(self) -> Set<u32> {
        self.issued@
    }

    /// Each of the ids `1..=capacity` is either free, once, or in use, and
    /// never both; no other id is in the pool.
    pub open spec fn wf(self) -> bool {
        let free = self.free_ids();
        let issued = self.issued_ids();
        &&& free.no_duplicates()
        &&& issued.finite()
        &&& free.len() + issued.len() == self.spec_capacity()
        &&& forall|i: int| 0 <= i < free.len() ==> id_range(self.spec_capacity()).contains(#[trigger] free[i])
        &&& issued.subset_of(id_range(self.spec_capacity()))
        &&& forall|x: u32| #[trigger] issued.contains(x) ==> !free.contains(x)
        &&& forall|x: u32|
            #[trigger] id_range(self.spec_capacity()).contains(x) ==> free.contains(x)
                || issued.contains(x)
    }

    /// A pool of the ids `1..=max_sandboxes`, all free. A pool holds at
    /// least one id.
    pub fn new(max_sandboxes: u32) -> (r: Self)
        requires
            max_sandboxes >= 1,
        ensures
            r.wf(),
            r.spec_capacity() == max_sandboxes,
            r.free_ids() == first_ids(max_sandboxes as nat),
            r.issued_ids() == Set::<u32>::empty(),
    {
        let mut free: VecDeque<u32> = VecDeque::new();
        let mut count: u32 = 0;
        while count < max_sandboxes
            invariant
                count <= max_sandboxes,
                free@ == first_ids(count as nat),
            decreases max_sandboxes - count,
        {
            free.push_back(count + 1);
            count = count + 1;
            assert(free@ =~= first_ids(count as nat));
        }
        assert(free@ =~= first_ids(max_sandboxes as nat));
        let r = SandboxPool { free, capacity: max_sandboxes, issued: Ghost(Set::empty()) };
        assert(r.free_ids().no_duplicates());
        assert forall|x: u32| #[trigger] id_range(max_sandboxes).contains(x) implies r.free_ids().contains(x) by {
            assert(r.free_ids()[x - 1] == x);
        }
        r
    }

    /// How many ids are free.
    pub fn available(&self) -> (r: usize)
        ensures
            r == self.free_ids().len(),
    {
        self.free.len()
    }

    /// Whether box `id` is in use: handed out and not given back.
    pub fn in_use(&self, id: u32) -> (r: bool)
        requires
            self.wf(),
        ensures
            r == self.issued_ids().contains(id),
    {
        if id < 1 || id > self.capacity {
            return false;
        }
        let n = self.free.len();
        let mut i: usize = 0;
        while i < n
            invariant
                self.wf(),
                n == self.free@.len(),
                i <= n,
                forall|j: int| 0 <= j < i ==> self.free@[j] != id,
            decreases n - i,
        {
            if self.free[i] == id {
                assert(self.free_ids()[i as int] == id);
                assert(self.free_ids().contains(id));
                assert(!self.issued_ids().contains(id)) by {
                    if self.issued_ids().contains(id) {
                        assert(!self.free_ids().contains(id));
                    }
                }
                return false;
            }
            i = i + 1;
        }
        assert(!self.free_ids().contains(id));
        assert(id_range(self.capacity).contains(id));
        assert(self.free_ids().contains(id) || self.issued_ids().contains(id));
        true
    }

    /// Takes the oldest free id, if any; it is then in use.
    pub fn take(&mut self) -> (r: Option<u32>)
        requires
            old(self).wf(),
        ensures
            final(self).wf(),
            final(self).spec_capacity() == old(self).spec_capacity(),
            old(self).free_ids().len() == 0 ==> r is None && final(self).free_ids() == old(
                self,
            ).free_ids() && final(self).issued_ids() == old(self).issued_ids(),
            old(self).free_ids().len() > 0 ==> r == Some(old(self).free_ids()[0])
                && final(self).free_ids() == old(self).free_ids().drop_first()
                && final(self).issued_ids() == old(self).issued_ids().insert(old(self).free_ids()[0]),
    {
        let r = self.free.pop_front();
        proof {
            if old(self).free@.len() > 0 {
                let id = old(self).free@[0];
                assert(self.free@ =~= old(self).free@.drop_first());
                assert(!old(self).issued@.contains(id));
                self.issued = Ghost(old(self).issued@.insert(id));
                assert forall|x: u32| #[trigger] self.issued@.contains(x) implies !self.free@.contains(x) by {
                    if x == id {
                        if self.free@.contains(x) {
                            let k = choose|k: int| 0 <= k < self.free@.len() && self.free@[k] == x;
                            assert(old(self).free@[k + 1] == x);
                        }
                    } else {
                        if self.free@.contains(x) {
                            let k = choose|k: int| 0 <= k < self.free@.len() && self.free@[k] == x;
                            assert(old(self).free@[k + 1] == x);
                        }
                    }
                }
                assert forall|i: int| 0 <= i < self.free@.len() implies id_range(self.capacity).contains(
                    #[trigger] self.free@[i],
                ) by {
                    assert(self.free@[i] == old(self).free@[i + 1]);
                }
                assert forall|x: u32| #[trigger] id_range(self.capacity).contains(x) implies self.free@.contains(x)
                    || self.issued@.contains(x) by {
                    if x != id && old(self).free@.contains(x) {
                        let k = choose|k: int| 0 <= k < old(self).free@.len() && old(self).free@[k] == x;
                        assert(k != 0);
                        assert(self.free@[k - 1] == x);
                    }
                }
                assert(self.free@.no_duplicates()) by {
                    assert forall|i: int, j: int| 0 <= i < self.free@.len() && 0 <= j < self.free@.len() && i != j implies self.free@[i] != self.free@[j] by {
                        assert(self.free@[i] == old(self).free@[i + 1]);
                        assert(self.free@[j] == old(self).free@[j + 1]);
                    }
                }
            }
        }
        r
    }

    /// Gives a box in use back to the pool; it becomes the newest free id.
    /// The pool always has room for it, so the answer is `true`.
    pub fn give_back(&mut self, id: u32) -> (r: bool)
        requires
            old(self).wf(),
            old(self).issued_ids().contains(id),
        ensures
            r,
            final(self).wf(),
            final(self).spec_capacity() == old(self).spec_capacity(),
            final(self).free_ids() == old(self).free_ids().push(id),
            final(self).issued_ids() == old(self).issued_ids().remove(id),
    {
        proof {
            vstd::set::axiom_set_contains_len(self.issued@, id);
            vstd::set::axiom_set_remove_len(self.issued@, id);
        }
        self.free.push_back(id);
        proof {
            let old_free = old(self).free@;
            self.issued = Ghost(old(self).issued@.remove(id));
            assert(self.free@ == old_free.push(id));
            assert(!old_free.contains(id));
            assert(self.free@.no_duplicates()) by {
                assert forall|i: int, j: int| 0 <= i < self.free@.len() && 0 <= j < self.free@.len() && i != j implies self.free@[i] != self.free@[j] by {
                    if i == old_free.len() as int {
                        assert(old_free[j] != id);
                    } else if j == old_free.len() as int {
                        assert(old_free[i] != id);
                    }
                }
            }
            assert forall|x: u32| #[trigger] self.issued@.contains(x) implies !self.free@.contains(x) by {
                if self.free@.contains(x) {
                    let k = choose|k: int| 0 <= k < self.free@.len() && self.free@[k] == x;
                    if k < old_free.len() {
                        assert(old_free.contains(x));
                    }
                }
            }
            assert forall|i: int| 0 <= i < self.free@.len() implies id_range(self.capacity).contains(
                #[trigger] self.free@[i],
            ) by {
                if i < old_free.len() {
                    assert(self.free@[i] == old_free[i]);
                }
            }
            assert forall|x: u32| #[trigger] id_range(self.capacity).contains(x) implies self.free@.contains(x)
                || self.issued@.contains(x) by {
                if x == id {
                    assert(self.free@[old_free.len() as int] == id);
                } else if old_free.contains(x) {
                    let k = choose|k: int| 0 <= k < old_free.len() && old_free[k] == x;
                    assert(self.free@[k] == x);
                }
            }
        }
        true
    }
}

/// What acquiring sandbox `id` comes to once it was prepared: the sandbox
/// id and directory, or the preparation's error together with the id to give
/// back to the pool.
pub fn acquire_outcome(id: u32, prepared: Result<String, AppError>) -> (r: (
    Result<(u32, String), AppError>,
    Option<u32>,
))
    ensures
        match prepared {
            Ok(path) => r.0 == Ok::<(u32, String), AppError>((id, path)) && r.1 is None,
            Err(e) => r.0 == Err::<(u32, String), AppError>(e) && r.1 == Some(id),
        },
{
    match prepared {
        Ok(path) => (Ok((id, path)), None),
        Err(e) => (Err(e), Some(id)),
    }
}

/// One job per box: the ids of the boxes in use are never free, and the box
/// a take hands out is free and so in use by no one.
pub proof fn law_in_use_never_free(p: SandboxPool, x: u32)
    requires
        p.wf(),
    ensures
        p.issued_ids().contains(x) ==> !p.free_ids().contains(x) && 1 <= x <= p.spec_capacity(),
        p.free_ids().len() > 0 ==> !p.issued_ids().contains(p.free_ids()[0]),
{
    if p.issued_ids().contains(x) {
        assert(id_range(p.spec_capacity()).contains(x));
    }
    if p.free_ids().len() > 0 {
        let y = p.free_ids()[0];
        assert(p.free_ids().contains(y));
    }
}

/// The boxes held at one time stay pairwise distinct: if the ids of the
/// sandboxes held are distinct and are the ids in use, then after a take the
/// held ids with the new one are again distinct and are the ids in use.
pub proof fn law_take_keeps_holders_distinct(before: SandboxPool, after: SandboxPool, held: Seq<u32>)
    requires
        before.wf(),
        held.no_duplicates(),
        held.to_set() == before.issued_ids(),
        before.free_ids().len() > 0,
        after.issued_ids() == before.issued_ids().insert(before.free_ids()[0]),
    ensures
        held.push(before.free_ids()[0]).no_duplicates(),
        held.push(before.free_ids()[0]).to_set() == after.issued_ids(),
{
    let id = before.free_ids()[0];
    law_in_use_never_free(before, id);
    let h2 = held.push(id);
    assert(!held.contains(id)) by {
        if held.contains(id) {
            assert(held.to_set().contains(id));
        }
    }
    assert forall|i: int, j: int| 0 <= i < h2.len() && 0 <= j < h2.len() && i != j implies h2[i] != h2[j] by {
        if i == held.len() as int {
            assert(held[j] != id);
        } else if j == held.len() as int {
            assert(held[i] != id);
        }
    }
    assert(h2.to_set() =~= after.issued_ids()) by {
        assert forall|x: u32| h2.to_set().contains(x) <==> after.issued_ids().contains(x) by {
            if h2.to_set().contains(x) {
                let k = choose|k: int| 0 <= k < h2.len() && h2[k] == x;
                if k < held.len() {
                    assert(held.contains(x));
                }
            }
            if after.issued_ids().contains(x) && x != id {
                assert(held.to_set().contains(x));
                let k = choose|k: int| 0 <= k < held.len() && held[k] == x;
                assert(h2[k] == x);
            }
            if x == id {
                assert(h2[held.len() as int] == id);
            }
        }
    }
}

/// A new pool holds each of its ids once.
pub proof fn law_new_pool_distinct(n: nat, i: int, j: int)
    requires
        n <= u32::MAX,
        0 <= i < j < n,
    ensures
        first_ids(n)[i] != first_ids(n)[j],
        1 <= first_ids(n)[i] <= n,
{
}

/// Taking an id and giving it back keeps the same ids in the pool; the id
/// that was handed out becomes the newest.
pub proof fn law_take_then_give_back(free: Seq<u32>)
    requires
        free.len() > 0,
    ensures
        free.drop_first().push(free[0]).to_multiset() == free.to_multiset(),
{
    let rest = free.drop_first();
    assert(free =~= seq![free[0]] + rest);
    vstd::seq_lib::lemma_multiset_commutative(seq![free[0]], rest);
    assert(rest.push(free[0]) =~= rest + seq![free[0]]);
    vstd::seq_lib::lemma_multiset_commutative(rest, seq![free[0]]);
}

/// A sandbox whose preparation fails goes back to the pool: after the take
/// and the give-back of the same id, no more boxes are in use than before,
/// and the pool holds the same free ids, the one handed out now the newest.
pub proof fn law_failed_acquire_restores_pool(before: SandboxPool, taken: SandboxPool, after: SandboxPool)
    requires
        before.wf(),
        before.free_ids().len() > 0,
        taken.free_ids() == before.free_ids().drop_first(),
        taken.issued_ids() == before.issued_ids().insert(before.free_ids()[0]),
        after.free_ids() == taken.free_ids().push(before.free_ids()[0]),
        after.issued_ids() == taken.issued_ids().remove(before.free_ids()[0]),
    ensures
        after.issued_ids() == before.issued_ids(),
        after.free_ids().to_multiset() == before.free_ids().to_multiset(),
        after.free_ids().last() == before.free_ids()[0],
{
    let id = before.free_ids()[0];
    law_in_use_never_free(before, id);
    assert(after.issued_ids() =~= before.issued_ids());
    law_take_then_give_back(before.free_ids());
}

} // verus!
