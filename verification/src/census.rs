//! Counting the records below a record, kind by kind.
//!
//! A copy of a record with everything below it needs one free slot for each
//! of these records, in the pool of its kind.

use crate::batch::BatchMeta;
use crate::kind::{Kind, NodeRef};
use crate::list::SlotList;
use vstd::prelude::*;

verus! {

impl BatchMeta {
    /// The number of records of kind `k` among `r` and everything below
    /// it.
    pub open spec fn count(&self, r: NodeRef, k: Kind) -> nat
        decreases r.kind.height() + 1, 1nat,
    {
        (if r.kind == k {
            1nat
        } else {
            0nat
        }) + self.count_below(r, Kind::Frame, k) + self.count_below(r, Kind::Object, k)
            + self.count_below(r, Kind::Classifier, k) + self.count_below(r, Kind::Display, k)
            + self.count_below(r, Kind::User, k) + self.count_below(r, Kind::Label, k)
    }

    /// The number of records of kind `k` below `r`, without `r` itself.
    pub open spec fn count_under(&self, r: NodeRef, k: Kind) -> nat {
        self.count_below(r, Kind::Frame, k) + self.count_below(r, Kind::Object, k)
            + self.count_below(r, Kind::Classifier, k) + self.count_below(r, Kind::Display, k)
            + self.count_below(r, Kind::User, k) + self.count_below(r, Kind::Label, k)
    }

    /// The number of records of kind `k` among the children of kind `ck` of
    /// `r` and everything below them.
    pub open spec fn count_below(&self, r: NodeRef, ck: Kind, k: Kind) -> nat
        decreases r.kind.height() + 1, 0nat,
    {
        if ck.height() < r.kind.height() {
            self.count_list(self.children(r, ck), ck, self.children(r, ck).len(), k)
        } else {
            0
        }
    }

    /// The number of records of kind `k` among the first `n` records of
    /// kind `ck` that `list` names and everything below them.
    pub open spec fn count_list(&self, list: Seq<usize>, ck: Kind, n: nat, k: Kind) -> nat
        decreases ck.height() + 1, n + 1,
    {
        if n == 0 || n > list.len() {
            0
        } else {
            self.count_list(list, ck, (n - 1) as nat, k) + self.count(
                NodeRef { kind: ck, slot: list[n - 1] },
                k,
            )
        }
    }

    /// The count over a shorter part of a list is no larger.
    pub proof fn lemma_count_list_grows(&self, list: Seq<usize>, ck: Kind, m: nat, n: nat, k: Kind)
        requires
            m <= n <= list.len(),
        ensures
            self.count_list(list, ck, m, k) <= self.count_list(list, ck, n, k),
        decreases n,
    {
        if m < n {
            self.lemma_count_list_grows(list, ck, m, (n - 1) as nat, k);
        }
    }

    /// The count below a record is the same in two valid batches in which
    /// every record that is in use in both and lies no higher has the same
    /// children.
    pub proof fn lemma_count_stable(&self, other: &BatchMeta, r: NodeRef, k: Kind)
        requires
            self.wf(),
            other.wf(),
            self.live(r),
            other.live(r),
            forall|q: NodeRef, ck: Kind|
                self.live(q) && other.live(q) && q.kind.height() <= r.kind.height()
                    ==> #[trigger] other.children(q, ck) == self.children(q, ck),
        ensures
            other.count(r, k) == self.count(r, k),
            other.count_under(r, k) == self.count_under(r, k),
        decreases r.kind.height() + 1, 1nat,
    {
        self.lemma_count_below_stable(other, r, Kind::Frame, k);
        self.lemma_count_below_stable(other, r, Kind::Object, k);
        self.lemma_count_below_stable(other, r, Kind::Classifier, k);
        self.lemma_count_below_stable(other, r, Kind::Display, k);
        self.lemma_count_below_stable(other, r, Kind::User, k);
        self.lemma_count_below_stable(other, r, Kind::Label, k);
    }

    /// The count below the children of one kind of a record is the same in
    /// two valid batches in which the record has the same children of that
    /// kind and every record that is in use in both and lies lower has the
    /// same children.
    pub proof fn lemma_count_below_stable(&self, other: &BatchMeta, r: NodeRef, ck: Kind, k: Kind)
        requires
            self.wf(),
            other.wf(),
            self.live(r),
            other.live(r),
            other.children(r, ck) == self.children(r, ck),
            forall|q: NodeRef, ck: Kind|
                self.live(q) && other.live(q) && q.kind.height() < r.kind.height()
                    ==> #[trigger] other.children(q, ck) == self.children(q, ck),
        ensures
            other.count_below(r, ck, k) == self.count_below(r, ck, k),
        decreases r.kind.height() + 1, 0nat,
    {
        if ck.height() < r.kind.height() {
            let list = self.children(r, ck);
            assert(other.children(r, ck) == list);
            assert(self.node_wf(r));
            assert(other.node_wf(r));
            assert forall|i: int| 0 <= i < list.len() implies self.live(
                NodeRef { kind: ck, slot: #[trigger] list[i] },
            ) && other.live(NodeRef { kind: ck, slot: list[i] }) by {
                assert(self.node(r).children(ck)[i] == list[i]);
                assert(other.node(r).children(ck)[i] == list[i]);
            }
            self.lemma_count_list_stable(other, list, ck, list.len(), k);
        }
    }

    /// The count over a list is the same in two valid batches in which
    /// every record of the list is in use and every record that is in use
    /// in both and lies no higher has the same children.
    pub proof fn lemma_count_list_stable(
        &self,
        other: &BatchMeta,
        list: Seq<usize>,
        ck: Kind,
        n: nat,
        k: Kind,
    )
        requires
            self.wf(),
            other.wf(),
            n <= list.len(),
            forall|i: int|
                0 <= i < n ==> self.live(NodeRef { kind: ck, slot: #[trigger] list[i] })
                    && other.live(NodeRef { kind: ck, slot: list[i] }),
            forall|q: NodeRef, ck2: Kind|
                self.live(q) && other.live(q) && q.kind.height() <= ck.height()
                    ==> #[trigger] other.children(q, ck2) == self.children(q, ck2),
        ensures
            other.count_list(list, ck, n, k) == self.count_list(list, ck, n, k),
        decreases ck.height() + 1, n + 1,
    {
        if n > 0 {
            self.lemma_count_list_stable(other, list, ck, (n - 1) as nat, k);
            let e = NodeRef { kind: ck, slot: list[n - 1] };
            self.lemma_count_stable(other, e, k);
        }
    }

    /// What is left of `budget` once the records of kind `k` among the
    /// first entries of `list` and everything below them have each taken
    /// one, or `None` where `budget` is too small for that.
    pub open spec fn left_after_list(
        &self,
        list: Seq<usize>,
        ck: Kind,
        k: Kind,
        budget: usize,
    ) -> Option<usize> {
        if self.count_list(list, ck, list.len(), k) <= budget {
            Some((budget - self.count_list(list, ck, list.len(), k)) as usize)
        } else {
            None
        }
    }

    /// What is left of `budget` once `r` and everything below it have each
    /// taken one for each record of kind `k`, or `None` where `budget` is
    /// too small for that.
    pub open spec fn left_after(&self, r: NodeRef, k: Kind, budget: usize) -> Option<usize> {
        if self.count(r, k) <= budget {
            Some((budget - self.count(r, k)) as usize)
        } else {
            None
        }
    }

    /// Whether every entry of `list` is the slot of a record of kind `ck`
    /// that is in use.
    pub open spec fn all_live(&self, list: Seq<usize>, ck: Kind) -> bool {
        forall|i: int|
            0 <= i < list.len() ==> self.live(NodeRef { kind: ck, slot: #[trigger] list[i] })
    }

    /// Takes from `budget` one for each record of kind `k` among the
    /// records of kind `ck` that `list` names and everything below them.
    pub fn fits_list(&self, list: &SlotList, ck: Kind, k: Kind, budget: usize) -> (r: Option<
        usize,
    >)
        requires
            self.wf(),
            self.all_live(list@, ck),
        ensures
            r == self.left_after_list(list@, ck, k, budget),
        decreases ck.height() + 1, list@.len() + 3,
    {
        let mut left = budget;
        let mut i: usize = 0;
        while i < list.len()
            invariant
                self.wf(),
                self.all_live(list@, ck),
                i <= list@.len(),
                self.count_list(list@, ck, i as nat, k) <= budget,
                left == budget - self.count_list(list@, ck, i as nat, k),
            decreases list@.len() - i,
        {
            let slot = match list.get(i) {
                Some(s) => s,
                None => {
                    return None;
                },
            };
            proof {
                self.lemma_count_list_grows(list@, ck, (i + 1) as nat, list@.len(), k);
            }
            match self.fits(NodeRef { kind: ck, slot }, k, left) {
                None => {
                    return None;
                },
                Some(rest) => {
                    left = rest;
                },
            }
            i += 1;
        }
        Some(left)
    }

    /// Takes from `budget` one for each record of kind `k` among the
    /// children of kind `ck` of `r` and everything below them.
    fn fits_below(&self, r: NodeRef, ck: Kind, k: Kind, budget: usize) -> (left: Option<usize>)
        requires
            self.wf(),
            self.live(r),
        ensures
            left == (if self.count_below(r, ck, k) <= budget {
                Some((budget - self.count_below(r, ck, k)) as usize)
            } else {
                None
            }),
        decreases r.kind.height() + 1, 0nat,
    {
        proof {
            self.lemma_live_in_range(r);
            assert(self.node_wf(r));
        }
        if ck.level() < r.kind.level() {
            let list = self.node_ref(r).list(ck);
            self.fits_list(list, ck, k, budget)
        } else {
            Some(budget)
        }
    }

    /// Takes from `budget` one for each record of kind `k` below `r`,
    /// without `r` itself.
    pub fn fits_under(&self, r: NodeRef, k: Kind, budget: usize) -> (left: Option<usize>)
        requires
            self.wf(),
            self.live(r),
        ensures
            left == (if self.count_under(r, k) <= budget {
                Some((budget - self.count_under(r, k)) as usize)
            } else {
                None
            }),
        decreases r.kind.height() + 1, 1nat,
    {
        let ghost c1 = self.count_below(r, Kind::Frame, k);
        let ghost c2 = self.count_below(r, Kind::Object, k);
        let ghost c3 = self.count_below(r, Kind::Classifier, k);
        let ghost c4 = self.count_below(r, Kind::Display, k);
        let ghost c5 = self.count_below(r, Kind::User, k);
        let ghost c6 = self.count_below(r, Kind::Label, k);
        assert(self.count_under(r, k) == c1 + c2 + c3 + c4 + c5 + c6);
        let b1 = match self.fits_below(r, Kind::Frame, k, budget) {
            Some(b) => b,
            None => {
                return None;
            },
        };
        assert(b1 == budget - c1);
        let b2 = match self.fits_below(r, Kind::Object, k, b1) {
            Some(b) => b,
            None => {
                return None;
            },
        };
        assert(b2 == budget - c1 - c2);
        let b3 = match self.fits_below(r, Kind::Classifier, k, b2) {
            Some(b) => b,
            None => {
                return None;
            },
        };
        assert(b3 == budget - c1 - c2 - c3);
        let b4 = match self.fits_below(r, Kind::Display, k, b3) {
            Some(b) => b,
            None => {
                return None;
            },
        };
        assert(b4 == budget - c1 - c2 - c3 - c4);
        let b5 = match self.fits_below(r, Kind::User, k, b4) {
            Some(b) => b,
            None => {
                return None;
            },
        };
        assert(b5 == budget - c1 - c2 - c3 - c4 - c5);
        self.fits_below(r, Kind::Label, k, b5)
    }

    /// Takes from `budget` one for each record of kind `k` among `r` and
    /// everything below it.
    pub fn fits(&self, r: NodeRef, k: Kind, budget: usize) -> (left: Option<usize>)
        requires
            self.wf(),
            self.live(r),
        ensures
            left == self.left_after(r, k, budget),
        decreases r.kind.height() + 1, 2nat,
    {
        let own: usize = if r.kind == k {
            1
        } else {
            0
        };
        if budget < own {
            return None;
        }
        self.fits_under(r, k, budget - own)
    }
}

} // verus!
