//! What a record holds together with everything below it.

use crate::batch::BatchMeta;
use crate::kind::{Kind, NodeRef};
use crate::record::RecordView;
use vstd::prelude::*;

verus! {

/// What a record holds together with everything below it: what a copy of
/// the record keeps, and the same of each of its children, list by list and
/// in the order of the lists.
pub struct Subtree {
    pub record: RecordView,
    pub frames: Seq<Subtree>,
    pub objects: Seq<Subtree>,
    pub classifiers: Seq<Subtree>,
    pub displays: Seq<Subtree>,
    pub users: Seq<Subtree>,
    pub labels: Seq<Subtree>,
}

impl BatchMeta {
    /// What `r` holds together with everything below it.
    pub open spec fn subtree(&self, r: NodeRef) -> Subtree
        decreases r.kind.height() + 1, 1nat,
    {
        Subtree {
            record: self.record(r).payload(),
            frames: self.subtrees_below(r, Kind::Frame),
            objects: self.subtrees_below(r, Kind::Object),
            classifiers: self.subtrees_below(r, Kind::Classifier),
            displays: self.subtrees_below(r, Kind::Display),
            users: self.subtrees_below(r, Kind::User),
            labels: self.subtrees_below(r, Kind::Label),
        }
    }

    /// What the children of kind `ck` of `r` hold, each together with
    /// everything below it.
    pub open spec fn subtrees_below(&self, r: NodeRef, ck: Kind) -> Seq<Subtree>
        decreases r.kind.height() + 1, 0nat,
    {
        if ck.height() < r.kind.height() {
            self.subtrees(self.children(r, ck), ck)
        } else {
            Seq::empty()
        }
    }

    /// What the records of kind `ck` that `list` names hold, each together
    /// with everything below it.
    pub open spec fn subtrees(&self, list: Seq<usize>, ck: Kind) -> Seq<Subtree>
        decreases ck.height() + 1, 2nat,
    {
        Seq::new(list.len(), |i: int| self.subtree(NodeRef { kind: ck, slot: list[i] }))
    }

    /// What the children of one kind of a record hold does not change as
    /// long as no record that lies as low as they do changes.
    pub proof fn lemma_subtrees_below_stable(&self, other: &BatchMeta, r: NodeRef, ck: Kind)
        requires
            self.wf(),
            self.live(r),
            other.children(r, ck) == self.children(r, ck),
            forall|q: NodeRef|
                self.live(q) && q.kind.height() < r.kind.height() ==> #[trigger] other.node(q)
                    == self.node(q),
        ensures
            other.subtrees_below(r, ck) == self.subtrees_below(r, ck),
        decreases r.kind.height() + 1, 0nat,
    {
        if ck.height() < r.kind.height() {
            let list = self.children(r, ck);
            assert(self.node_wf(r));
            assert forall|i: int| 0 <= i < list.len() implies other.subtree(
                NodeRef { kind: ck, slot: list[i] },
            ) == self.subtree(NodeRef { kind: ck, slot: list[i] }) by {
                let c = NodeRef { kind: ck, slot: list[i] };
                assert(self.node(r).children(ck)[i] == c.slot);
                assert(self.live(c));
                self.lemma_subtree_stable(other, c);
            }
            assert(other.subtrees(list, ck) =~= self.subtrees(list, ck));
        }
    }

    /// What a record holds together with everything below it does not
    /// change as long as no record that lies as low as it does changes.
    pub proof fn lemma_subtree_stable(&self, other: &BatchMeta, r: NodeRef)
        requires
            self.wf(),
            self.live(r),
            forall|q: NodeRef|
                self.live(q) && q.kind.height() <= r.kind.height() ==> #[trigger] other.node(q)
                    == self.node(q),
        ensures
            other.subtree(r) == self.subtree(r),
        decreases r.kind.height() + 1, 1nat,
    {
        assert(other.node(r) == self.node(r));
        self.lemma_subtrees_below_stable(other, r, Kind::Frame);
        self.lemma_subtrees_below_stable(other, r, Kind::Object);
        self.lemma_subtrees_below_stable(other, r, Kind::Classifier);
        self.lemma_subtrees_below_stable(other, r, Kind::Display);
        self.lemma_subtrees_below_stable(other, r, Kind::User);
        self.lemma_subtrees_below_stable(other, r, Kind::Label);
    }
}

/// What a copy of a record keeps does not depend on the counts that the
/// record keeps, and a copy of a copy keeps the same.
pub proof fn lemma_payload(record: RecordView, ck: Kind, count: u32)
    ensures
        record.with_child_count(ck, count).payload() == record.payload(),
        record.payload().payload() == record.payload(),
        record.payload().kind() == record.kind(),
        record.with_child_count(ck, count).kind() == record.kind(),
        record.wf() ==> record.payload().wf() && record.with_child_count(ck, count).wf(),
        record.payload().with_child_count(ck, 0) == record.payload(),
        forall|other: u32|
            record.with_child_count(ck, other).with_child_count(ck, count)
                == record.with_child_count(ck, count),
        record.child_count(ck) == Some(count) ==> record.with_child_count(ck, count) == record,
        record.child_count(ck) is None ==> record.with_child_count(ck, count) == record,
        record.with_child_count(ck, count).uncounted() == record.uncounted(),
        record.with_child_count(ck, count).parentless() == record.parentless(),
        record.payload().uncounted() == record.payload(),
        record.payload().parentless(),
        record.parentless() ==> record.uncounted() == record.payload(),
{
}

} // verus!
