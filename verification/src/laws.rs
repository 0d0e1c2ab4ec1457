//! What holds of every valid batch, and of what its operations do one after
//! another.

use crate::batch::BatchMeta;
use crate::kind::{Kind, NodeRef};
use crate::pool::{lemma_acquire_then_release, lemma_pool_counts};
use crate::record::RecordView;
use crate::user::UserMetaView;
use vstd::prelude::*;

verus! {

/// In every pool of a valid batch, the free slots and the slots in use add
/// up to the capacity.
pub proof fn lemma_batch_pool_counts(batch: &BatchMeta, kind: Kind)
    requires
        batch.wf(),
        kind != Kind::Batch,
    ensures
        batch.pool(kind).free_count() + batch.pool(kind).used_count() == batch.pool(
            kind,
        ).capacity(),
{
    assert(batch.pool(kind).wf());
    lemma_pool_counts(&batch.pool(kind));
}

/// Every record in a list of a valid batch is in use and has the holder of
/// the list as its owner, and no list names a record twice.
pub proof fn lemma_children_owned(batch: &BatchMeta, parent: NodeRef, child: Kind, i: int)
    requires
        batch.wf(),
        batch.live(parent),
        0 <= i < batch.children(parent, child).len(),
    ensures
        batch.live(NodeRef { kind: child, slot: batch.children(parent, child)[i] }),
        batch.owner(NodeRef { kind: child, slot: batch.children(parent, child)[i] }) == Some(
            parent,
        ),
        parent.kind.may_hold(child),
        batch.children(parent, child).no_duplicates(),
{
    assert(batch.node_wf(parent));
    let c = NodeRef { kind: child, slot: batch.node(parent).children(child)[i] };
    assert(batch.live(c) && batch.owner(c) == Some(parent));
    assert(batch.node_wf(c));
}

/// A record that has an owner is named in the list of that owner, and the
/// owner is in use.
pub proof fn lemma_owner_lists(batch: &BatchMeta, r: NodeRef)
    requires
        batch.wf(),
        batch.live(r),
        batch.owner(r) is Some,
    ensures
        batch.live(batch.owner(r).unwrap()),
        batch.children(batch.owner(r).unwrap(), r.kind).contains(r.slot),
{
    assert(batch.node_wf(r));
}

/// The parent of an object, where it has one that stands, is an object in
/// use of the same frame.
pub proof fn lemma_parent_in_same_frame(batch: &BatchMeta, object: usize)
    requires
        batch.wf(),
        batch.parent_of(object) is Some,
    ensures
        batch.live(NodeRef::object(batch.parent_of(object).unwrap())),
        batch.owner(NodeRef::object(batch.parent_of(object).unwrap())) == batch.owner(
            NodeRef::object(object),
        ),
        batch.owner(NodeRef::object(object)) is Some,
        batch.owner(NodeRef::object(object)).unwrap().kind == Kind::Frame,
{
    let o = NodeRef::object(object);
    assert(batch.node_wf(o));
}

/// Taking a record into use and releasing it leaves every pool of the
/// batch with the free slots and the slots in use that it had before, and
/// the same records in use.
pub proof fn lemma_acquire_then_release_restores(
    before: &BatchMeta,
    between: &BatchMeta,
    after: &BatchMeta,
    c: NodeRef,
)
    requires
        before.wf(),
        between.taken(before, c),
        after.released(between, c),
    ensures
        forall|k: Kind|
            k != Kind::Batch ==> {
                &&& (#[trigger] after.pool(k)).free_slots() == before.pool(k).free_slots()
                &&& after.pool(k).used_slots() == before.pool(k).used_slots()
                &&& after.pool(k).free_count() == before.pool(k).free_count()
                &&& after.pool(k).used_count() == before.pool(k).used_count()
            },
        forall|q: NodeRef| after.live(q) == before.live(q),
{
    assert(before.pool(c.kind).wf());
    lemma_acquire_then_release(
        &before.pool(c.kind),
        &between.pool(c.kind),
        &after.pool(c.kind),
        c.slot,
    );
    assert forall|k: Kind| k != Kind::Batch implies {
        &&& (#[trigger] after.pool(k)).free_slots() == before.pool(k).free_slots()
        &&& after.pool(k).used_slots() == before.pool(k).used_slots()
        &&& after.pool(k).free_count() == before.pool(k).free_count()
        &&& after.pool(k).used_count() == before.pool(k).used_count()
    } by {
        if k != c.kind {
            assert(after.pool(k) == between.pool(k));
            assert(between.pool(k) == before.pool(k));
        }
    }
    assert forall|q: NodeRef| after.live(q) == before.live(q) by {
        if q.kind != Kind::Batch {
            if q.kind != c.kind {
                assert(after.pool(q.kind) == between.pool(q.kind));
                assert(between.pool(q.kind) == before.pool(q.kind));
            }
        }
    }
}

/// After a list has been cleared it is empty, none of the records that it
/// named is in use, and the slot of each of them is among the free slots of
/// its pool.
pub proof fn lemma_cleared_list_is_free(
    before: &BatchMeta,
    after: &BatchMeta,
    parent: NodeRef,
    child: Kind,
    i: int,
)
    requires
        before.wf(),
        after.wf(),
        after.cleared(before, parent, child),
        0 <= i < before.children(parent, child).len(),
    ensures
        after.children(parent, child).len() == 0,
        !after.live(NodeRef { kind: child, slot: before.children(parent, child)[i] }),
        after.pool(child).free_slots().contains(before.children(parent, child)[i]),
{
    let c = NodeRef { kind: child, slot: before.children(parent, child)[i] };
    assert(before.live(parent)) by {
        assert(after.live(parent));
    }
    lemma_children_owned(before, parent, child, i);
    before.lemma_live_in_range(c);
    assert(child != Kind::Batch);
    assert(after.pool(child).wf());
    assert(before.pool(child).wf());
    assert(after.nodes(child).len() == before.nodes(child).len());
}

/// Every record that a release has taken out of use has its slot among the
/// free slots of its pool.
pub proof fn lemma_released_slots_are_free(
    before: &BatchMeta,
    after: &BatchMeta,
    c: NodeRef,
    q: NodeRef,
)
    requires
        before.wf(),
        after.wf(),
        after.released(before, c),
        before.live(q),
        !after.live(q),
    ensures
        q.kind != Kind::Batch,
        after.pool(q.kind).free_slots().contains(q.slot),
{
    before.lemma_live_in_range(q);
    if q.kind == Kind::Batch {
        assert(q == NodeRef::root());
        assert(false);
    }
    assert(after.pool(q.kind).wf());
    assert(before.pool(q.kind).wf());
    assert(after.nodes(q.kind).len() == before.nodes(q.kind).len());
}

/// A record that has been released cannot be released again: a second
/// release finds it out of use, and so changes nothing.
pub proof fn lemma_release_once(before: &BatchMeta, after: &BatchMeta, c: NodeRef)
    requires
        after.released(before, c),
    ensures
        !after.can_release(c),
{
}

/// A record into which another has been copied holds what the other holds,
/// field by field, and the same below it.
pub proof fn lemma_copy_holds_the_same(
    before: &BatchMeta,
    after: &BatchMeta,
    src: &BatchMeta,
    s: NodeRef,
    d: NodeRef,
)
    requires
        after.copied_into(before, src, s, d),
    ensures
        after.record(d).payload() == src.record(s).payload(),
        after.subtree(d) == src.subtree(s),
{
}

/// The copy of a user record holds a payload that holds what the payload
/// of the record held, and keeps it when the record is released: the copy
/// lies in another batch, which the release does not touch.
pub proof fn lemma_copied_payload_survives(
    dst_before: &BatchMeta,
    dst_after: &BatchMeta,
    src: &BatchMeta,
    src_released: &BatchMeta,
    s: NodeRef,
    at: NodeRef,
    slot: usize,
    user: UserMetaView,
)
    requires
        s.kind == Kind::User,
        src.live(s),
        src.record(s) == RecordView::User(user),
        dst_after.grafted(dst_before, src, s, at, slot),
        src_released.released(src, s),
    ensures
        dst_after.live(NodeRef { kind: Kind::User, slot }),
        dst_after.record(NodeRef { kind: Kind::User, slot }) == RecordView::User(user),
        !src_released.live(s),
        src_released.record(s) == RecordView::fresh(Kind::User),
{
    let c = NodeRef { kind: Kind::User, slot };
    assert(dst_after.subtree(c).record == src.subtree(s).record);
    assert(dst_after.record(c).payload() == dst_after.record(c)) by {
        assert(dst_after.record(c).payload().kind() == dst_after.record(c).kind());
        match dst_after.record(c) {
            RecordView::User(_) => {},
            RecordView::Frame(_) => {},
            RecordView::Object(_) => {},
            RecordView::Classifier(_) => {},
            _ => {},
        }
    }
}

} // verus!
