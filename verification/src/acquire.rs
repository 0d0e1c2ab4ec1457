//! Making a batch, and taking records from its pools.

use crate::batch::BatchMeta;
use crate::kind::{Kind, NodeRef};
use crate::node::Node;
use crate::pool::MetaPool;
use crate::record::{Record, RecordView};
use vstd::prelude::*;

verus! {

/// Why no record was taken from a pool.
#[derive(Clone, Copy, PartialEq, Eq, Debug, Structural)]
pub enum AcquireError {
    /// There is no pool of that kind: the batch itself comes from none.
    NoSuchPool,
    /// The record that was to be put into the slot is not valid.
    InvalidRecord,
    /// The pool has no free slot. This is no fault: the caller drops what
    /// it wanted to store, waits, or makes the next batch larger.
    PoolExhausted,
}

/// The generation that follows `generation`. After the largest number the
/// count starts again at zero.
pub open spec fn next_generation(generation: u64) -> u64 {
    if generation == u64::MAX {
        0
    } else {
        (generation + 1) as u64
    }
}

/// One fresh node of kind `kind` for each of `count` slots.
fn fresh_nodes(kind: Kind, count: u32) -> (v: Vec<Node>)
    ensures
        v@.len() == count,
        forall|i: int| 0 <= i < count ==> (#[trigger] v@[i]).is_fresh(kind, 0),
{
    let mut v: Vec<Node> = Vec::new();
    let mut i: u32 = 0;
    while i < count
        invariant
            i <= count,
            v@.len() == i,
            forall|j: int| 0 <= j < i ==> (#[trigger] v@[j]).is_fresh(kind, 0),
        decreases count - i,
    {
        v.push(Node::new(kind, 0));
        i += 1;
    }
    v
}

/// The size of a node in bytes, or the largest number that the books of a
/// pool can hold where the size is larger.
pub open spec fn node_bytes() -> u32 {
    if vstd::layout::size_of::<Node>() <= u32::MAX {
        vstd::layout::size_of::<Node>() as u32
    } else {
        u32::MAX
    }
}

/// The size of a node in bytes, as the books of a pool hold it.
fn node_size() -> (r: u32)
    ensures
        r == node_bytes(),
{
    let size: usize = core::mem::size_of::<Node>();
    if size > u32::MAX as usize {
        u32::MAX
    } else {
        size as u32
    }
}

impl BatchMeta {
    /// Whether this batch came from `old` by taking the node `c` into use
    /// with a fresh record.
    pub open spec fn acquired(&self, old: &BatchMeta, c: NodeRef) -> bool {
        &&& self.taken(old, c)
        &&& self.record(c) == RecordView::fresh(c.kind)
    }

    /// Whether this batch came from `old` by taking the node `c` into use:
    /// `c` was the last free slot of its pool and is now in use, in the
    /// next generation of its slot, with no owner and nothing in its lists.
    /// Nothing else has changed. What the record of `c` holds is left open.
    pub open spec fn taken(&self, old: &BatchMeta, c: NodeRef) -> bool {
        &&& c.kind != Kind::Batch
        &&& self.pool(c.kind).acquired_from(&old.pool(c.kind), c.slot)
        &&& !old.live(c)
        &&& self.live(c)
        &&& self.owner(c) is None
        &&& self.node(c).generation == next_generation(old.node(c).generation)
        &&& self.node(c).childless()
        &&& self.lock_count() == old.lock_count()
        &&& forall|k: Kind|
            k != c.kind && k != Kind::Batch ==> #[trigger] self.pool(k) == old.pool(k)
        &&& forall|k: Kind| #[trigger] self.nodes(k).len() == old.nodes(k).len()
        &&& forall|q: NodeRef| q != c ==> #[trigger] self.live(q) == old.live(q)
        &&& forall|q: NodeRef|
            q != c && old.in_range(q) ==> #[trigger] self.node(q) == old.node(q)
    }

    /// A batch for at most `max_batch_size` frames. Each of its six pools
    /// has `max_batch_size` slots, all of them free, which it hands out
    /// from slot 0 upwards. Making a batch cannot fail, so the result is
    /// never `None`.
    pub fn create(max_batch_size: u32) -> (r: Option<BatchMeta>)
        ensures
            r is Some,
            r.unwrap().wf(),
            r.unwrap().lock_count() == 0,
            r.unwrap().node(NodeRef::root()).is_fresh(Kind::Batch, 0),
            forall|q: NodeRef| #[trigger] r.unwrap().live(q) <==> q == NodeRef::root(),
            forall|k: Kind|
                k != Kind::Batch ==> {
                    &&& (#[trigger] r.unwrap().pool(k)).capacity() == max_batch_size
                    &&& r.unwrap().pool(k).used_count() == 0
                    &&& r.unwrap().pool(k).free_count() == max_batch_size
                    &&& r.unwrap().pool(k).free_slots() == Seq::new(
                        max_batch_size as nat,
                        |i: int| (max_batch_size - 1 - i) as usize,
                    )
                    &&& r.unwrap().pool(k).record_size() == node_bytes()
                },
    {
        let size = node_size();
        let b = BatchMeta {
            root: fresh_nodes(Kind::Batch, 1),
            frame_meta_pool: MetaPool::new(Kind::Frame.base_meta_type(), max_batch_size, size),
            obj_meta_pool: MetaPool::new(Kind::Object.base_meta_type(), max_batch_size, size),
            classifier_meta_pool: MetaPool::new(
                Kind::Classifier.base_meta_type(),
                max_batch_size,
                size,
            ),
            display_meta_pool: MetaPool::new(
                Kind::Display.base_meta_type(),
                max_batch_size,
                size,
            ),
            user_meta_pool: MetaPool::new(Kind::User.base_meta_type(), max_batch_size, size),
            label_info_meta_pool: MetaPool::new(
                Kind::Label.base_meta_type(),
                max_batch_size,
                size,
            ),
            frames: fresh_nodes(Kind::Frame, max_batch_size),
            objects: fresh_nodes(Kind::Object, max_batch_size),
            classifiers: fresh_nodes(Kind::Classifier, max_batch_size),
            displays: fresh_nodes(Kind::Display, max_batch_size),
            users: fresh_nodes(Kind::User, max_batch_size),
            labels: fresh_nodes(Kind::Label, max_batch_size),
            lock_depth: 0,
        };
        proof {
            assert forall|q: NodeRef| #[trigger] b.live(q) implies b.node_wf(q) by {
                assert(q == NodeRef::root());
                let n = b.node(q);
                assert(n.is_fresh(Kind::Batch, 0));
                assert forall|ck: Kind| (#[trigger] n.children(ck)).no_duplicates() by {
                    assert(n.children(ck) == Seq::<usize>::empty());
                }
                assert forall|ck: Kind, i: int| 0 <= i < n.children(ck).len() implies {
                    let c = NodeRef { kind: ck, slot: #[trigger] n.children(ck)[i] };
                    b.live(c) && b.owner(c) == Some(q)
                } by {
                    assert(n.children(ck) == Seq::<usize>::empty());
                }
            }
        }
        Some(b)
    }

    /// What comes of taking a record of kind `kind` from its pool: the slot
    /// that is handed out, or why none is.
    pub open spec fn acquire_outcome(&self, kind: Kind) -> Result<usize, AcquireError> {
        if kind == Kind::Batch {
            Err(AcquireError::NoSuchPool)
        } else if self.pool(kind).free_count() == 0 {
            Err(AcquireError::PoolExhausted)
        } else {
            Ok(self.pool(kind).free_slots().last())
        }
    }

    /// Takes the last free slot of the pool of kind `kind` into use and
    /// returns its index. The record in it is fresh and has no owner.
    /// Where the pool has no free slot, or `kind` is the kind of the batch
    /// itself, of which there is no pool, the result says which of the
    /// two it is, and nothing has changed.
    pub fn acquire(&mut self, kind: Kind) -> (r: Result<usize, AcquireError>)
        requires
            old(self).wf(),
        ensures
            final(self).wf(),
            r == old(self).acquire_outcome(kind),
            r is Err ==> *final(self) == *old(self),
            r is Ok ==> final(self).acquired(old(self), NodeRef { kind, slot: r.unwrap() }),
    {
        if kind == Kind::Batch {
            return Err(AcquireError::NoSuchPool);
        }
        assert(self.pool(kind).wf());
        let slot = match self.pool_ref(kind).empty_list() {
            None => {
                return Err(AcquireError::PoolExhausted);
            },
            Some(_) => {
                let pool = self.pool_mut(kind);
                match pool.acquire() {
                    None => {
                        return Err(AcquireError::PoolExhausted);
                    },
                    Some(s) => s,
                }
            },
        };
        let c = NodeRef { kind, slot };
        let generation = self.node_ref(c).generation;
        let next: u64 = if generation == u64::MAX {
            0
        } else {
            generation + 1
        };
        let ghost mid = *self;
        let node = self.node_mut(c);
        *node = Node::new(kind, next);
        proof {
            assert forall|k: Kind| k != Kind::Batch implies {
                &&& (#[trigger] self.pool(k)).wf()
                &&& self.pool(k).capacity() == self.nodes(k).len()
                &&& self.pool(k).kind() == k.meta_type()
            } by {
                assert(self.pool(k) == mid.pool(k));
                assert(old(self).pool(k).wf());
            }
            assert forall|q: NodeRef| q != c implies #[trigger] self.live(q) == old(self).live(
                q,
            ) by {
                assert(self.pool(q.kind) == mid.pool(q.kind));
            }
            assert forall|q: NodeRef| #[trigger] self.live(q) implies self.node_wf(q) by {
                if q == c {
                    let n = self.node(q);
                    assert forall|ck: Kind| (#[trigger] n.children(ck)).no_duplicates() by {
                        assert(n.children(ck) == Seq::<usize>::empty());
                    }
                    assert forall|ck: Kind, i: int| 0 <= i < n.children(ck).len() implies {
                        let d = NodeRef { kind: ck, slot: #[trigger] n.children(ck)[i] };
                        self.live(d) && self.owner(d) == Some(q)
                    } by {
                        assert(n.children(ck) == Seq::<usize>::empty());
                    }
                    assert forall|ck: Kind| #[trigger]
                        n.record@.child_count(ck) is Some implies n.record@.child_count(
                        ck,
                    ).unwrap() == n.children(ck).len() by {
                        assert(n.children(ck) == Seq::<usize>::empty());
                    }
                } else {
                    assert(old(self).live(q));
                    assert(old(self).node_wf(q));
                    old(self).lemma_live_in_range(q);
                    assert(self.node(q) == old(self).node(q));
                    let n = self.node(q);
                    assert forall|ck: Kind, i: int| 0 <= i < n.children(ck).len() implies {
                        let d = NodeRef { kind: ck, slot: #[trigger] n.children(ck)[i] };
                        self.live(d) && self.owner(d) == Some(q)
                    } by {
                        let d = NodeRef { kind: ck, slot: n.children(ck)[i] };
                        assert(old(self).live(d));
                        old(self).lemma_live_in_range(d);
                        assert(self.node(d) == old(self).node(d));
                    }
                    match n.owner {
                        None => {},
                        Some(p) => {
                            assert(old(self).live(p));
                            old(self).lemma_live_in_range(p);
                            assert(self.node(p) == old(self).node(p));
                        },
                    }
                }
            }
        }
        Ok(slot)
    }

    /// What comes of taking a record from its pool to hold `record`: the
    /// slot that is handed out, or why none is.
    pub open spec fn acquire_with_outcome(&self, record: RecordView) -> Result<
        usize,
        AcquireError,
    > {
        if record.kind() != Kind::Batch && !record.wf() {
            Err(AcquireError::InvalidRecord)
        } else {
            self.acquire_outcome(record.kind())
        }
    }

    /// Takes the last free slot of the pool of the kind of `record` into
    /// use, puts `record` into it, and returns its index. The counts of
    /// children that the record keeps are zero, whatever `record` says.
    /// Where that cannot be done, the result says why, and nothing has
    /// changed.
    pub fn acquire_with(&mut self, record: Record) -> (r: Result<usize, AcquireError>)
        requires
            old(self).wf(),
        ensures
            final(self).wf(),
            r == old(self).acquire_with_outcome(record@),
            r is Err ==> *final(self) == *old(self),
            r is Ok ==> final(self).taken(
                old(self),
                NodeRef { kind: record@.kind(), slot: r.unwrap() },
            ),
            r is Ok ==> final(self).record(NodeRef { kind: record@.kind(), slot: r.unwrap() })
                == record@.with_child_count(Kind::Object, 0).with_child_count(Kind::Label, 0),
    {
        let kind = record.kind();
        if kind == Kind::Batch {
            return Err(AcquireError::NoSuchPool);
        }
        if !record.is_valid() {
            return Err(AcquireError::InvalidRecord);
        }
        let slot = match self.acquire(kind) {
            Err(e) => {
                return Err(e);
            },
            Ok(s) => s,
        };
        let c = NodeRef { kind, slot };
        let ghost mid = *self;
        proof {
            assert(mid.node(c).children(Kind::Object) == Seq::<usize>::empty());
            assert(mid.node(c).children(Kind::Label) == Seq::<usize>::empty());
        }
        let rewritten = self.replace_record(c, record);
        proof {
            assert(rewritten);
            mid.lemma_live_in_range(c);
            assert forall|q: NodeRef| q != c implies #[trigger] self.live(q) == old(self).live(
                q,
            ) by {
                assert(self.pool(q.kind) == mid.pool(q.kind));
                assert(mid.live(q) == old(self).live(q));
            }
            assert(self.live(c)) by {
                assert(self.pool(c.kind) == mid.pool(c.kind));
            }
            assert forall|q: NodeRef| q != c && old(self).in_range(q) implies #[trigger] self.node(
                q,
            ) == old(self).node(q) by {
                assert(mid.nodes(q.kind).len() == old(self).nodes(q.kind).len());
                assert(mid.node(q) == old(self).node(q));
            }
            assert forall|k: Kind| k != c.kind && k != Kind::Batch implies #[trigger] self.pool(
                k,
            ) == old(self).pool(k) by {
                assert(self.pool(k) == mid.pool(k));
            }
            assert forall|k: Kind| #[trigger] self.nodes(k).len() == old(self).nodes(k).len() by {
                assert(mid.nodes(k).len() == old(self).nodes(k).len());
            }
            assert(self.pool(c.kind) == mid.pool(c.kind));
            assert(self.node(c).childless()) by {
                assert forall|k: Kind| #[trigger] self.node(c).children(k) == Seq::<
                    usize,
                >::empty() by {
                    assert(mid.node(c).children(k) == Seq::<usize>::empty());
                }
            }
        }
        Ok(slot)
    }
}

} // verus!
