//! Copying records from one batch into another.
//!
//! A record is copied together with everything below it, into records that
//! are taken from the pools of the batch that receives the copy. The copy
//! shares nothing with what it was made from.

use crate::batch::BatchMeta;
use crate::kind::{lemma_may_hold_lowers, Kind, NodeRef};
use crate::list::SlotList;
use crate::subtree::lemma_payload;
use vstd::prelude::*;

verus! {

impl BatchMeta {
    /// Whether this batch came from `old` by taking records into use that
    /// lie no higher than `limit` and name no parent, and by nothing else
    /// but changes to `at`.
    pub open spec fn grown(&self, old: &BatchMeta, at: NodeRef, limit: nat) -> bool {
        &&& self.lock_count() == old.lock_count()
        &&& forall|k: Kind| #[trigger] self.nodes(k).len() == old.nodes(k).len()
        &&& forall|q: NodeRef| #[trigger] old.live(q) ==> self.live(q)
        &&& forall|q: NodeRef| q != at && old.live(q) ==> #[trigger] self.node(q) == old.node(q)
        &&& forall|q: NodeRef|
            #[trigger] self.live(q) && !old.live(q) ==> q.kind.height() <= limit && self.record(
                q,
            ).parentless()
    }

    /// Two rounds of growing at the same node make one.
    pub proof fn lemma_grown_twice(
        &self,
        mid: &BatchMeta,
        old: &BatchMeta,
        at: NodeRef,
        limit: nat,
    )
        requires
            old.live(at),
            mid.grown(old, at, limit),
            self.grown(mid, at, limit),
        ensures
            self.grown(old, at, limit),
    {
        assert forall|q: NodeRef| #[trigger] old.live(q) implies self.live(q) by {
            assert(mid.live(q));
        }
        assert forall|q: NodeRef| q != at && old.live(q) implies #[trigger] self.node(q)
            == old.node(q) by {
            assert(mid.live(q));
            assert(mid.node(q) == old.node(q));
            assert(self.node(q) == mid.node(q));
        }
        assert forall|q: NodeRef| #[trigger] self.live(q) && !old.live(q) implies q.kind.height()
            <= limit && self.record(q).parentless() by {
            if mid.live(q) {
                assert(mid.live(q) && !old.live(q));
                assert(q != at);
                assert(self.node(q) == mid.node(q));
            } else {
                assert(self.live(q) && !mid.live(q));
            }
        }
    }

    /// Whether the pools of this batch have as many free slots less than
    /// those of `old` as `taken` says, kind by kind.
    pub open spec fn spent(&self, old: &BatchMeta, taken: spec_fn(Kind) -> nat) -> bool {
        forall|k: Kind|
            k != Kind::Batch ==> (#[trigger] self.pool(k)).free_count() + taken(k)
                == old.pool(k).free_count()
    }

    /// Whether the pools of this batch have room for what `needed` says,
    /// kind by kind.
    pub open spec fn has_room(&self, needed: spec_fn(Kind) -> nat) -> bool {
        forall|k: Kind| k != Kind::Batch ==> needed(k) <= (#[trigger] self.pool(k)).free_count()
    }

    /// Whether this batch came from `old` by adding to the list of `at`
    /// copies of the records of kind `ck` that `list` names in `src`, each
    /// with everything below it, in the order of `list`.
    pub open spec fn appended(
        &self,
        old: &BatchMeta,
        src: &BatchMeta,
        list: Seq<usize>,
        ck: Kind,
        at: NodeRef,
        n: nat,
    ) -> bool {
        let before = old.children(at, ck);
        let after = self.children(at, ck);
        &&& self.grown(old, at, ck.height())
        &&& self.live(at)
        &&& after.len() == before.len() + n
        &&& after.take(before.len() as int) == before
        &&& self.relisted(old, at, ck, after)
        &&& forall|i: int|
            0 <= i < n ==> {
                let c = NodeRef { kind: ck, slot: #[trigger] after[before.len() + i] };
                &&& !old.live(c)
                &&& self.subtree(c) == src.subtree(NodeRef { kind: ck, slot: list[i] })
            }
        &&& self.spent(old, |k: Kind| src.count_list(list, ck, n, k))
    }

    /// Whether this batch came from `old` by adding to the list of `at` a
    /// copy, in slot `slot`, of the record `s` of `src` with everything
    /// below it.
    pub open spec fn grafted(
        &self,
        old: &BatchMeta,
        src: &BatchMeta,
        s: NodeRef,
        at: NodeRef,
        slot: usize,
    ) -> bool {
        let c = NodeRef { kind: s.kind, slot };
        &&& self.grown(old, at, s.kind.height())
        &&& self.live(at)
        &&& !old.live(c)
        &&& self.live(c)
        &&& self.owner(c) == Some(at)
        &&& self.relisted(old, at, s.kind, old.children(at, s.kind).push(slot))
        &&& self.subtree(c) == src.subtree(s)
        &&& self.spent(old, |k: Kind| src.count(s, k))
    }

    /// Takes a record of the kind of `s` into use, gives it what a copy of
    /// the record of `s` keeps, and adds it to the list of `at`.
    fn plant(src: &BatchMeta, s: NodeRef, dst: &mut BatchMeta, at: NodeRef) -> (slot: usize)
        requires
            src.wf(),
            old(dst).wf(),
            src.live(s),
            s.kind != Kind::Batch,
            old(dst).live(at),
            at.kind.may_hold(s.kind),
            old(dst).pool(s.kind).free_count() > 0,
        ensures
            final(dst).wf(),
            final(dst).grown(old(dst), at, s.kind.height()),
            final(dst).live(at),
            !old(dst).live(NodeRef { kind: s.kind, slot }),
            final(dst).live(NodeRef { kind: s.kind, slot }),
            final(dst).owner(NodeRef { kind: s.kind, slot }) == Some(at),
            final(dst).node(NodeRef { kind: s.kind, slot }).childless(),
            final(dst).record(NodeRef { kind: s.kind, slot }) == src.record(s).payload(),
            final(dst).relisted(
                old(dst),
                at,
                s.kind,
                old(dst).children(at, s.kind).push(slot),
            ),
            final(dst).spent(
                old(dst),
                |k: Kind|
                    if k == s.kind {
                        1nat
                    } else {
                        0nat
                    },
            ),
    {
        proof {
            src.lemma_live_in_range(s);
            assert(src.node_wf(s));
            lemma_may_hold_lowers(at.kind, s.kind);
        }
        let slot = match dst.acquire(s.kind) {
            Ok(x) => x,
            Err(_) => vstd::pervasive::unreached(),
        };
        let c = NodeRef { kind: s.kind, slot };
        let ghost s1 = *dst;
        let record = src.node_ref(s).record.duplicate();
        proof {
            lemma_payload(src.record(s), Kind::Object, 0);
            lemma_payload(src.record(s), Kind::Label, 0);
            assert(s1.node(c).children(Kind::Object) == Seq::<usize>::empty());
            assert(s1.node(c).children(Kind::Label) == Seq::<usize>::empty());
        }
        let rewritten = dst.replace_record(c, record);
        let ghost s2 = *dst;
        proof {
            assert(rewritten);
            assert(s2.pool(at.kind) == s1.pool(at.kind));
            assert(s2.pool(c.kind) == s1.pool(c.kind));
            assert(s1.live(at));
            assert(s2.live(at) && s2.live(c));
            assert(s2.owner(c) is None);
        }
        let linked = dst.link(at, c);
        proof {
            assert(linked);
            let s3 = *dst;
            assert forall|k: Kind| #[trigger] s3.nodes(k).len() == old(dst).nodes(k).len() by {
                assert(s1.nodes(k).len() == old(dst).nodes(k).len());
                assert(s2.nodes(k).len() == s1.nodes(k).len());
                assert(s3.nodes(k).len() == s2.nodes(k).len());
            }
            assert forall|q: NodeRef| q != c implies #[trigger] s3.live(q) == old(dst).live(
                q,
            ) by {
                assert(s3.pool(q.kind) == s2.pool(q.kind));
                assert(s2.pool(q.kind) == s1.pool(q.kind));
                assert(s1.live(q) == old(dst).live(q));
            }
            assert(s3.live(c)) by {
                assert(s3.pool(c.kind) == s2.pool(c.kind));
            }
            assert forall|q: NodeRef| q != at && old(dst).live(q) implies #[trigger] s3.node(q)
                == old(dst).node(q) by {
                old(dst).lemma_live_in_range(q);
                assert(q != c);
                assert(s1.node(q) == old(dst).node(q));
                assert(s2.node(q) == s1.node(q));
                assert(s3.node(q) == s2.node(q));
            }
            old(dst).lemma_live_in_range(at);
            assert(s2.node(at) == s1.node(at));
            assert(s1.node(at) == old(dst).node(at));
            assert forall|k: Kind| k != s.kind implies #[trigger] s3.children(at, k) == old(
                dst,
            ).children(at, k) by {
                assert(s3.children(at, k) == s2.children(at, k));
            }
            assert(s3.node(c).childless()) by {
                assert forall|k: Kind| #[trigger] s3.node(c).children(k) == Seq::<
                    usize,
                >::empty() by {
                    assert(s1.node(c).children(k) == Seq::<usize>::empty());
                }
            }
            assert forall|k: Kind| k != Kind::Batch implies (#[trigger] s3.pool(
                k,
            )).free_count() + (if k == s.kind {
                1nat
            } else {
                0nat
            }) == old(dst).pool(k).free_count() by {
                assert(s3.pool(k) == s2.pool(k));
                assert(s2.pool(k) == s1.pool(k));
                if k != s.kind {
                    assert(s1.pool(k) == old(dst).pool(k));
                }
            }
        }
        slot
    }

    /// Adds to the list of `at` copies of the records of kind `ck` that
    /// `list` names in `src`, each with everything below it, in the order
    /// of `list`.
    pub(crate) fn copy_list_into(
        src: &BatchMeta,
        list: &SlotList,
        ck: Kind,
        dst: &mut BatchMeta,
        at: NodeRef,
    )
        requires
            src.wf(),
            old(dst).wf(),
            src.all_live(list@, ck),
            ck != Kind::Batch,
            old(dst).live(at),
            at.kind.may_hold(ck),
            old(dst).has_room(|k: Kind| src.count_list(list@, ck, list@.len(), k)),
        ensures
            final(dst).wf(),
            final(dst).appended(old(dst), src, list@, ck, at, list@.len()),
        decreases ck.height() + 1, list@.len() + 2,
    {
        let ghost start = *dst;
        let ghost len0 = start.children(at, ck).len();
        proof {
            start.lemma_live_in_range(at);
            assert(start.node_wf(at));
            start.lemma_children_bounded(at, ck);
            let rec = start.record(at);
            if rec.child_count(ck) is Some {
                assert(rec.child_count(ck).unwrap() == start.children(at, ck).len());
            }
            lemma_payload(rec, ck, len0 as u32);
            assert(start.children(at, ck).take(len0 as int) =~= start.children(at, ck));
        }
        let mut i: usize = 0;
        while i < list.len()
            invariant
                src.wf(),
                start.wf(),
                src.all_live(list@, ck),
                ck != Kind::Batch,
                at.kind.may_hold(ck),
                start.live(at),
                len0 == start.children(at, ck).len(),
                start.has_room(|k: Kind| src.count_list(list@, ck, list@.len(), k)),
                i <= list@.len(),
                dst.wf(),
                dst.appended(&start, src, list@, ck, at, i as nat),
            decreases list@.len() - i,
        {
            let slot = match list.get(i) {
                Some(x) => x,
                None => vstd::pervasive::unreached(),
            };
            let s = NodeRef { kind: ck, slot };
            let ghost before = *dst;
            proof {
                assert(src.live(s));
                assert forall|k: Kind| k != Kind::Batch implies src.count(s, k) <= (
                #[trigger] before.pool(k)).free_count() by {
                    src.lemma_count_list_grows(list@, ck, (i + 1) as nat, list@.len(), k);
                    assert(src.count_list(list@, ck, list@.len(), k) <= start.pool(
                        k,
                    ).free_count());
                }
            }
            let new_slot = Self::copy_subtree(src, s, dst, at);
            proof {
                let now = *dst;
                let c = NodeRef { kind: ck, slot: new_slot };
                lemma_may_hold_lowers(at.kind, ck);
                now.lemma_grown_twice(&before, &start, at, ck.height());
                let list_b = before.children(at, ck);
                let list_n = now.children(at, ck);
                assert(list_n == list_b.push(new_slot));
                assert(list_n.take(len0 as int) =~= list_b.take(len0 as int));
                assert forall|k: Kind| k != ck implies #[trigger] now.children(at, k)
                    == start.children(at, k) by {
                    assert(before.children(at, k) == start.children(at, k));
                }
                now.lemma_children_bounded(at, ck);
                lemma_payload(start.record(at), ck, list_n.len() as u32);
                assert(now.relisted(&start, at, ck, list_n));
                assert forall|j: int| 0 <= j < i + 1 implies {
                    let e = NodeRef { kind: ck, slot: #[trigger] list_n[len0 + j] };
                    &&& !start.live(e)
                    &&& now.subtree(e) == src.subtree(NodeRef { kind: ck, slot: list@[j] })
                } by {
                    let e = NodeRef { kind: ck, slot: list_n[len0 + j] };
                    if j < i {
                        assert(list_b[len0 + j] == e.slot);
                        assert(before.node_wf(at));
                        assert(before.node(at).children(ck)[len0 + j] == e.slot);
                        assert(before.live(e));
                        before.lemma_subtree_stable(&now, e);
                    } else {
                        assert(e == c);
                        if start.live(c) {
                            assert(before.live(c));
                        }
                    }
                }
                assert forall|k: Kind| k != Kind::Batch implies (#[trigger] now.pool(
                    k,
                )).free_count() + src.count_list(list@, ck, (i + 1) as nat, k) == start.pool(
                    k,
                ).free_count() by {
                    assert(now.pool(k).free_count() + src.count(s, k) == before.pool(
                        k,
                    ).free_count());
                    assert(before.pool(k).free_count() + src.count_list(
                        list@,
                        ck,
                        i as nat,
                        k,
                    ) == start.pool(k).free_count());
                }
            }
            i += 1;
        }
    }

    /// Adds to the list that `c` has for the kind `ck` copies of the
    /// children of that kind of the record `s` of `src`, each with
    /// everything below it.
    fn copy_below(src: &BatchMeta, s: NodeRef, ck: Kind, dst: &mut BatchMeta, c: NodeRef)
        requires
            src.wf(),
            old(dst).wf(),
            src.live(s),
            old(dst).live(c),
            c.kind == s.kind,
            old(dst).children(c, ck) == Seq::<usize>::empty(),
            old(dst).has_room(|k: Kind| src.count_below(s, ck, k)),
        ensures
            final(dst).wf(),
            final(dst).live(c),
            final(dst).grown(old(dst), c, s.kind.height()),
            forall|q: NodeRef|
                #[trigger] final(dst).live(q) && !old(dst).live(q) ==> q.kind.height()
                    < s.kind.height(),
            final(dst).relisted(old(dst), c, ck, final(dst).children(c, ck)),
            final(dst).subtrees_below(c, ck) == src.subtrees_below(s, ck),
            final(dst).spent(old(dst), |k: Kind| src.count_below(s, ck, k)),
        decreases s.kind.height() + 1, 0nat,
    {
        proof {
            src.lemma_live_in_range(s);
            assert(src.node_wf(s));
            old(dst).lemma_live_in_range(c);
            assert(old(dst).node_wf(c));
            let rec = old(dst).record(c);
            if rec.child_count(ck) is Some {
                assert(rec.child_count(ck).unwrap() == old(dst).children(c, ck).len());
            }
            lemma_payload(rec, ck, 0);
        }
        if ck.level() < s.kind.level() {
            let list = src.node_ref(s).list(ck);
            if list.len() > 0 {
                proof {
                    let first = NodeRef { kind: ck, slot: src.node(s).children(ck)[0] };
                    assert(src.live(first) && src.owner(first) == Some(s));
                    assert(src.node_wf(first));
                    assert forall|i: int| 0 <= i < list@.len() implies src.live(
                        NodeRef { kind: ck, slot: #[trigger] list@[i] },
                    ) by {
                        assert(src.node(s).children(ck)[i] == list@[i]);
                    }
                    assert forall|k: Kind| k != Kind::Batch implies src.count_list(
                        list@,
                        ck,
                        list@.len(),
                        k,
                    ) <= (#[trigger] old(dst).pool(k)).free_count() by {
                        assert(src.count_below(s, ck, k) == src.count_list(
                            list@,
                            ck,
                            list@.len(),
                            k,
                        ));
                    }
                }
                Self::copy_list_into(src, list, ck, dst, c);
                proof {
                    let now = *dst;
                    let after = now.children(c, ck);
                    assert(after.len() == list@.len());
                    assert forall|i: int| 0 <= i < after.len() implies now.subtree(
                        NodeRef { kind: ck, slot: after[i] },
                    ) == src.subtree(NodeRef { kind: ck, slot: list@[i] }) by {
                        assert(after[0 + i] == after[i]);
                    }
                    assert(now.subtrees(after, ck) =~= src.subtrees(list@, ck));
                    assert forall|k: Kind| k != Kind::Batch implies (#[trigger] now.pool(
                        k,
                    )).free_count() + src.count_below(s, ck, k) == old(dst).pool(
                        k,
                    ).free_count() by {
                        assert(src.count_below(s, ck, k) == src.count_list(
                            list@,
                            ck,
                            list@.len(),
                            k,
                        ));
                    }
                }
            } else {
                proof {
                    assert(dst.subtrees(dst.children(c, ck), ck) =~= src.subtrees(
                        src.children(s, ck),
                        ck,
                    ));
                    assert forall|k: Kind| k != Kind::Batch implies (#[trigger] dst.pool(
                        k,
                    )).free_count() + src.count_below(s, ck, k) == old(dst).pool(
                        k,
                    ).free_count() by {
                        assert(src.count_list(src.children(s, ck), ck, 0, k) == 0);
                    }
                }
            }
        }
    }

    /// Whether this batch came from `old` by giving the record `c`, which
    /// held nothing, copies of everything below the record `s` of `src`.
    pub open spec fn filled(
        &self,
        old: &BatchMeta,
        src: &BatchMeta,
        s: NodeRef,
        c: NodeRef,
    ) -> bool {
        &&& self.grown(old, c, s.kind.height())
        &&& forall|q: NodeRef|
            #[trigger] self.live(q) && !old.live(q) ==> q.kind.height() < s.kind.height()
        &&& self.live(c)
        &&& self.owner(c) == old.owner(c)
        &&& self.node(c).generation == old.node(c).generation
        &&& self.record(c).uncounted() == old.record(c).uncounted()
        &&& self.subtrees_below(c, Kind::Frame) == src.subtrees_below(s, Kind::Frame)
        &&& self.subtrees_below(c, Kind::Object) == src.subtrees_below(s, Kind::Object)
        &&& self.subtrees_below(c, Kind::Classifier) == src.subtrees_below(s, Kind::Classifier)
        &&& self.subtrees_below(c, Kind::Display) == src.subtrees_below(s, Kind::Display)
        &&& self.subtrees_below(c, Kind::User) == src.subtrees_below(s, Kind::User)
        &&& self.subtrees_below(c, Kind::Label) == src.subtrees_below(s, Kind::Label)
        &&& self.spent(old, |k: Kind| src.count_under(s, k))
    }

    /// Gives the record `c`, which holds nothing, copies of everything
    /// below the record `s` of `src`.
    pub(crate) fn fill(src: &BatchMeta, s: NodeRef, dst: &mut BatchMeta, c: NodeRef)
        requires
            src.wf(),
            old(dst).wf(),
            src.live(s),
            old(dst).live(c),
            c.kind == s.kind,
            old(dst).node(c).childless(),
            old(dst).has_room(|k: Kind| src.count_under(s, k)),
        ensures
            final(dst).wf(),
            final(dst).filled(old(dst), src, s, c),
        decreases s.kind.height() + 1, 1nat,
    {
        let ghost s0 = *dst;
        proof {
            assert forall|k: Kind| #[trigger] s0.children(c, k) == Seq::<usize>::empty() by {
                assert(s0.node(c).children(k) == Seq::<usize>::empty());
            }
            assert forall|k: Kind| k != Kind::Batch implies src.count_below(s, Kind::Frame, k)
                <= (#[trigger] s0.pool(k)).free_count() by {}
        }
        Self::copy_below(src, s, Kind::Frame, dst, c);
        let ghost s1 = *dst;
        proof {
            assert(s1.children(c, Kind::Object) == s0.children(c, Kind::Object));
            assert forall|k: Kind| k != Kind::Batch implies src.count_below(s, Kind::Object, k)
                <= (#[trigger] s1.pool(k)).free_count() by {
                assert(s0.pool(k).free_count() >= 0);
            }
        }
        Self::copy_below(src, s, Kind::Object, dst, c);
        let ghost s2 = *dst;
        proof {
            s2.lemma_grown_twice(&s1, &s0, c, s.kind.height());
            assert(s2.children(c, Kind::Classifier) == s1.children(c, Kind::Classifier));
            assert(s1.children(c, Kind::Classifier) == s0.children(c, Kind::Classifier));
            assert forall|k: Kind| k != Kind::Batch implies src.count_below(
                s,
                Kind::Classifier,
                k,
            ) <= (#[trigger] s2.pool(k)).free_count() by {
                assert(s1.pool(k).free_count() >= 0);
                assert(s0.pool(k).free_count() >= 0);
            }
        }
        Self::copy_below(src, s, Kind::Classifier, dst, c);
        let ghost s3 = *dst;
        proof {
            s3.lemma_grown_twice(&s2, &s0, c, s.kind.height());
            assert(s3.children(c, Kind::Display) == s2.children(c, Kind::Display));
            assert(s2.children(c, Kind::Display) == s1.children(c, Kind::Display));
            assert(s1.children(c, Kind::Display) == s0.children(c, Kind::Display));
            assert forall|k: Kind| k != Kind::Batch implies src.count_below(s, Kind::Display, k)
                <= (#[trigger] s3.pool(k)).free_count() by {
                assert(s2.pool(k).free_count() >= 0);
                assert(s1.pool(k).free_count() >= 0);
                assert(s0.pool(k).free_count() >= 0);
            }
        }
        Self::copy_below(src, s, Kind::Display, dst, c);
        let ghost s4 = *dst;
        proof {
            s4.lemma_grown_twice(&s3, &s0, c, s.kind.height());
            assert(s4.children(c, Kind::User) == s3.children(c, Kind::User));
            assert(s3.children(c, Kind::User) == s2.children(c, Kind::User));
            assert(s2.children(c, Kind::User) == s1.children(c, Kind::User));
            assert(s1.children(c, Kind::User) == s0.children(c, Kind::User));
            assert forall|k: Kind| k != Kind::Batch implies src.count_below(s, Kind::User, k)
                <= (#[trigger] s4.pool(k)).free_count() by {
                assert(s3.pool(k).free_count() >= 0);
                assert(s2.pool(k).free_count() >= 0);
                assert(s1.pool(k).free_count() >= 0);
                assert(s0.pool(k).free_count() >= 0);
            }
        }
        Self::copy_below(src, s, Kind::User, dst, c);
        let ghost s5 = *dst;
        proof {
            s5.lemma_grown_twice(&s4, &s0, c, s.kind.height());
            assert(s5.children(c, Kind::Label) == s4.children(c, Kind::Label));
            assert(s4.children(c, Kind::Label) == s3.children(c, Kind::Label));
            assert(s3.children(c, Kind::Label) == s2.children(c, Kind::Label));
            assert(s2.children(c, Kind::Label) == s1.children(c, Kind::Label));
            assert(s1.children(c, Kind::Label) == s0.children(c, Kind::Label));
            assert forall|k: Kind| k != Kind::Batch implies src.count_below(s, Kind::Label, k)
                <= (#[trigger] s5.pool(k)).free_count() by {
                assert(s4.pool(k).free_count() >= 0);
                assert(s3.pool(k).free_count() >= 0);
                assert(s2.pool(k).free_count() >= 0);
                assert(s1.pool(k).free_count() >= 0);
                assert(s0.pool(k).free_count() >= 0);
            }
        }
        Self::copy_below(src, s, Kind::Label, dst, c);
        proof {
            let s6 = *dst;
            s6.lemma_grown_twice(&s5, &s0, c, s.kind.height());
            Self::lemma_filled(src, s, c, &s0, &s1, &s2, &s3, &s4, &s5, &s6);
        }
    }

    /// Puts together what the steps of filling one record have shown.
    proof fn lemma_filled(
        src: &BatchMeta,
        s: NodeRef,
        c: NodeRef,
        s0: &BatchMeta,
        s1: &BatchMeta,
        s2: &BatchMeta,
        s3: &BatchMeta,
        s4: &BatchMeta,
        s5: &BatchMeta,
        s6: &BatchMeta,
    )
        requires
            src.wf(),
            c.kind == s.kind,
            s0.wf(),
            s1.wf(),
            s2.wf(),
            s3.wf(),
            s4.wf(),
            s5.wf(),
            s6.wf(),
            s0.live(c),
            s6.grown(s0, c, s.kind.height()),
            s1.grown(s0, c, s.kind.height()),
            s2.grown(s1, c, s.kind.height()),
            s3.grown(s2, c, s.kind.height()),
            s4.grown(s3, c, s.kind.height()),
            s5.grown(s4, c, s.kind.height()),
            s6.grown(s5, c, s.kind.height()),
            forall|q: NodeRef|
                #[trigger] s1.live(q) && !s0.live(q) ==> q.kind.height() < s.kind.height(),
            forall|q: NodeRef|
                #[trigger] s2.live(q) && !s1.live(q) ==> q.kind.height() < s.kind.height(),
            forall|q: NodeRef|
                #[trigger] s3.live(q) && !s2.live(q) ==> q.kind.height() < s.kind.height(),
            forall|q: NodeRef|
                #[trigger] s4.live(q) && !s3.live(q) ==> q.kind.height() < s.kind.height(),
            forall|q: NodeRef|
                #[trigger] s5.live(q) && !s4.live(q) ==> q.kind.height() < s.kind.height(),
            forall|q: NodeRef|
                #[trigger] s6.live(q) && !s5.live(q) ==> q.kind.height() < s.kind.height(),
            s1.relisted(s0, c, Kind::Frame, s1.children(c, Kind::Frame)),
            s2.relisted(s1, c, Kind::Object, s2.children(c, Kind::Object)),
            s3.relisted(s2, c, Kind::Classifier, s3.children(c, Kind::Classifier)),
            s4.relisted(s3, c, Kind::Display, s4.children(c, Kind::Display)),
            s5.relisted(s4, c, Kind::User, s5.children(c, Kind::User)),
            s6.relisted(s5, c, Kind::Label, s6.children(c, Kind::Label)),
            s1.subtrees_below(c, Kind::Frame) == src.subtrees_below(s, Kind::Frame),
            s2.subtrees_below(c, Kind::Object) == src.subtrees_below(s, Kind::Object),
            s3.subtrees_below(c, Kind::Classifier) == src.subtrees_below(s, Kind::Classifier),
            s4.subtrees_below(c, Kind::Display) == src.subtrees_below(s, Kind::Display),
            s5.subtrees_below(c, Kind::User) == src.subtrees_below(s, Kind::User),
            s6.subtrees_below(c, Kind::Label) == src.subtrees_below(s, Kind::Label),
            s1.spent(s0, |k: Kind| src.count_below(s, Kind::Frame, k)),
            s2.spent(s1, |k: Kind| src.count_below(s, Kind::Object, k)),
            s3.spent(s2, |k: Kind| src.count_below(s, Kind::Classifier, k)),
            s4.spent(s3, |k: Kind| src.count_below(s, Kind::Display, k)),
            s5.spent(s4, |k: Kind| src.count_below(s, Kind::User, k)),
            s6.spent(s5, |k: Kind| src.count_below(s, Kind::Label, k)),
        ensures
            s6.filled(s0, src, s, c),
    {
        let h = s.kind.height();
        // From each step to the last, the batch has only grown.
        s6.lemma_grown_twice(s5, s4, c, h);
        s6.lemma_grown_twice(s4, s3, c, h);
        s6.lemma_grown_twice(s3, s2, c, h);
        s6.lemma_grown_twice(s2, s1, c, h);
        assert(s1.live(c) && s2.live(c) && s3.live(c) && s4.live(c) && s5.live(c));
        assert(s6.live(c));
        // The record keeps what it held.
        lemma_payload(s0.record(c), Kind::Frame, s1.children(c, Kind::Frame).len() as u32);
        lemma_payload(s1.record(c), Kind::Object, s2.children(c, Kind::Object).len() as u32);
        lemma_payload(
            s2.record(c),
            Kind::Classifier,
            s3.children(c, Kind::Classifier).len() as u32,
        );
        lemma_payload(s3.record(c), Kind::Display, s4.children(c, Kind::Display).len() as u32);
        lemma_payload(s4.record(c), Kind::User, s5.children(c, Kind::User).len() as u32);
        lemma_payload(s5.record(c), Kind::Label, s6.children(c, Kind::Label).len() as u32);
        assert(s6.record(c).uncounted() == s0.record(c).uncounted());
        // Its lists have not changed since they were filled.
        assert(s6.children(c, Kind::Frame) == s1.children(c, Kind::Frame)) by {
            assert(s2.children(c, Kind::Frame) == s1.children(c, Kind::Frame));
            assert(s3.children(c, Kind::Frame) == s2.children(c, Kind::Frame));
            assert(s4.children(c, Kind::Frame) == s3.children(c, Kind::Frame));
            assert(s5.children(c, Kind::Frame) == s4.children(c, Kind::Frame));
            assert(s6.children(c, Kind::Frame) == s5.children(c, Kind::Frame));
        }
        assert(s6.children(c, Kind::Object) == s2.children(c, Kind::Object)) by {
            assert(s3.children(c, Kind::Object) == s2.children(c, Kind::Object));
            assert(s4.children(c, Kind::Object) == s3.children(c, Kind::Object));
            assert(s5.children(c, Kind::Object) == s4.children(c, Kind::Object));
            assert(s6.children(c, Kind::Object) == s5.children(c, Kind::Object));
        }
        assert(s6.children(c, Kind::Classifier) == s3.children(c, Kind::Classifier)) by {
            assert(s4.children(c, Kind::Classifier) == s3.children(c, Kind::Classifier));
            assert(s5.children(c, Kind::Classifier) == s4.children(c, Kind::Classifier));
            assert(s6.children(c, Kind::Classifier) == s5.children(c, Kind::Classifier));
        }
        assert(s6.children(c, Kind::Display) == s4.children(c, Kind::Display)) by {
            assert(s5.children(c, Kind::Display) == s4.children(c, Kind::Display));
            assert(s6.children(c, Kind::Display) == s5.children(c, Kind::Display));
        }
        assert(s6.children(c, Kind::User) == s5.children(c, Kind::User));
        // What lies below it has not changed since it was made.
        s1.lemma_grown_keeps_below(s6, c, Kind::Frame, h);
        s2.lemma_grown_keeps_below(s6, c, Kind::Object, h);
        s3.lemma_grown_keeps_below(s6, c, Kind::Classifier, h);
        s4.lemma_grown_keeps_below(s6, c, Kind::Display, h);
        s5.lemma_grown_keeps_below(s6, c, Kind::User, h);
        assert forall|q: NodeRef| #[trigger] s6.live(q) && !s0.live(q) implies q.kind.height()
            < h by {
            if s5.live(q) {
                if s4.live(q) {
                    if s3.live(q) {
                        if s2.live(q) {
                            if s1.live(q) {
                                assert(s1.live(q) && !s0.live(q));
                            } else {
                                assert(s2.live(q) && !s1.live(q));
                            }
                        } else {
                            assert(s3.live(q) && !s2.live(q));
                        }
                    } else {
                        assert(s4.live(q) && !s3.live(q));
                    }
                } else {
                    assert(s5.live(q) && !s4.live(q));
                }
            } else {
                assert(s6.live(q) && !s5.live(q));
            }
        }
        assert forall|k: Kind| k != Kind::Batch implies (#[trigger] s6.pool(k)).free_count()
            + src.count_under(s, k) == s0.pool(k).free_count() by {
            assert(s6.pool(k).free_count() + src.count_below(s, Kind::Label, k) == s5.pool(
                k,
            ).free_count());
            assert(s5.pool(k).free_count() + src.count_below(s, Kind::User, k) == s4.pool(
                k,
            ).free_count());
            assert(s4.pool(k).free_count() + src.count_below(s, Kind::Display, k) == s3.pool(
                k,
            ).free_count());
            assert(s3.pool(k).free_count() + src.count_below(s, Kind::Classifier, k)
                == s2.pool(k).free_count());
            assert(s2.pool(k).free_count() + src.count_below(s, Kind::Object, k) == s1.pool(
                k,
            ).free_count());
            assert(s1.pool(k).free_count() + src.count_below(s, Kind::Frame, k) == s0.pool(
                k,
            ).free_count());
        }
    }

    /// Adds to the list of `at` a copy of the record `s` of `src` with
    /// everything below it, and returns the slot of the copy.
    pub(crate) fn copy_subtree(
        src: &BatchMeta,
        s: NodeRef,
        dst: &mut BatchMeta,
        at: NodeRef,
    ) -> (slot: usize)
        requires
            src.wf(),
            old(dst).wf(),
            src.live(s),
            s.kind != Kind::Batch,
            old(dst).live(at),
            at.kind.may_hold(s.kind),
            old(dst).has_room(|k: Kind| src.count(s, k)),
        ensures
            final(dst).wf(),
            final(dst).grafted(old(dst), src, s, at, slot),
        decreases s.kind.height() + 1, 2nat,
    {
        proof {
            assert(src.count(s, s.kind) >= 1);
            assert(old(dst).pool(s.kind).free_count() > 0);
            lemma_may_hold_lowers(at.kind, s.kind);
        }
        let slot = Self::plant(src, s, dst, at);
        let c = NodeRef { kind: s.kind, slot };
        let ghost s0 = *dst;
        proof {
            assert forall|k: Kind| k != Kind::Batch implies src.count_under(s, k) <= (
            #[trigger] s0.pool(k)).free_count() by {
                assert(src.count(s, k) <= old(dst).pool(k).free_count());
            }
        }
        Self::fill(src, s, dst, c);
        proof {
            let s6 = *dst;
            let h = s.kind.height();
            assert(at != c);
            old(dst).lemma_live_in_range(at);
            assert(s6.node(at) == s0.node(at));
            lemma_payload(src.record(s), Kind::Frame, 0);
            assert(s6.subtree(c) == src.subtree(s));
            assert forall|q: NodeRef| #[trigger] old(dst).live(q) implies s6.live(q) by {
                assert(s0.live(q));
            }
            assert forall|q: NodeRef| q != at && old(dst).live(q) implies #[trigger] s6.node(q)
                == old(dst).node(q) by {
                assert(s0.live(q));
                assert(q != c);
                assert(s0.node(q) == old(dst).node(q));
                assert(s6.node(q) == s0.node(q));
            }
            assert forall|q: NodeRef| #[trigger]
                s6.live(q) && !old(dst).live(q) implies q.kind.height() <= h by {
                if s0.live(q) {
                    assert(s0.live(q) && !old(dst).live(q));
                } else {
                    assert(s6.live(q) && !s0.live(q));
                }
            }
            assert forall|k: Kind| #[trigger] s6.nodes(k).len() == old(dst).nodes(k).len() by {
                assert(s0.nodes(k).len() == old(dst).nodes(k).len());
            }
            assert forall|k: Kind| k != s.kind implies #[trigger] s6.children(at, k) == old(
                dst,
            ).children(at, k) by {
                assert(s0.children(at, k) == old(dst).children(at, k));
            }
            assert forall|k: Kind| k != Kind::Batch implies (#[trigger] s6.pool(
                k,
            )).free_count() + src.count(s, k) == old(dst).pool(k).free_count() by {
                assert(s6.pool(k).free_count() + src.count_under(s, k) == s0.pool(
                    k,
                ).free_count());
                assert(s0.pool(k).free_count() + (if k == s.kind {
                    1nat
                } else {
                    0nat
                }) == old(dst).pool(k).free_count());
            }
        }
        slot
    }

    /// What lies below the children of one kind of a record does not change
    /// while the batch grows at that record, as long as the list of those
    /// children stays as it is.
    proof fn lemma_grown_keeps_below(&self, later: &BatchMeta, c: NodeRef, ck: Kind, h: nat)
        requires
            self.wf(),
            self.live(c),
            c.kind.height() == h,
            later.grown(self, c, h),
            later.children(c, ck) == self.children(c, ck),
        ensures
            later.subtrees_below(c, ck) == self.subtrees_below(c, ck),
    {
        self.lemma_subtrees_below_stable(later, c, ck);
    }
}

} // verus!
