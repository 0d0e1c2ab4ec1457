//! Attaching payloads to a batch, and the tags of user-defined kinds.

use crate::batch::BatchMeta;
use crate::kind::{Kind, NodeRef};
use crate::meta_type::{BaseMetaType, MetaType, START_USER_META};
use crate::record::{Record, RecordView};
use crate::user::{UserMeta, UserPayload};
use vstd::prelude::*;

verus! {

/// The largest number of names that a registry of user-defined kinds can
/// hold: one for each tag above [`START_USER_META`].
pub const MAX_USER_META_TYPES: usize = 2147475453;

/// Gives each name of a user-defined kind a tag of its own. The first name
/// that is asked for gets the first tag above [`START_USER_META`], the next
/// name the next tag, and a name that has a tag keeps it.
pub struct UserMetaTypes {
    names: Vec<String>,
}

impl UserMetaTypes {
    /// The names that have a tag, in the order of their tags.
    pub closed spec fn names(&self) -> Seq<Seq<char>> {
        Seq::new(self.names@.len(), |i: int| self.names@[i]@)
    }

    /// Validity of a registry: no name has two tags, and no tag lies
    /// beyond the largest number that a tag can be.
    pub open spec fn wf(&self) -> bool {
        &&& self.names().no_duplicates()
        &&& self.names().len() <= MAX_USER_META_TYPES
    }

    /// The tag of the name at `index`.
    pub open spec fn tag_at(index: int) -> MetaType {
        MetaType::User((START_USER_META + 1 + index) as i32)
    }

    /// A registry without names.
    pub fn new() -> (r: UserMetaTypes)
        ensures
            r.wf(),
            r.names() == Seq::<Seq<char>>::empty(),
    {
        let r = UserMetaTypes { names: Vec::new() };
        assert(r.names() =~= Seq::<Seq<char>>::empty());
        r
    }

    /// The number of names that have a tag.
    pub fn len(&self) -> (r: usize)
        ensures
            r == self.names().len(),
    {
        self.names.len()
    }

    /// The tag of `name`. A name that has none yet gets the next tag; where
    /// no tag is left, the result is the invalid kind and the registry
    /// stays as it is.
    pub fn get_user_meta_type(&mut self, name: &str) -> (r: MetaType)
        requires
            old(self).wf(),
        ensures
            final(self).wf(),
            old(self).names().contains(name@) ==> final(self).names() == old(self).names()
                && r == Self::tag_at(old(self).names().index_of(name@)),
            !old(self).names().contains(name@) && old(self).names().len() < MAX_USER_META_TYPES
                ==> final(self).names() == old(self).names().push(name@) && r == Self::tag_at(
                old(self).names().len() as int,
            ),
            !old(self).names().contains(name@) && old(self).names().len() >= MAX_USER_META_TYPES
                ==> final(self).names() == old(self).names() && r == MetaType::Base(
                BaseMetaType::InvalidMeta,
            ),
    {
        let wanted: String = name.to_owned();
        let mut i: usize = 0;
        while i < self.names.len()
            invariant
                i <= self.names@.len(),
                wanted@ == name@,
                *self == *old(self),
                self.wf(),
                forall|j: int| 0 <= j < i ==> self.names()[j] != name@,
            decreases self.names@.len() - i,
        {
            if self.names[i] == wanted {
                proof {
                    let names = self.names();
                    assert(names[i as int] == name@);
                    assert(names.contains(name@));
                    let k = names.index_of(name@);
                    assert(names[k] == name@);
                    assert(k == i);
                }
                return MetaType::User(START_USER_META + 1 + i as i32);
            }
            i += 1;
        }
        proof {
            let names = self.names();
            if names.contains(name@) {
                let k = choose|k: int| 0 <= k < names.len() && names[k] == name@;
                assert(names[k] != name@);
            }
        }
        if self.names.len() >= MAX_USER_META_TYPES {
            return MetaType::Base(BaseMetaType::InvalidMeta);
        }
        let index = self.names.len();
        self.names.push(wanted);
        proof {
            let before = old(self).names();
            let after = self.names();
            assert(after =~= before.push(name@));
            assert(after.no_duplicates());
        }
        MetaType::User(START_USER_META + 1 + index as i32)
    }
}

/// In a valid registry two names have the same tag only if they are the
/// same name.
pub proof fn lemma_tags_differ(types: &UserMetaTypes, i: int, j: int)
    requires
        types.wf(),
        0 <= i < types.names().len(),
        0 <= j < types.names().len(),
        UserMetaTypes::tag_at(i) == UserMetaTypes::tag_at(j),
    ensures
        i == j,
        types.names()[i] == types.names()[j],
        UserMetaTypes::tag_at(i).is_user_defined(),
{
}

impl UserMeta {
    /// The tag of the user-defined kind with the name `name`.
    pub fn get_user_meta_type(types: &mut UserMetaTypes, name: &str) -> (r: MetaType)
        requires
            old(types).wf(),
        ensures
            final(types).wf(),
            old(types).names().contains(name@) ==> final(types).names() == old(types).names()
                && r == UserMetaTypes::tag_at(old(types).names().index_of(name@)),
            !old(types).names().contains(name@) && old(types).names().len()
                < MAX_USER_META_TYPES ==> final(types).names() == old(types).names().push(name@)
                && r == UserMetaTypes::tag_at(old(types).names().len() as int),
            !old(types).names().contains(name@) && old(types).names().len()
                >= MAX_USER_META_TYPES ==> final(types).names() == old(types).names() && r
                == MetaType::Base(BaseMetaType::InvalidMeta),
    {
        types.get_user_meta_type(name)
    }

    /// The tag of the kind of payload that a user defines for themselves.
    pub fn user_custom_meta_type(types: &mut UserMetaTypes) -> (r: MetaType)
        requires
            old(types).wf(),
        ensures
            final(types).wf(),
            old(types).names().contains("NVIDIA.USER.CUSTOM_META"@) ==> final(types).names()
                == old(types).names() && r == UserMetaTypes::tag_at(
                old(types).names().index_of("NVIDIA.USER.CUSTOM_META"@),
            ),
            !old(types).names().contains("NVIDIA.USER.CUSTOM_META"@) && old(types).names().len()
                < MAX_USER_META_TYPES ==> final(types).names() == old(types).names().push(
                "NVIDIA.USER.CUSTOM_META"@,
            ) && r == UserMetaTypes::tag_at(old(types).names().len() as int),
            !old(types).names().contains("NVIDIA.USER.CUSTOM_META"@) && old(types).names().len()
                >= MAX_USER_META_TYPES ==> final(types).names() == old(types).names() && r
                == MetaType::Base(BaseMetaType::InvalidMeta),
    {
        types.get_user_meta_type("NVIDIA.USER.CUSTOM_META")
    }

    /// The tag of the kind of payload that holds boxes for trial runs.
    pub fn dummy_bbox_meta_type(types: &mut UserMetaTypes) -> (r: MetaType)
        requires
            old(types).wf(),
        ensures
            final(types).wf(),
            old(types).names().contains("NVIDIA.DUMMY.BBOX.META"@) ==> final(types).names()
                == old(types).names() && r == UserMetaTypes::tag_at(
                old(types).names().index_of("NVIDIA.DUMMY.BBOX.META"@),
            ),
            !old(types).names().contains("NVIDIA.DUMMY.BBOX.META"@) && old(types).names().len()
                < MAX_USER_META_TYPES ==> final(types).names() == old(types).names().push(
                "NVIDIA.DUMMY.BBOX.META"@,
            ) && r == UserMetaTypes::tag_at(old(types).names().len() as int),
            !old(types).names().contains("NVIDIA.DUMMY.BBOX.META"@) && old(types).names().len()
                >= MAX_USER_META_TYPES ==> final(types).names() == old(types).names() && r
                == MetaType::Base(BaseMetaType::InvalidMeta),
    {
        types.get_user_meta_type("NVIDIA.DUMMY.BBOX.META")
    }

    /// Takes a user record from the pool of `batch`, gives it the kind
    /// `meta_type`, and binds `meta_data` to it together with the
    /// behaviour by which the payload is copied and released with the
    /// record. Returns the slot of the record, which is in no list yet, or
    /// returns `None`, drops the payload and changes nothing where the pool
    /// has no free slot.
    pub fn new(batch: &mut BatchMeta, meta_type: MetaType, meta_data: UserPayload) -> (r: Option<
        usize,
    >)
        requires
            old(batch).wf(),
        ensures
            final(batch).wf(),
            r is Some <==> old(batch).pool(Kind::User).free_count() > 0,
            r is None ==> *final(batch) == *old(batch),
            r is Some ==> final(batch).taken(
                old(batch),
                NodeRef { kind: Kind::User, slot: r.unwrap() },
            ),
            r is Some ==> final(batch).record(NodeRef { kind: Kind::User, slot: r.unwrap() })
                == RecordView::User(UserMeta::bound(meta_type, meta_data@)),
    {
        let record = Record::User(UserMeta::with_payload(meta_type, meta_data));
        match batch.acquire_with(record) {
            Ok(slot) => Some(slot),
            Err(_) => None,
        }
    }
}

} // verus!
