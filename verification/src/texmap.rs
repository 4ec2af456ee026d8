//! The textures of the backend, stored under egui's texture ids.
use std::collections::HashMap;

use vstd::prelude::*;

use crate::image::ImageDelta;
use crate::texdelta::{delta_applicable, single_delta, single_delta_outcome, slot_ref, DeltaAction};
use crate::TexAndData;

verus! {

broadcast use vstd::std_specs::hash::group_hash_axioms;

/// The id of a texture: one egui manages, or one the user registered.
#[derive(Clone, Copy, PartialEq, Eq, Structural, Debug)]
pub enum TexId {
    Managed(u64),
    User(u64),
}

/// The stored textures, keyed by id.
pub struct TexMap<H> {
    managed: HashMap<u64, TexAndData<H>>,
    user: HashMap<u64, TexAndData<H>>,
}

impl<H> TexMap<H> {
    /// The textures stored, by id.
    pub closed spec fn entries(&self) -> Map<TexId, TexAndData<H>> {
        Map::new(
            |id: TexId|
                match id {
                    TexId::Managed(k) => self.managed@.contains_key(k),
                    TexId::User(k) => self.user@.contains_key(k),
                },
            |id: TexId|
                match id {
                    TexId::Managed(k) => self.managed@[k],
                    TexId::User(k) => self.user@[k],
                },
        )
    }

    /// An empty map.
    pub fn new() -> (r: TexMap<H>)
        ensures
            r.entries() == Map::<TexId, TexAndData<H>>::empty(),
    {
        let r = TexMap { managed: HashMap::new(), user: HashMap::new() };
        assert(r.entries() =~= Map::<TexId, TexAndData<H>>::empty());
        r
    }

    /// The texture stored under `id`, if any.
    pub fn get(&self, id: TexId) -> (r: Option<&TexAndData<H>>)
        ensures
            r == slot_ref(&self.entries().get(id)),
    {
        match id {
            TexId::Managed(k) => self.managed.get(&k),
            TexId::User(k) => self.user.get(&k),
        }
    }

    /// Removes and returns the texture stored under `id`; the others stay.
    pub fn take(&mut self, id: TexId) -> (r: Option<TexAndData<H>>)
        ensures
            r == old(self).entries().get(id),
            final(self).entries() == old(self).entries().remove(id),
    {
        let r = match id {
            TexId::Managed(k) => self.managed.remove(&k),
            TexId::User(k) => self.user.remove(&k),
        };
        assert(self.entries() =~= old(self).entries().remove(id));
        r
    }

    /// Stores `t` under `id` and returns what was stored there before; the
    /// others stay.
    pub fn put(&mut self, id: TexId, t: TexAndData<H>) -> (r: Option<TexAndData<H>>)
        ensures
            r == old(self).entries().get(id),
            final(self).entries() == old(self).entries().insert(id, t),
    {
        let r = match id {
            TexId::Managed(k) => self.managed.insert(k, t),
            TexId::User(k) => self.user.insert(k, t),
        };
        assert(self.entries() =~= old(self).entries().insert(id, t));
        r
    }

    /// Applies one texture update to the texture stored under `id` (see
    /// `single_delta`); no other texture changes.
    pub fn apply_delta(&mut self, id: TexId, delta: &ImageDelta) -> (r: DeltaAction)
        requires
            delta_applicable(slot_ref(&old(self).entries().get(id)), *delta),
        ensures
            single_delta_outcome(old(self).entries().get(id), *delta, r, final(self).entries().get(id)),
            final(self).entries().remove(id) == old(self).entries().remove(id),
    {
        let mut slot = self.take(id);
        let r = single_delta(&mut slot, delta);
        match slot {
            Some(t) => {
                self.put(id, t);
            },
            None => {},
        }
        proof {
            assert(self.entries().remove(id) =~= old(self).entries().remove(id));
        }
        r
    }

    /// Removes the textures stored under `ids` (egui frees them after the
    /// frame that used them was drawn); the others stay.
    pub fn free(&mut self, ids: &Vec<TexId>)
        ensures
            final(self).entries() == old(self).entries().remove_keys(ids@.to_set()),
    {
        let mut i: usize = 0;
        while i < ids.len()
            invariant
                i <= ids@.len(),
                self.entries() == old(self).entries().remove_keys(ids@.take(i as int).to_set()),
            decreases ids@.len() - i,
        {
            let id = ids[i];
            self.take(id);
            proof {
                assert(ids@.take(i + 1) =~= ids@.take(i as int).push(id));
                ids@.take(i as int).lemma_push_to_set_commute(id);
                assert(self.entries() =~= old(self).entries().remove_keys(ids@.take(i + 1).to_set()));
            }
            i = i + 1;
        }
        proof {
            assert(ids@.take(ids@.len() as int) =~= ids@);
        }
    }
}

} // verus!
