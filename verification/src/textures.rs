use vstd::prelude::*;
use std::collections::HashMap;
use crate::FONT_TEX_ID;

verus! {

broadcast use vstd::std_specs::hash::group_hash_axioms;

/// The registry of textures the host has handed to the renderer: it maps
/// opaque texture identifiers to GPU shader-resource-view handles.
///
/// Identifiers are assigned by the registry, counting up from zero, so the
/// reserved font identifier (`FONT_TEX_ID`, the all-ones pattern) is never
/// assigned; the draw translator recognises it without a lookup.
pub struct TextureRegistry {
    entries: HashMap<u64, u64>,
    next_id: u64,
}

impl View for TextureRegistry {
    type V = Map<u64, u64>;

    closed spec fn view(&self) -> Map<u64, u64> {
        self.entries@
    }
}

impl TextureRegistry {
    /// The identifier the next registration will receive.
    pub closed spec fn next(&self) -> u64 {
        self.next_id
    }

    /// Every assigned identifier lies below the assignment counter, which
    /// never reaches the reserved font identifier.
    pub closed spec fn wf(&self) -> bool {
        &&& self.next_id <= FONT_TEX_ID
        &&& forall|k: u64| self@.contains_key(k) ==> k < self.next_id
    }

    /// An empty registry.
    pub fn new() -> (r: TextureRegistry)
        ensures
            r@ == Map::<u64, u64>::empty(),
            r.next() == 0,
            r.wf(),
    {
        TextureRegistry { entries: HashMap::new(), next_id: 0 }
    }

    /// Register a texture handle, returning the fresh identifier now bound
    /// to it. The identifier is never the reserved font identifier. `None`
    /// only when every identifier has been handed out.
    pub fn register_texture(&mut self, handle: u64) -> (r: Option<u64>)
        requires
            old(self).wf(),
        ensures
            final(self).wf(),
            match r {
                Some(id) => {
                    &&& id != FONT_TEX_ID
                    &&& id == old(self).next()
                    &&& !old(self)@.contains_key(id)
                    &&& final(self)@ == old(self)@.insert(id, handle)
                    &&& final(self).next() == old(self).next() + 1
                },
                None => {
                    &&& old(self).next() == FONT_TEX_ID
                    &&& *final(self) == *old(self)
                },
            },
    {
        if self.next_id == FONT_TEX_ID {
            return None;
        }
        let id = self.next_id;
        self.next_id = id + 1;
        self.entries.insert(id, handle);
        proof {
            assert forall|k: u64| self@.contains_key(k) implies k < self.next_id by {
                if k != id {
                    assert(old(self)@.contains_key(k));
                }
            }
        }
        Some(id)
    }

    /// Re-point an already assigned identifier at a new handle. Rejected for
    /// the reserved font identifier and for identifiers not in the registry.
    pub fn replace_texture(&mut self, id: u64, handle: u64) -> (r: bool)
        requires
            old(self).wf(),
        ensures
            final(self).wf(),
            r == (id != FONT_TEX_ID && old(self)@.contains_key(id)),
            final(self)@ == if r {
                old(self)@.insert(id, handle)
            } else {
                old(self)@
            },
            final(self).next() == old(self).next(),
    {
        if id == FONT_TEX_ID {
            return false;
        }
        if self.entries.contains_key(&id) {
            proof {
                assert(old(self)@.contains_key(id));
            }
            self.entries.insert(id, handle);
            proof {
                assert forall|k: u64| self@.contains_key(k) implies k < self.next_id by {
                    if k != id {
                        assert(old(self)@.contains_key(k));
                    } else {
                        assert(old(self)@.contains_key(id));
                    }
                }
            }
            true
        } else {
            proof {
                assert(self@ =~= old(self)@);
            }
            false
        }
    }

    /// Remove an identifier, returning the handle it was bound to, or `None`
    /// if it was not registered.
    pub fn unregister_texture(&mut self, id: u64) -> (r: Option<u64>)
        requires
            old(self).wf(),
        ensures
            final(self).wf(),
            final(self)@ == old(self)@.remove(id),
            final(self).next() == old(self).next(),
            r == if old(self)@.contains_key(id) {
                Some(old(self)@[id])
            } else {
                None::<u64>
            },
    {
        let r = self.entries.remove(&id);
        proof {
            assert forall|k: u64| self@.contains_key(k) implies k < self.next_id by {
                assert(old(self)@.contains_key(k));
            }
        }
        r
    }

    /// The handle bound to an identifier, or `None` if it is not registered.
    /// The reserved font identifier is never registered.
    pub fn lookup_texture(&self, id: u64) -> (r: Option<u64>)
        ensures
            r == if self@.contains_key(id) {
                Some(self@[id])
            } else {
                None::<u64>
            },
    {
        match self.entries.get(&id) {
            Some(h) => Some(*h),
            None => None,
        }
    }
}

} // verus!
