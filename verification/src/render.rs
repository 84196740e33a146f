use vstd::prelude::*;
use std::collections::HashMap;

verus! {

/// An image id.
/// Images are a special subcategory of texture that can be bound with image
/// bind groups, and can only be used in the fragment shader.
#[derive(Clone, Copy, Debug, Hash, PartialEq, Eq, Structural)]
pub struct ImageId(pub u64);

impl ImageId {
    /// The image id with the given raw number.
    pub fn from_raw_parts(id: u64) -> (r: Self)
        ensures
            r.0 == id,
    {
        ImageId(id)
    }

    /// The raw number of this id, as a user interface texture refers to it.
    pub fn into_raw(self) -> (r: u64)
        ensures
            r == self.0,
    {
        self.0
    }
}

/// The images registered with the render context: an image bind group for
/// every id handed out and not yet unregistered. Ids count up from 0; the
/// counter wraps around after `u64::MAX`.
pub struct ImageRegistry<T> {
    next_image_id: u64,
    images: HashMap<u64, T>,
}

impl<T> ImageRegistry<T> {
    /// The image bind groups currently registered, by raw id.
    pub closed spec fn entries(&self) -> Map<u64, T> {
        self.images@
    }

    /// The raw id that the next registration hands out.
    pub closed spec fn next_id(&self) -> u64 {
        self.next_image_id
    }

    /// Every registered id is below the next id to be handed out.
    pub open spec fn wf(&self) -> bool {
        forall|k: u64| #[trigger] self.entries().contains_key(k) ==> k < self.next_id()
    }

    /// A registry with no images, whose first id is 0.
    pub fn new() -> (r: Self)
        ensures
            r.wf(),
            r.entries() == Map::<u64, T>::empty(),
            r.next_id() == 0,
    {
        ImageRegistry { next_image_id: 0, images: HashMap::new() }
    }

    /// Registers an image bind group under a new id.
    pub fn register(&mut self, bind_group: T) -> (id: ImageId)
        ensures
            id.0 == old(self).next_id(),
            final(self).next_id() == (if old(self).next_id() == u64::MAX { 0 } else { old(self).next_id() + 1 }),
            final(self).entries() == old(self).entries().insert(id.0, bind_group),
            old(self).wf() && old(self).next_id() < u64::MAX ==> final(self).wf()
                && !old(self).entries().contains_key(id.0),
    {
        broadcast use vstd::std_specs::hash::group_hash_axioms;
        let id = self.next_image_id;
        self.next_image_id = self.next_image_id.wrapping_add(1);
        self.images.insert(id, bind_group);
        proof {
            if old(self).wf() && old(self).next_id() < u64::MAX {
                assert forall|k: u64| #[trigger] self.entries().contains_key(k) implies k < self.next_id() by {
                    if k != id {
                        assert(old(self).entries().contains_key(k));
                    }
                }
            }
        }
        ImageId(id)
    }

    /// Unregisters an image; its id stays unused.
    pub fn unregister(&mut self, image: ImageId)
        ensures
            final(self).next_id() == old(self).next_id(),
            final(self).entries() == old(self).entries().remove(image.0),
            old(self).wf() ==> final(self).wf(),
    {
        broadcast use vstd::std_specs::hash::group_hash_axioms;
        let _ = self.images.remove(&image.0);
    }

    /// The bind group of an image, if it is registered.
    pub fn get(&self, image: ImageId) -> (r: Option<&T>)
        ensures
            r == (if self.entries().contains_key(image.0) { Some(&self.entries()[image.0]) } else { None::<&T> }),
    {
        broadcast use vstd::std_specs::hash::group_hash_axioms;
        self.images.get(&image.0)
    }
}

} // verus!
