//! A store of scene objects shared between the application and its
//! per-frame callbacks, addressed by insertion order.

use vstd::prelude::*;

verus! {

use crate::object::Object;

/// The shared objects of an application, in insertion order.
#[derive(Debug)]
pub struct SharedObjects {
    /// The shared objects.
    pub objects: Vec<Object>,
}

impl SharedObjects {
    /// Creates an empty store.
    pub fn new() -> (r: Self)
        ensures
            r.objects@ == Seq::<Object>::empty(),
    {
        SharedObjects { objects: Vec::new() }
    }

    /// Adds an object to the store.
    pub fn add_object(&mut self, object: Object)
        ensures
            final(self).objects@ == old(self).objects@.push(object),
    {
        self.objects.push(object);
    }

    /// All shared objects.
    pub fn get_object(&self) -> (r: &Vec<Object>)
        ensures
            r == &self.objects,
    {
        &self.objects
    }

    /// All shared objects, mutably.
    pub fn get_object_mut(&mut self) -> (r: &mut Vec<Object>)
        ensures
            *r == old(self).objects,
            final(self).objects == *final(r),
    {
        &mut self.objects
    }

    /// The object at `index`, or nothing past the end.
    pub fn get_object_at(&self, index: usize) -> (r: Option<&Object>)
        ensures
            index < self.objects@.len() ==> (r matches Some(o) && *o == self.objects@[index as int]),
            index >= self.objects@.len() ==> r is None,
    {
        if index < self.objects.len() {
            Some(&self.objects[index])
        } else {
            None
        }
    }

    /// The object at `index`, mutably, or nothing past the end.
    pub fn get_object_at_mut(&mut self, index: usize) -> (r: Option<&mut Object>)
        ensures
            index < old(self).objects@.len() ==> (r matches Some(o) && *o == old(
                self,
            ).objects@[index as int] && final(self).objects@ == old(self).objects@.update(
                index as int,
                *final(o),
            )),
            index >= old(self).objects@.len() ==> r is None && *final(self) == *old(self),
    {
        if index < self.objects.len() {
            Some(&mut self.objects[index])
        } else {
            None
        }
    }
}

impl Default for SharedObjects {
    /// The default store is empty.
    fn default() -> (r: Self)
        ensures
            r.objects@ == Seq::<Object>::empty(),
    {
        SharedObjects::new()
    }
}

} // verus!
