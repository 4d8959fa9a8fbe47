//! The CPU side of a GPU buffer cache.
//!
//! The renderer pairs every value list with a device buffer; an update
//! replaces the whole list (no partial upload).  This type is that pair's
//! cached CPU half: `data` is exactly what was last handed to the device.
//! The device half lives with the platform layer, which re-uploads whenever
//! the cached list changes.

use vstd::prelude::*;

verus! {

/// Copies a vector of plain values element by element.
pub fn copied_vec<T: Copy>(v: &Vec<T>) -> (r: Vec<T>)
    ensures
        r@ == v@,
{
    let mut r: Vec<T> = Vec::new();
    let mut i: usize = 0;
    while i < v.len()
        invariant
            0 <= i <= v.len(),
            r@ == v@.subrange(0, i as int),
        decreases v.len() - i,
    {
        r.push(v[i]);
        i = i + 1;
        proof {
            assert(r@ =~= v@.subrange(0, i as int));
        }
    }
    proof {
        assert(r@ =~= v@);
    }
    r
}

/// A buffer cache: the value list as it was last uploaded.
#[derive(Debug, Clone)]
pub struct Buffer<T> {
    /// The data stored in the buffer.
    pub data: Vec<T>,
}

impl<T> Buffer<T> {
    /// Creates a new buffer holding the given data.
    pub fn new(data: Vec<T>) -> (r: Self)
        ensures
            r.data == data,
    {
        Buffer { data }
    }

    /// Replaces the buffer's contents in place.
    pub fn update(&mut self, data: Vec<T>)
        ensures
            final(self).data == data,
    {
        self.data = data;
    }
}

} // verus!
