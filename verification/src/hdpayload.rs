//! Derivation paths: the sequence of 32-bit indices that leads from a root
//! key to a derived key.

use vstd::prelude::*;

verus! {

/// A derivation path. Its view is the sequence of its components.
#[derive(Debug, PartialEq, Eq)]
pub struct Path {
    components: Vec<u32>,
}

impl View for Path {
    type V = Seq<u32>;

    closed spec fn view(&self) -> Seq<u32> {
        self.components@
    }
}

impl Clone for Path {
    fn clone(&self) -> (r: Path)
        ensures
            r@ == self@,
    {
        Path { components: self.to_vec() }
    }
}

impl Path {
    /// The path with the given components.
    pub fn new(components: Vec<u32>) -> (r: Path)
        ensures
            r@ == components@,
    {
        Path { components }
    }

    /// The number of components.
    pub fn len(&self) -> (r: usize)
        ensures
            r == self@.len(),
    {
        self.components.len()
    }

    /// The component at position `i`, if the path is that long.
    pub fn get(&self, i: usize) -> (r: Option<u32>)
        ensures
            r == (if i < self@.len() {
                Some(self@[i as int])
            } else {
                None
            }),
    {
        if i < self.components.len() {
            Some(self.components[i])
        } else {
            None
        }
    }

    /// The components, in order.
    pub fn to_vec(&self) -> (r: Vec<u32>)
        ensures
            r@ == self@,
    {
        let mut out: Vec<u32> = Vec::new();
        let mut i: usize = 0;
        while i < self.components.len()
            invariant
                i <= self.components.len(),
                out@ == self.components@.take(i as int),
            decreases self.components.len() - i,
        {
            out.push(self.components[i]);
            i += 1;
        }
        out
    }
}

} // verus!
