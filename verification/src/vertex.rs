//! Plain position-only vertices, built from a flat coordinate list.
//! Coordinates are carried as the bit patterns of IEEE 754 single-precision
//! numbers.

use vstd::prelude::*;

verus! {

/// A vertex holding only a position.
#[derive(Clone, Copy, Debug)]
pub struct Vertex {
    position: [u32; 3],
}

impl View for Vertex {
    type V = Seq<u32>;

    closed spec fn view(&self) -> Seq<u32> {
        self.position@
    }
}

impl Vertex {
    /// The coordinates, in x, y, z order.
    pub fn coords(&self) -> (r: [u32; 3])
        ensures
            r@ == self@,
    {
        self.position
    }

    /// A vertex at the given coordinates.
    pub fn new(x: u32, y: u32, z: u32) -> (v: Vertex)
        ensures
            v@ =~= seq![x, y, z],
    {
        Vertex { position: [x, y, z] }
    }

    /// Groups a flat coordinate list into vertices, three coordinates each.
    /// The number of coordinates must be divisible by three.
    pub fn many(verts: Vec<u32>) -> (vs: Vec<Vertex>)
        requires
            verts@.len() % 3 == 0,
        ensures
            vs@.len() == verts@.len() / 3,
            forall|i: int, j: int|
                0 <= i < vs@.len() && 0 <= j < 3 ==> (#[trigger] vs@[i]@[j]) == verts@[3 * i + j],
    {
        let vlen = verts.len();
        let n = vlen / 3;
        let mut vs: Vec<Vertex> = Vec::new();
        let mut i: usize = 0;
        while i < n
            invariant
                vlen == verts@.len(),
                n == verts@.len() / 3,
                i <= n,
                vs@.len() == i,
                forall|k: int, j: int|
                    0 <= k < i && 0 <= j < 3 ==> (#[trigger] vs@[k]@[j]) == verts@[3 * k + j],
            decreases n - i,
        {
            proof {
                assert(3 * (i as int) + 2 < verts@.len());
            }
            let v = Vertex::new(verts[3 * i], verts[3 * i + 1], verts[3 * i + 2]);
            vs.push(v);
            i = i + 1;
        }
        vs
    }
}

} // verus!
