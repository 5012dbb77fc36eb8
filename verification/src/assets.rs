//! The checkable part of asset loading: a cubemap wants six square faces of
//! one common size, and the sizes come back from the image decoder as plain
//! dimensions.

use vstd::prelude::*;

verus! {

/// Scans face dimensions left to right: the first face fixes the size, and
/// every face (the first included) must be square with that size. A leading
/// zero-width face leaves the size open for the next one.
pub open spec fn fold_face_size(dims: Seq<(u32, u32)>, size: u32) -> Option<u32>
    decreases dims.len(),
{
    if dims.len() == 0 {
        Some(size)
    } else {
        let s = if size == 0 {
            dims[0].0
        } else {
            size
        };
        if s == dims[0].0 && s == dims[0].1 {
            fold_face_size(dims.skip(1), s)
        } else {
            None
        }
    }
}

/// The common size of a cubemap's faces, or nothing where a face is not
/// square with the size the first face fixed.
pub fn cubemap_face_size(dims: &Vec<(u32, u32)>) -> (r: Option<u32>)
    ensures
        r == fold_face_size(dims@, 0),
{
    let mut size: u32 = 0;
    let mut i: usize = 0;
    proof {
        assert(dims@.skip(0) =~= dims@);
    }
    while i < dims.len()
        invariant
            i <= dims@.len(),
            fold_face_size(dims@, 0) == fold_face_size(dims@.skip(i as int), size),
        decreases dims@.len() - i,
    {
        proof {
            assert(dims@.skip(i as int)[0] == dims@[i as int]);
            assert(dims@.skip(i as int).skip(1) =~= dims@.skip(i + 1));
        }
        let (w, h) = dims[i];
        if size == 0 {
            size = w;
        }
        if size != w || size != h {
            return None;
        }
        i = i + 1;
    }
    proof {
        assert(dims@.skip(dims@.len() as int).len() == 0);
    }
    Some(size)
}

} // verus!
