//! Mesh batching: a loaded model arrives as separate position, normal and
//! texture-coordinate arrays, and the renderer wants one interleaved vertex
//! stream. Coordinates are carried as the bit patterns of IEEE 754
//! single-precision numbers, so the batching itself is exact.

use vstd::prelude::*;

verus! {

/// One interleaved vertex: position, normal and texture coordinates, each
/// coordinate the bit pattern of a single-precision number.
#[derive(Clone, Copy, Debug, PartialEq, Eq)]
pub struct MeshVertex {
    pub position: [u32; 3],
    pub normal: [u32; 3],
    pub texture: [u32; 2],
}

/// The coordinate at `i`, or the bit pattern of zero where the array ends
/// early: a model may carry fewer normals or texture coordinates than
/// positions.
pub open spec fn coord_or_zero(v: Seq<u32>, i: int) -> u32 {
    if 0 <= i < v.len() {
        v[i]
    } else {
        0
    }
}

/// Interleaves the separate coordinate arrays of one mesh into a vertex
/// stream: one vertex for every three positions, padding missing normals
/// and texture coordinates with zero.
pub fn interleave(positions: &Vec<u32>, normals: &Vec<u32>, texcoords: &Vec<u32>) -> (verts: Vec<
    MeshVertex,
>)
    ensures
        verts@.len() == positions@.len() / 3,
        forall|i: int, j: int|
            0 <= i < verts@.len() && 0 <= j < 3 ==> (#[trigger] verts@[i].position@[j])
                == positions@[3 * i + j],
        forall|i: int, j: int|
            0 <= i < verts@.len() && 0 <= j < 3 ==> (#[trigger] verts@[i].normal@[j])
                == coord_or_zero(normals@, 3 * i + j),
        forall|i: int, j: int|
            0 <= i < verts@.len() && 0 <= j < 2 ==> (#[trigger] verts@[i].texture@[j])
                == coord_or_zero(texcoords@, 2 * i + j),
{
    let plen = positions.len();
    let n = plen / 3;
    let mut verts: Vec<MeshVertex> = Vec::new();
    let mut i: usize = 0;
    while i < n
        invariant
            plen == positions@.len(),
            n == positions@.len() / 3,
            i <= n,
            verts@.len() == i,
            forall|k: int, j: int|
                0 <= k < i && 0 <= j < 3 ==> (#[trigger] verts@[k].position@[j]) == positions@[3
                    * k + j],
            forall|k: int, j: int|
                0 <= k < i && 0 <= j < 3 ==> (#[trigger] verts@[k].normal@[j]) == coord_or_zero(
                    normals@,
                    3 * k + j,
                ),
            forall|k: int, j: int|
                0 <= k < i && 0 <= j < 2 ==> (#[trigger] verts@[k].texture@[j]) == coord_or_zero(
                    texcoords@,
                    2 * k + j,
                ),
        decreases n - i,
    {
        proof {
            assert(3 * (i as int) + 2 < positions@.len());
        }
        let p0 = positions[3 * i];
        let p1 = positions[3 * i + 1];
        let p2 = positions[3 * i + 2];
        let n0 = coord_at(normals, 3 * i);
        let n1 = coord_at(normals, 3 * i + 1);
        let n2 = coord_at(normals, 3 * i + 2);
        let t0 = coord_at(texcoords, 2 * i);
        let t1 = coord_at(texcoords, 2 * i + 1);
        let v = MeshVertex { position: [p0, p1, p2], normal: [n0, n1, n2], texture: [t0, t1] };
        verts.push(v);
        i = i + 1;
    }
    verts
}

/// The coordinate at `i`, or the bit pattern of zero past the end.
pub fn coord_at(v: &Vec<u32>, i: usize) -> (r: u32)
    ensures
        r == coord_or_zero(v@, i as int),
{
    if i < v.len() {
        v[i]
    } else {
        0
    }
}

/// One batched mesh: its interleaved vertices, its triangle indices, and
/// which material it is drawn with.
pub struct Mesh {
    pub vertices: Vec<MeshVertex>,
    pub indices: Vec<u32>,
    pub material_id: Option<usize>,
}

impl Mesh {
    /// Batches one loaded mesh from its flat coordinate arrays.
    pub fn from_arrays(
        positions: &Vec<u32>,
        normals: &Vec<u32>,
        texcoords: &Vec<u32>,
        indices: Vec<u32>,
        material_id: Option<usize>,
    ) -> (m: Mesh)
        ensures
            m.vertices@.len() == positions@.len() / 3,
            forall|i: int, j: int|
                0 <= i < m.vertices@.len() && 0 <= j < 3 ==> (
                #[trigger] m.vertices@[i].position@[j]) == positions@[3 * i + j],
            forall|i: int, j: int|
                0 <= i < m.vertices@.len() && 0 <= j < 3 ==> (#[trigger] m.vertices@[i].normal@[j])
                    == coord_or_zero(normals@, 3 * i + j),
            forall|i: int, j: int|
                0 <= i < m.vertices@.len() && 0 <= j < 2 ==> (
                #[trigger] m.vertices@[i].texture@[j]) == coord_or_zero(texcoords@, 2 * i + j),
            m.indices == indices,
            m.material_id == material_id,
    {
        let vertices = interleave(positions, normals, texcoords);
        Mesh { vertices, indices, material_id }
    }
}

/// The diffuse texture names worth loading: the materials' non-empty ones,
/// in order of appearance.
pub fn diffuse_texture_names(names: &Vec<String>) -> (r: Vec<String>)
    ensures
        r.deep_view() == names.deep_view().filter(|s: Seq<char>| s.len() != 0),
{
    let mut r: Vec<String> = Vec::new();
    let mut i: usize = 0;
    proof {
        reveal(Seq::filter);
        assert(names.deep_view().take(0) =~= Seq::<Seq<char>>::empty());
        assert(r.deep_view() =~= names.deep_view().take(0).filter(|s: Seq<char>| s.len() != 0));
    }
    while i < names.len()
        invariant
            i <= names@.len(),
            r.deep_view() == names.deep_view().take(i as int).filter(
                |s: Seq<char>| s.len() != 0,
            ),
        decreases names@.len() - i,
    {
        proof {
            reveal(Seq::filter);
            assert(names.deep_view().take(i + 1).drop_last() =~= names.deep_view().take(i as int));
            assert(names.deep_view().take(i + 1).last() == names@[i as int]@);
        }
        let name = &names[i];
        if !name.as_str().is_empty() {
            let ghost old_r = r.deep_view();
            r.push(name.clone());
            proof {
                assert(r.deep_view() =~= old_r.push(names@[i as int]@));
            }
        }
        i = i + 1;
    }
    proof {
        assert(names.deep_view().take(names@.len() as int) =~= names.deep_view());
    }
    r
}

} // verus!
