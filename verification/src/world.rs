use vstd::prelude::*;

use crate::text::{ascii_lower, chars_of, eq_ignore_ascii_case};

verus! {

/// The code point of a character after ASCII lower-casing.
fn to_ascii_lower(c: char) -> (l: u32)
    ensures
        l == ascii_lower(c),
{
    if 'A' <= c && c <= 'Z' {
        (c as u32) + 32
    } else {
        c as u32
    }
}

/// Whether two strings are equal up to ASCII case.
pub fn str_eq_ignore_ascii_case(a: &str, b: &str) -> (r: bool)
    ensures
        r == eq_ignore_ascii_case(a@, b@),
{
    let x = chars_of(a);
    let y = chars_of(b);
    if x.len() != y.len() {
        return false;
    }
    let mut i: usize = 0;
    while i < x.len()
        invariant
            x@ == a@,
            y@ == b@,
            x.len() == y.len(),
            i <= x.len(),
            forall|j: int| 0 <= j < i ==> #[trigger] ascii_lower(x@[j]) == ascii_lower(y@[j]),
        decreases x.len() - i,
    {
        if to_ascii_lower(x[i]) != to_ascii_lower(y[i]) {
            return false;
        }
        i = i + 1;
    }
    true
}

/// Whether a node of the collision file is left without a collider: nodes
/// named "floor", in any ASCII case.
pub fn should_skip_collision_node(node_name: &str) -> (skip: bool)
    ensures
        skip == eq_ignore_ascii_case(node_name@, "floor"@),
{
    str_eq_ignore_ascii_case(node_name, "floor")
}

/// The index buffer of a mesh.
#[derive(Debug)]
pub enum MeshIndices {
    U16(Vec<u16>),
    U32(Vec<u32>),
}

/// The index buffer as 32-bit indices.
pub open spec fn indices_as_u32(indices: MeshIndices) -> Seq<u32> {
    match indices {
        MeshIndices::U16(v) => v@.map_values(|i: u16| i as u32),
        MeshIndices::U32(v) => v@,
    }
}

/// The triangles of an index buffer: consecutive triples, with an
/// incomplete trailing triple left out.
pub open spec fn triangles_spec(idx: Seq<u32>, tris: Seq<[u32; 3]>) -> bool {
    &&& tris.len() == idx.len() / 3
    &&& forall|t: int|
        0 <= t < tris.len() ==> {
            &&& (#[trigger] tris[t])@[0] == idx[3 * t]
            &&& tris[t]@[1] == idx[3 * t + 1]
            &&& tris[t]@[2] == idx[3 * t + 2]
        }
}

/// Extract the triangle list of a mesh from its index buffer, if it has one.
pub fn extract_mesh_indices(indices: Option<&MeshIndices>) -> (r: Option<Vec<[u32; 3]>>)
    ensures
        match indices {
            None => r is None,
            Some(ix) => r matches Some(tris) && triangles_spec(indices_as_u32(*ix), tris@),
        },
{
    match indices {
        None => None,
        Some(ix) => {
            let ghost idx = indices_as_u32(*ix);
            let n: usize = match ix {
                MeshIndices::U16(v) => v.len(),
                MeshIndices::U32(v) => v.len(),
            };
            assert(idx.len() == n);
            let mut tris: Vec<[u32; 3]> = Vec::new();
            let mut t: usize = 0;
            while t < n / 3
                invariant
                    idx == indices_as_u32(*ix),
                    idx.len() == n,
                    t <= n / 3,
                    tris@.len() == t,
                    forall|k: int|
                        0 <= k < t ==> {
                            &&& (#[trigger] tris@[k])@[0] == idx[3 * k]
                            &&& tris@[k]@[1] == idx[3 * k + 1]
                            &&& tris@[k]@[2] == idx[3 * k + 2]
                        },
                decreases n / 3 - t,
            {
                let base = 3 * t;
                let tri: [u32; 3] = match ix {
                    MeshIndices::U16(v) => [v[base] as u32, v[base + 1] as u32, v[base + 2] as u32],
                    MeshIndices::U32(v) => [v[base], v[base + 1], v[base + 2]],
                };
                tris.push(tri);
                t = t + 1;
            }
            Some(tris)
        },
    }
}

} // verus!
