use vstd::prelude::*;

verus! {

/// The triangles among a mesh's faces, in order; a face with any other
/// number of corners is left out.
pub open spec fn triangles_of(faces: Seq<Vec<u32>>) -> Seq<(u32, u32, u32)>
    decreases faces.len(),
{
    if faces.len() == 0 {
        seq![]
    } else {
        let rest = triangles_of(faces.drop_last());
        let f = faces.last()@;
        if f.len() == 3 {
            rest.push((f[0], f[1], f[2]))
        } else {
            rest
        }
    }
}

/// Builds the index buffer of a mesh from its faces, keeping the faces that
/// are triangles and dropping the others.
pub fn triangle_faces(faces: &Vec<Vec<u32>>) -> (r: Vec<(u32, u32, u32)>)
    ensures
        r@ == triangles_of(faces@),
{
    let mut r: Vec<(u32, u32, u32)> = Vec::new();
    let n = faces.len();
    let mut i: usize = 0;
    while i < n
        invariant
            n == faces@.len(),
            i <= n,
            r@ == triangles_of(faces@.subrange(0, i as int)),
        decreases n - i,
    {
        let f = &faces[i];
        assert(faces@.subrange(0, i + 1).drop_last() =~= faces@.subrange(0, i as int));
        if f.len() == 3 {
            r.push((f[0], f[1], f[2]));
        }
        i = i + 1;
    }
    assert(faces@.subrange(0, n as int) =~= faces@);
    r
}

} // verus!
