use vstd::prelude::*;

verus! {

/// Index list of the quad drawn by the renderer: two triangles sharing an edge.
pub fn indices() -> (r: [u16; 6])
    ensures
        r@ == seq![0u16, 1, 2, 2, 3, 0],
{
    [0, 1, 2, 2, 3, 0]
}

} // verus!
