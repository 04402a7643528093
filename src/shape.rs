//! Index lists for drawing axis-aligned rectangles as pairs of triangles.
use vstd::prelude::*;

verus! {

/// The most quads whose corners a 16-bit index can reach (four corners each).
pub const MAX_QUADS: usize = 16384;

/// The six indices of quad `q`: corners 0-1-2 and 0-2-3 of its four vertices,
/// which start at `4 * q`.
pub open spec fn quad_spec(q: int) -> Seq<u16> {
    let b = 4 * q;
    seq![b as u16, (b + 1) as u16, (b + 2) as u16, b as u16, (b + 2) as u16, (b + 3) as u16]
}

/// The indices of quads `0 .. n`, one after another.
pub open spec fn quad_indices_spec(n: nat) -> Seq<u16>
    decreases n,
{
    if n == 0 {
        Seq::empty()
    } else {
        quad_indices_spec((n - 1) as nat) + quad_spec(n - 1)
    }
}

/// The index list that draws `count` rectangles whose four corners each were
/// pushed, in order, to one vertex list: two triangles per rectangle.
pub fn quad_indices(count: usize) -> (r: Vec<u16>)
    requires
        count <= MAX_QUADS,
    ensures
        r@ == quad_indices_spec(count as nat),
        r@.len() == 6 * count,
{
    let mut indices: Vec<u16> = Vec::new();
    let mut q: usize = 0;
    while q < count
        invariant
            q <= count,
            count <= MAX_QUADS,
            indices@ == quad_indices_spec(q as nat),
            indices@.len() == 6 * q,
        decreases count - q,
    {
        let base: u16 = (4 * q) as u16;
        indices.push(base);
        indices.push(base + 1);
        indices.push(base + 2);
        indices.push(base);
        indices.push(base + 2);
        indices.push(base + 3);
        assert(indices@ =~= quad_indices_spec(q as nat) + quad_spec(q as int));
        q += 1;
    }
    indices
}

} // verus!
