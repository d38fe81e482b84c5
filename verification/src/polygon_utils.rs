//! Triangulation of convex polygons.
//!
//! A convex polygon with vertices `0 .. n` is drawn as a fan of
//! triangles around vertex `0`.  The index buffer is exact integer work
//! and lives here; the vertex, normal and uv buffers are built from the
//! shell's own scalars.

use vstd::prelude::*;

verus! {

/// The triangle-fan index buffer for a convex polygon of `n` vertices:
/// the triples `[0, i, i + 1]` for each `i` in `1 .. n - 1`.
pub fn fan_indices(n: usize) -> (r: Vec<u32>)
    requires
        1 <= n <= u32::MAX,
    ensures
        r@.len() == if n >= 3 {
            3 * (n - 2)
        } else {
            0
        },
        forall|k: int|
            0 <= k < r@.len() ==> #[trigger] r@[k] == if k % 3 == 0 {
                0
            } else if k % 3 == 1 {
                k / 3 + 1
            } else {
                k / 3 + 2
            },
{
    let mut indices: Vec<u32> = Vec::new();
    let mut i: usize = 1;
    while i < n - 1
        invariant
            1 <= n <= u32::MAX,
            1 <= i,
            i == 1 || i <= n - 1,
            indices@.len() == 3 * (i - 1),
            forall|k: int|
                0 <= k < indices@.len() ==> #[trigger] indices@[k] == if k % 3 == 0 {
                    0
                } else if k % 3 == 1 {
                    k / 3 + 1
                } else {
                    k / 3 + 2
                },
        decreases n - i,
    {
        indices.push(0);
        indices.push(i as u32);
        indices.push((i + 1) as u32);
        i = i + 1;
    }
    indices
}

} // verus!
