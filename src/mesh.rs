//! The ground plane as an unindexed triangle list of unit quads.

use vstd::prelude::*;

verus! {

/// A mesh vertex on the integer grid; `y` is the height, always 0 for the
/// flat ground plane.
#[derive(Clone, Copy, Debug, PartialEq, Eq, Structural)]
pub struct Vertex {
    pub x: u64,
    pub y: u64,
    pub z: u64,
}

#[derive(Clone, Copy, Debug, PartialEq, Eq, Structural)]
pub enum MeshError {
    /// A quad was asked for with a size of zero.
    InvalidArgument,
}

/// The point `(x, 0, z)` of the ground plane.
pub open spec fn ground(x: int, z: int) -> Vertex {
    Vertex { x: x as u64, y: 0, z: z as u64 }
}

/// The six corners of the quad whose lower corner is `(x, z)`, as two
/// triangles sharing the diagonal: bottom-left, top-right, top-left,
/// bottom-left, bottom-right, top-right.
pub open spec fn quad_spec(x: int, z: int, size: int) -> Seq<Vertex> {
    let bottom_left = ground(x, z);
    let bottom_right = ground(x + size, z);
    let top_left = ground(x, z + size);
    let top_right = ground(x + size, z + size);
    seq![bottom_left, top_right, top_left, bottom_left, bottom_right, top_right]
}

fn quad_vertices(x: u32, z: u32, size: u32) -> (r: [Vertex; 6])
    ensures
        r@ == quad_spec(x as int, z as int, size as int),
{
    let x0 = x as u64;
    let z0 = z as u64;
    let x1 = x0 + size as u64;
    let z1 = z0 + size as u64;
    let bottom_left = Vertex { x: x0, y: 0, z: z0 };
    let bottom_right = Vertex { x: x1, y: 0, z: z0 };
    let top_left = Vertex { x: x0, y: 0, z: z1 };
    let top_right = Vertex { x: x1, y: 0, z: z1 };
    let r = [bottom_left, top_right, top_left, bottom_left, bottom_right, top_right];
    assert(r@ =~= quad_spec(x as int, z as int, size as int));
    r
}

/// What `generate_quad_mesh(x, z, size)` returns.
pub open spec fn quad_result(x: u32, z: u32, size: u32, r: Result<[Vertex; 6], MeshError>) -> bool {
    match r {
        Ok(q) => size > 0 && q@ == quad_spec(x as int, z as int, size as int),
        Err(e) => size == 0 && e == MeshError::InvalidArgument,
    }
}

/// The quad of side `size` at grid cell `(x, z)`; a size of zero is refused.
pub fn generate_quad_mesh(x: u32, z: u32, size: u32) -> (r: Result<[Vertex; 6], MeshError>)
    ensures
        quad_result(x, z, size, r),
{
    if size == 0 {
        Err(MeshError::InvalidArgument)
    } else {
        Ok(quad_vertices(x, z, size))
    }
}

/// The quads of row `x`, for the cells `(x, 0)` up to `(x, count - 1)`.
pub open spec fn row_spec(x: int, count: nat) -> Seq<Vertex>
    decreases count,
{
    if count == 0 {
        Seq::empty()
    } else {
        row_spec(x, (count - 1) as nat) + quad_spec(x, count - 1, 1)
    }
}

/// The first `rows` rows, each `n` cells long, of the clip grid of size `n`.
pub open spec fn rows_spec(n: nat, rows: nat) -> Seq<Vertex>
    decreases rows,
{
    if rows == 0 {
        Seq::empty()
    } else {
        rows_spec(n, (rows - 1) as nat) + row_spec(rows - 1, n)
    }
}

/// The clip grid of size `n`: unit quads for every cell, rows in `x` outer,
/// cells in `z` inner.
pub open spec fn clip_mesh_spec(n: nat) -> Seq<Vertex> {
    rows_spec(n, n)
}

pub proof fn lemma_row_len(x: int, count: nat)
    ensures
        row_spec(x, count).len() == 6 * count,
    decreases count,
{
    if count > 0 {
        lemma_row_len(x, (count - 1) as nat);
    }
}

pub proof fn lemma_rows_len(n: nat, rows: nat)
    ensures
        rows_spec(n, rows).len() == 6 * n * rows,
    decreases rows,
{
    if rows > 0 {
        let prev = (rows - 1) as nat;
        lemma_rows_len(n, prev);
        lemma_row_len(prev as int, n);
        assert(rows_spec(n, rows) == rows_spec(n, prev) + row_spec(prev as int, n));
        assert(6 * n * prev + 6 * n == 6 * n * rows) by (nonlinear_arith)
            requires
                prev + 1 == rows,
        ;
    } else {
        assert(6 * n * rows == 0) by (nonlinear_arith)
            requires
                rows == 0,
        ;
    }
}

fn append_quad(v: &mut Vec<Vertex>, q: &[Vertex; 6])
    ensures
        final(v)@ == old(v)@ + q@,
{
    let ghost start = v@;
    let mut k: usize = 0;
    while k < 6
        invariant
            k <= 6,
            q@.len() == 6,
            v@ == start + q@.subrange(0, k as int),
        decreases 6 - k,
    {
        v.push(q[k]);
        k = k + 1;
        assert(v@ =~= start + q@.subrange(0, k as int));
    }
    assert(q@.subrange(0, 6) =~= q@);
}

/// The clip grid of size `size`: for every cell `(x, z)` with `x` and `z`
/// below `size`, the unit quad at that cell, `x` outer and `z` inner.
pub fn create_terrain_clipmesh(size: u32) -> (r: Vec<Vertex>)
    ensures
        r@ == clip_mesh_spec(size as nat),
        r@.len() == 6 * size * size,
{
    let mut vertex_buffer: Vec<Vertex> = Vec::new();
    let mut x: u32 = 0;
    while x < size
        invariant
            x <= size,
            vertex_buffer@ == rows_spec(size as nat, x as nat),
        decreases size - x,
    {
        let mut z: u32 = 0;
        while z < size
            invariant
                x < size,
                z <= size,
                vertex_buffer@ == rows_spec(size as nat, x as nat) + row_spec(x as int, z as nat),
            decreases size - z,
        {
            let quad = quad_vertices(x, z, 1);
            append_quad(&mut vertex_buffer, &quad);
            z = z + 1;
            assert(vertex_buffer@ =~= rows_spec(size as nat, x as nat) + row_spec(x as int, z as nat));
        }
        x = x + 1;
    }
    proof {
        lemma_clip_mesh_len(size as nat);
    }
    vertex_buffer
}

/// Two quads asked for with the same arguments are the same.
pub proof fn lemma_quad_deterministic(
    x: u32,
    z: u32,
    size: u32,
    r1: Result<[Vertex; 6], MeshError>,
    r2: Result<[Vertex; 6], MeshError>,
)
    requires
        quad_result(x, z, size, r1),
        quad_result(x, z, size, r2),
    ensures
        r1 == r2,
{
    if size > 0 {
        let q1 = r1->Ok_0;
        let q2 = r2->Ok_0;
        assert(q1@ == q2@);
        assert(q1 =~= q2);
    }
}

/// The clip grid of size `n` has six vertices for each of its `n * n` cells.
pub proof fn lemma_clip_mesh_len(n: nat)
    ensures
        clip_mesh_spec(n).len() == 6 * n * n,
{
    lemma_rows_len(n, n);
}

} // verus!
