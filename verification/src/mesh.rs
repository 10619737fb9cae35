use vstd::prelude::*;

verus! {

/// The kinds of mesh a draw command can ask for; sphere meshes carry
/// their tessellation.
#[derive(Clone, Copy, PartialEq, Eq, Structural, Debug, Hash)]
pub enum MeshType {
    Square,
    Triangle,
    Cube,
    Sphere { sectors: u32, stacks: u32 },
}

impl MeshType {
    pub const DEFAULT_SPHERE_SECTORS: u32 = 12;

    pub const DEFAULT_SPHERE_STACKS: u32 = 6;

    /// A sphere with the default tessellation: 12 sectors, 6 stacks.
    pub fn default_sphere() -> (m: Self)
        ensures
            m == (MeshType::Sphere {
                sectors: Self::DEFAULT_SPHERE_SECTORS,
                stacks: Self::DEFAULT_SPHERE_STACKS,
            }),
            m == (MeshType::Sphere { sectors: 12, stacks: 6 }),
    {
        MeshType::Sphere { sectors: Self::DEFAULT_SPHERE_SECTORS, stacks: Self::DEFAULT_SPHERE_STACKS }
    }
}

/// Corner `r` (0..6) of quad `q` of a sphere with `sectors` sectors:
/// quad `q` joins ring `q / sectors` and the ring below it at sector
/// `q % sectors`, and is split into the triangles (first, second,
/// first + 1) and (second, second + 1, first + 1).
pub open spec fn sphere_corner(sectors: nat, q: nat, r: nat) -> nat {
    let first = (q / sectors) * (sectors + 1) + q % sectors;
    let second = first + sectors + 1;
    if r == 0 {
        first
    } else if r == 1 {
        second
    } else if r == 2 {
        first + 1
    } else if r == 3 {
        second
    } else if r == 4 {
        second + 1
    } else {
        first + 1
    }
}

/// The index buffer of a UV sphere: six indices per quad, quads taken
/// ring by ring and, within a ring, sector by sector.
pub open spec fn sphere_indices_spec(sectors: nat, stacks: nat) -> Seq<u32> {
    Seq::new(6 * (stacks * sectors), |n: int| sphere_corner(sectors, (n / 6) as nat, (n % 6) as nat) as u32)
}

/// Number of vertices of a UV sphere: `stacks + 1` rings of
/// `sectors + 1` vertices.
pub open spec fn sphere_vertex_count(sectors: nat, stacks: nat) -> nat {
    (stacks + 1) * (sectors + 1)
}

/// The sphere's indices fit in `u32` (no index is computed when there
/// are no quads).
pub open spec fn sphere_fits(sectors: u32, stacks: u32) -> bool {
    stacks == 0 || sectors == 0 || sphere_vertex_count(sectors as nat, stacks as nat) <= 0x1_0000_0000
}

proof fn lemma_quad_position(sectors: nat, i: nat, j: nat, r: nat)
    requires
        sectors > 0,
        j < sectors,
        r < 6,
    ensures
        ((6 * (i * sectors + j) + r) as int) / 6 == i * sectors + j,
        ((6 * (i * sectors + j) + r) as int) % 6 == r,
        ((i * sectors + j) as int) / (sectors as int) == i,
        ((i * sectors + j) as int) % (sectors as int) == j,
{
    let q = i * sectors + j;
    vstd::arithmetic::div_mod::lemma_fundamental_div_mod_converse((6 * q + r) as int, 6, q as int, r as int);
    vstd::arithmetic::div_mod::lemma_fundamental_div_mod_converse(q as int, sectors as int, i as int, j as int);
}

/// Builds the index buffer of a UV sphere with the given tessellation.
pub fn sphere_indices(sectors: u32, stacks: u32) -> (indices: Vec<u32>)
    requires
        sphere_fits(sectors, stacks),
    ensures
        indices@ == sphere_indices_spec(sectors as nat, stacks as nat),
{
    let mut indices: Vec<u32> = Vec::new();
    if sectors == 0 {
        assert(indices@ =~= sphere_indices_spec(sectors as nat, stacks as nat));
        return indices;
    }
    let ghost s = sectors as nat;
    let mut i: u32 = 0;
    let mut base: u32 = 0;
    assert((stacks as nat + 1) * (s + 1) == (stacks as nat) * (s + 1) + s + 1) by (nonlinear_arith);
    while i < stacks
        invariant
            0 < sectors,
            sphere_fits(sectors, stacks),
            s == sectors as nat,
            stacks == 0 || (stacks as nat) * (s + 1) + s + 1 <= 0x1_0000_0000,
            i <= stacks,
            base as nat == i * (s + 1),
            indices@ =~= Seq::new(6 * (i as nat * s), |n: int| sphere_corner(s, (n / 6) as nat, (n % 6) as nat) as u32),
        decreases stacks - i,
    {
        assert((i as nat + 1) * (s + 1) <= (stacks as nat) * (s + 1)) by (nonlinear_arith)
            requires i < stacks;
        assert((i as nat + 1) * (s + 1) == i * (s + 1) + s + 1) by (nonlinear_arith);
        let mut j: u32 = 0;
        while j < sectors
            invariant
                0 < sectors,
                sphere_fits(sectors, stacks),
                s == sectors as nat,
                (stacks as nat) * (s + 1) + s + 1 <= 0x1_0000_0000,
                i < stacks,
                j <= sectors,
                base as nat == i * (s + 1),
                (i as nat + 1) * (s + 1) <= (stacks as nat) * (s + 1),
                (i as nat + 1) * (s + 1) == i * (s + 1) + s + 1,
                indices@ =~= Seq::new(6 * (i as nat * s + j as nat), |n: int| sphere_corner(s, (n / 6) as nat, (n % 6) as nat) as u32),
            decreases sectors - j,
        {
            let first = base + j;
            let second = first + sectors + 1;
            let ghost prev = indices@;
            proof {
                lemma_quad_position(s, i as nat, j as nat, 0);
                lemma_quad_position(s, i as nat, j as nat, 1);
                lemma_quad_position(s, i as nat, j as nat, 2);
                lemma_quad_position(s, i as nat, j as nat, 3);
                lemma_quad_position(s, i as nat, j as nat, 4);
                lemma_quad_position(s, i as nat, j as nat, 5);
            }
            indices.push(first);
            indices.push(second);
            indices.push(first + 1);
            indices.push(second);
            indices.push(second + 1);
            indices.push(first + 1);
            assert(6 * (i * s + j + 1) == 6 * (i * s + j) + 6) by (nonlinear_arith);
            j = j + 1;
        }
        assert(i * s + s == (i + 1) * s) by (nonlinear_arith);
        base = base + sectors + 1;
        i = i + 1;
    }
    indices
}

/// Every index of a sphere's index buffer names one of its vertices,
/// and there are six indices per quad.
pub proof fn law_sphere_indices_in_range(sectors: nat, stacks: nat, n: int)
    requires
        0 <= n < sphere_indices_spec(sectors, stacks).len(),
    ensures
        sphere_corner(sectors, (n / 6) as nat, (n % 6) as nat) < sphere_vertex_count(sectors, stacks),
        sphere_indices_spec(sectors, stacks).len() == 6 * stacks * sectors,
{
    assert(6 * (stacks * sectors) == 6 * stacks * sectors) by (nonlinear_arith);
    let q = n / 6;
    assert(sectors > 0 && stacks > 0) by (nonlinear_arith)
        requires 0 <= n < 6 * (stacks * sectors);
    assert(q < stacks * sectors) by (nonlinear_arith)
        requires 0 <= n < 6 * (stacks * sectors), q == n / 6;
    let i = q / (sectors as int);
    let j = q % (sectors as int);
    assert(i < stacks) by (nonlinear_arith)
        requires q < stacks * sectors, i == q / (sectors as int), sectors > 0, q >= 0;
    assert(0 <= j < sectors) by (nonlinear_arith)
        requires j == q % (sectors as int), sectors > 0;
    assert((i + 1) * (sectors + 1) <= stacks * (sectors + 1)) by (nonlinear_arith)
        requires i + 1 <= stacks, sectors >= 0;
    assert(i * (sectors + 1) + sectors + 1 == (i + 1) * (sectors + 1)) by (nonlinear_arith);
    assert(stacks * (sectors + 1) + sectors + 1 == (stacks + 1) * (sectors + 1)) by (nonlinear_arith);
    assert(i >= 0) by (nonlinear_arith) requires q >= 0, sectors > 0, i == q / (sectors as int);
}

/// Index buffer of the unit square: two triangles over its four corners
/// (top right, bottom right, bottom left, top left).
pub open spec fn square_indices_spec() -> Seq<u32> {
    seq![0u32, 1, 3, 1, 2, 3]
}

/// Index buffer of the triangle: its three corners in order.
pub open spec fn triangle_indices_spec() -> Seq<u32> {
    seq![0u32, 1, 2]
}

/// Index buffer of the cube: six faces of four vertices each (front,
/// back, top, bottom, right, left), each face split into the triangles
/// (a, a+1, a+2) and (a+2, a+3, a) where a is its first vertex.
pub open spec fn cube_indices_spec() -> Seq<u32> {
    Seq::new(36, |n: int| {
        let a = 4 * (n / 6);
        let r = n % 6;
        (if r == 0 || r == 5 {
            a
        } else if r == 1 {
            a + 1
        } else if r == 2 || r == 3 {
            a + 2
        } else {
            a + 3
        }) as u32
    })
}

/// The square's index buffer.
pub fn square_indices() -> (indices: Vec<u32>)
    ensures
        indices@ == square_indices_spec(),
{
    let indices = vec![0u32, 1, 3, 1, 2, 3];
    assert(indices@ =~= square_indices_spec());
    indices
}

/// The triangle's index buffer.
pub fn triangle_indices() -> (indices: Vec<u32>)
    ensures
        indices@ == triangle_indices_spec(),
{
    let indices = vec![0u32, 1, 2];
    assert(indices@ =~= triangle_indices_spec());
    indices
}

/// The cube's index buffer.
pub fn cube_indices() -> (indices: Vec<u32>)
    ensures
        indices@ == cube_indices_spec(),
{
    let indices = vec![
        0u32, 1, 2, 2, 3, 0,
        4, 5, 6, 6, 7, 4,
        8, 9, 10, 10, 11, 8,
        12, 13, 14, 14, 15, 12,
        16, 17, 18, 18, 19, 16,
        20, 21, 22, 22, 23, 20,
    ];
    assert(indices@ =~= cube_indices_spec());
    indices
}

/// Face `f` of an index buffer of quads (its indices `6f .. 6f + 6`)
/// draws vertex `v`.
pub open spec fn face_uses(indices: Seq<u32>, f: int, v: int) -> bool {
    exists|r: int| 0 <= r < 6 && #[trigger] indices[6 * f + r] == v
}

/// Position of corner `v` in the cyclic order of the quad whose first
/// corner is `a`.
pub open spec fn corner(v: int, a: int) -> int {
    v - a
}

/// The triangle `(x, y, z)` of a quad starting at corner `a` goes round
/// the quad's corners in their listed cyclic order (each step forward
/// by one to three corners, once round in all), rather than against it.
pub open spec fn winds_forward(x: int, y: int, z: int, a: int) -> bool {
    let p = corner(x, a);
    let q = corner(y, a);
    let r = corner(z, a);
    &&& 0 <= p < 4 && 0 <= q < 4 && 0 <= r < 4
    &&& (q - p + 4) % 4 + (r - q + 4) % 4 + (p - r + 4) % 4 == 4
    &&& p != q && q != r && r != p
}

/// The six faces of the cube are drawn from disjoint vertices: the six
/// indices of face `f` (two triangles) use only its own corners
/// `4f .. 4f + 4`, and each of those four corners; so every one of the
/// 24 vertices is drawn. Both triangles of every face wind the same way
/// round the face's corners.
pub proof fn law_cube_faces_own_vertices()
    ensures
        cube_indices_spec().len() == 36,
        forall|n: int| 0 <= n < 36 ==> 4 * (n / 6) <= #[trigger] cube_indices_spec()[n] < 4 * (n / 6) + 4,
        forall|f: int, v: int| 0 <= f < 6 && 4 * f <= v < 4 * f + 4 ==> #[trigger] face_uses(cube_indices_spec(), f, v),
        forall|v: u32| v < 24 ==> #[trigger] cube_indices_spec().contains(v),
        forall|t: int| 0 <= t < 12 ==> #[trigger] winds_forward(
            cube_indices_spec()[3 * t] as int,
            cube_indices_spec()[3 * t + 1] as int,
            cube_indices_spec()[3 * t + 2] as int,
            4 * (t / 2),
        ),
{
    let c = cube_indices_spec();
    assert forall|n: int| 0 <= n < 36 implies 4 * (n / 6) <= #[trigger] c[n] < 4 * (n / 6) + 4 by {
        assert(0 <= n / 6 < 6);
    }
    assert forall|f: int, v: int| 0 <= f < 6 && 4 * f <= v < 4 * f + 4 implies #[trigger] face_uses(c, f, v) by {
        let r: int = if v - 4 * f == 0 { 0 } else if v - 4 * f == 1 { 1 } else if v - 4 * f == 2 { 2 } else { 4 };
        assert((6 * f + r) / 6 == f && (6 * f + r) % 6 == r);
        assert(c[6 * f + r] == v);
    }
    assert forall|v: u32| v < 24 implies #[trigger] c.contains(v) by {
        let f = v / 4;
        let r: int = if v - 4 * f == 0 { 0 } else if v - 4 * f == 1 { 1 } else if v - 4 * f == 2 { 2 } else { 4 };
        assert((6 * f + r) / 6 == f && (6 * f + r) % 6 == r);
        assert(c[6 * f + r] == v);
    }
    assert forall|t: int| 0 <= t < 12 implies #[trigger] winds_forward(
        c[3 * t] as int,
        c[3 * t + 1] as int,
        c[3 * t + 2] as int,
        4 * (t / 2),
    ) by {
        let f = t / 2;
        assert((3 * t) / 6 == f && (3 * t + 1) / 6 == f && (3 * t + 2) / 6 == f);
        if t % 2 == 0 {
            assert((3 * t) % 6 == 0 && (3 * t + 1) % 6 == 1 && (3 * t + 2) % 6 == 2);
        } else {
            assert((3 * t) % 6 == 3 && (3 * t + 1) % 6 == 4 && (3 * t + 2) % 6 == 5);
        }
    }
}

/// The square is drawn as two triangles that together use all four of
/// its corners and both wind the same way round them; the triangle mesh
/// is one triangle over its three distinct vertices.
pub proof fn law_square_and_triangle_cover_their_vertices()
    ensures
        square_indices_spec().len() == 6,
        forall|v: u32| v < 4 ==> #[trigger] square_indices_spec().contains(v),
        winds_forward(
            square_indices_spec()[0] as int,
            square_indices_spec()[1] as int,
            square_indices_spec()[2] as int,
            0,
        ),
        winds_forward(
            square_indices_spec()[3] as int,
            square_indices_spec()[4] as int,
            square_indices_spec()[5] as int,
            0,
        ),
        triangle_indices_spec().len() == 3,
        forall|v: u32| v < 3 ==> #[trigger] triangle_indices_spec().contains(v),
{
    let s = square_indices_spec();
    assert forall|v: u32| v < 4 implies #[trigger] s.contains(v) by {
        if v == 0 { assert(s[0] == v); }
        else if v == 1 { assert(s[1] == v); }
        else if v == 2 { assert(s[4] == v); }
        else { assert(s[2] == v); }
    }
    let t = triangle_indices_spec();
    assert forall|v: u32| v < 3 implies #[trigger] t.contains(v) by {
        assert(t[v as int] == v);
    }
}

/// The built-in meshes' index buffers are whole triangles over their
/// vertices: the square has 4 vertices, the triangle 3, the cube 24.
pub proof fn law_builtin_indices_in_range()
    ensures
        square_indices_spec().len() % 3 == 0,
        forall|n: int| 0 <= n < square_indices_spec().len() ==> #[trigger] square_indices_spec()[n] < 4,
        triangle_indices_spec().len() % 3 == 0,
        forall|n: int| 0 <= n < triangle_indices_spec().len() ==> #[trigger] triangle_indices_spec()[n] < 3,
        cube_indices_spec().len() % 3 == 0,
        forall|n: int| 0 <= n < cube_indices_spec().len() ==> #[trigger] cube_indices_spec()[n] < 24,
{
    assert forall|n: int| 0 <= n < cube_indices_spec().len() implies #[trigger] cube_indices_spec()[n] < 24 by {
        assert(0 <= n / 6 < 6);
    }
}

} // verus!
