use vstd::prelude::*;

verus! {

/// One vertex attribute: shader location, number of float components,
/// byte offset in its buffer's element, and whether it advances once
/// per instance rather than once per vertex.
#[derive(Clone, Copy, PartialEq, Eq, Structural, Debug)]
pub struct AttributeLayout {
    pub location: u32,
    pub components: i32,
    pub offset: i32,
    pub per_instance: bool,
}

/// The per-vertex attributes: position (3 floats at byte 0) and texture
/// coordinates (2 floats at byte 12).
pub open spec fn vertex_layout_spec() -> Seq<AttributeLayout> {
    seq![
        AttributeLayout { location: 0, components: 3, offset: 0, per_instance: false },
        AttributeLayout { location: 1, components: 2, offset: 12, per_instance: false },
    ]
}

/// The per-instance attributes: the four columns of the model matrix
/// (4 floats each at bytes 0, 16, 32, 48, locations 2 to 5) and the
/// tint (3 floats at byte 64, location 6).
pub open spec fn instance_layout_spec() -> Seq<AttributeLayout> {
    Seq::new(5, |i: int|
        if i < 4 {
            AttributeLayout { location: (2 + i) as u32, components: 4, offset: (16 * i) as i32, per_instance: true }
        } else {
            AttributeLayout { location: 6, components: 3, offset: 64, per_instance: true }
        })
}

/// The per-vertex attribute layout of mesh vertex buffers.
pub fn vertex_layout() -> (l: Vec<AttributeLayout>)
    ensures
        l@ == vertex_layout_spec(),
{
    let l = vec![
        AttributeLayout { location: 0, components: 3, offset: 0, per_instance: false },
        AttributeLayout { location: 1, components: 2, offset: 12, per_instance: false },
    ];
    assert(l@ =~= vertex_layout_spec());
    l
}

/// The per-instance attribute layout of instance buffers.
pub fn instance_layout() -> (l: Vec<AttributeLayout>)
    ensures
        l@ == instance_layout_spec(),
{
    let mut l: Vec<AttributeLayout> = Vec::new();
    let mut i: u32 = 0;
    while i < 4
        invariant
            i <= 4,
            l@ =~= instance_layout_spec().subrange(0, i as int),
        decreases 4 - i,
    {
        l.push(AttributeLayout { location: 2 + i, components: 4, offset: (i * 16) as i32, per_instance: true });
        i = i + 1;
    }
    l.push(AttributeLayout { location: 6, components: 3, offset: 64, per_instance: true });
    assert(l@ =~= instance_layout_spec());
    l
}

/// Some attribute of `layout` reads `components` floats at byte
/// `offset` into shader location `location`.
pub open spec fn has_attribute(layout: Seq<AttributeLayout>, location: u32, components: int, offset: int) -> bool {
    exists|i: int|
        0 <= i < layout.len() && layout[i].location == location && layout[i].components == components
            && layout[i].offset == offset
}

/// Column `k` of the model matrix (`k < 4`) occupies bytes `16k` to
/// `16k + 16` of the instance record and is read, as 4 floats, at
/// location `2 + k`: every 4-float instance attribute reads the column
/// its location names, and each column has one. The tint (3 floats
/// after the matrix, at byte 64) is read at location 6. Per vertex, the
/// position (3 floats at byte 0) is read at location 0 and the texture
/// coordinates at location 1, right after the position's 12 bytes.
pub proof fn law_locations_match_offsets()
    ensures
        forall|i: int|
            0 <= i < instance_layout_spec().len() && #[trigger] instance_layout_spec()[i].components == 4
                ==> instance_layout_spec()[i].location as int - 2 == instance_layout_spec()[i].offset / 16
                && instance_layout_spec()[i].offset % 16 == 0 && instance_layout_spec()[i].per_instance,
        forall|k: int| 0 <= k < 4 ==> #[trigger] has_attribute(instance_layout_spec(), (2 + k) as u32, 4, 16 * k),
        has_attribute(instance_layout_spec(), 6, 3, 64),
        forall|i: int| 0 <= i < instance_layout_spec().len() ==> #[trigger] instance_layout_spec()[i].per_instance,
        forall|i: int| 0 <= i < vertex_layout_spec().len() ==> !#[trigger] vertex_layout_spec()[i].per_instance,
        vertex_layout_spec().len() == 2,
        vertex_layout_spec()[0].location == 0 && vertex_layout_spec()[0].offset == 0
            && vertex_layout_spec()[0].components == 3,
        vertex_layout_spec()[1].location == 1 && vertex_layout_spec()[1].components == 2
            && vertex_layout_spec()[1].offset == vertex_layout_spec()[0].offset + 4 * vertex_layout_spec()[0].components,
{
    assert forall|k: int| 0 <= k < 4 implies #[trigger] has_attribute(instance_layout_spec(), (2 + k) as u32, 4, 16 * k) by {
        assert(instance_layout_spec()[k].location == 2 + k);
    }
    assert(instance_layout_spec()[4].location == 6);
}

/// The instance attributes use distinct locations, none shared with
/// the vertex attributes, and their byte ranges do not overlap within
/// the 80-byte instance record (a 64-byte matrix and a 16-byte tint).
pub proof fn law_layouts_disjoint()
    ensures
        forall|i: int, j: int|
            0 <= i < j < instance_layout_spec().len() ==> #[trigger] instance_layout_spec()[i].location
                != #[trigger] instance_layout_spec()[j].location,
        forall|i: int, j: int|
            0 <= i < instance_layout_spec().len() && 0 <= j < vertex_layout_spec().len()
                ==> #[trigger] instance_layout_spec()[i].location != #[trigger] vertex_layout_spec()[j].location,
        forall|i: int, j: int|
            0 <= i < j < instance_layout_spec().len() ==> #[trigger] instance_layout_spec()[i].offset + 4
                * instance_layout_spec()[i].components <= #[trigger] instance_layout_spec()[j].offset,
        forall|i: int|
            0 <= i < instance_layout_spec().len() ==> #[trigger] instance_layout_spec()[i].offset + 4
                * instance_layout_spec()[i].components <= 80,
{
}

} // verus!
