use vstd::prelude::*;

use crate::error::Error;
use crate::types::BodyType;

verus! {

/// Every triangle corner names one of the `vertex_count` vertices.
pub open spec fn indices_in_range(indices: Seq<i32>, vertex_count: int) -> bool {
    forall|i: int| 0 <= i < indices.len() ==> 0 <= #[trigger] indices[i] < vertex_count
}

/// The index layout of a triangle mesh is acceptable: at least three vertices, a whole,
/// non-empty list of triangles, counts that fit in `i32`, corners that name existing vertices,
/// and, when per-triangle material indices are given, exactly one per triangle.
pub open spec fn mesh_topology_valid(
    vertex_count: int,
    indices: Seq<i32>,
    material_index_count: Option<usize>,
) -> bool {
    &&& 3 <= vertex_count <= i32::MAX
    &&& indices.len() > 0
    &&& indices.len() % 3 == 0
    &&& indices.len() / 3 <= i32::MAX
    &&& indices_in_range(indices, vertex_count)
    &&& (material_index_count matches Some(n) ==> n == indices.len() / 3)
}

/// Checks the index layout of a triangle mesh (its vertex positions are checked with the
/// geometry) and returns the triangle count.
pub fn validate_mesh_topology(vertex_count: usize, indices: &[i32], material_index_count: Option<
    usize,
>) -> (r: Result<usize, Error>)
    ensures
        mesh_topology_valid(vertex_count as int, indices@, material_index_count) ==> r == Ok::<
            usize,
            Error,
        >((indices@.len() / 3) as usize),
        !mesh_topology_valid(vertex_count as int, indices@, material_index_count) ==> r == Err::<
            usize,
            Error,
        >(Error::InvalidArgument),
        material_index_count matches Some(n) ==> (n != indices@.len() / 3 ==> r == Err::<usize, Error>(
            Error::InvalidArgument,
        )),
        r matches Ok(t) ==> t == indices@.len() / 3 && indices@.len() == 3 * t,
{
    let triangle_count = indices.len() / 3;
    if vertex_count < 3 || vertex_count > i32::MAX as usize || indices.len() == 0 || indices.len()
        % 3 != 0 || triangle_count > i32::MAX as usize {
        return Err(Error::InvalidArgument);
    }
    if let Some(n) = material_index_count {
        if n != triangle_count {
            return Err(Error::InvalidArgument);
        }
    }
    let mut i: usize = 0;
    while i < indices.len()
        invariant
            i <= indices@.len(),
            vertex_count <= i32::MAX,
            forall|j: int| 0 <= j < i ==> 0 <= #[trigger] indices@[j] < vertex_count,
        decreases indices@.len() - i,
    {
        let index = indices[i];
        if index < 0 || index as usize >= vertex_count {
            return Err(Error::InvalidArgument);
        }
        i = i + 1;
    }
    Ok(triangle_count)
}

/// The sample layout of a height field is acceptable: at least two rows and two columns, a
/// sample count that fits in `i32` and equals rows times columns, and, when per-cell material
/// indices are given, exactly one per cell.
pub open spec fn height_field_layout_valid(
    row_count: int,
    column_count: int,
    height_count: int,
    material_index_count: Option<usize>,
) -> bool {
    &&& row_count >= 2
    &&& column_count >= 2
    &&& row_count * column_count <= i32::MAX
    &&& height_count == row_count * column_count
    &&& (material_index_count matches Some(n) ==> n == (row_count - 1) * (column_count - 1))
}

/// Checks the sample layout of a height field (its heights and scale are checked with the
/// geometry) and returns the number of cells.
pub fn validate_height_field_layout(
    row_count: i32,
    column_count: i32,
    height_count: usize,
    material_index_count: Option<usize>,
) -> (r: Result<usize, Error>)
    ensures
        height_field_layout_valid(row_count as int, column_count as int, height_count as int, material_index_count)
            ==> r == Ok::<usize, Error>(((row_count - 1) * (column_count - 1)) as usize),
        !height_field_layout_valid(row_count as int, column_count as int, height_count as int, material_index_count)
            ==> r == Err::<usize, Error>(Error::InvalidArgument),
        height_count != row_count * column_count ==> r == Err::<usize, Error>(Error::InvalidArgument),
        material_index_count matches Some(n) ==> (n != (row_count - 1) * (column_count - 1) ==> r
            == Err::<usize, Error>(Error::InvalidArgument)),
        r is Ok ==> height_count == row_count * column_count,
{
    if row_count < 2 || column_count < 2 {
        return Err(Error::InvalidArgument);
    }
    let rows = row_count as usize;
    let columns = column_count as usize;
    if rows > i32::MAX as usize / columns {
        proof {
            assert(rows * columns > i32::MAX) by (nonlinear_arith)
                requires
                    rows > (i32::MAX as usize) / columns,
                    columns >= 2,
            ;
        }
        return Err(Error::InvalidArgument);
    }
    proof {
        assert(rows * columns <= i32::MAX) by (nonlinear_arith)
            requires
                rows <= (i32::MAX as usize) / columns,
                columns >= 2,
        ;
        assert((rows - 1) * (columns - 1) <= rows * columns) by (nonlinear_arith)
            requires
                rows >= 2,
                columns >= 2,
        ;
    }
    if height_count != rows * columns {
        return Err(Error::InvalidArgument);
    }
    let cell_count = (rows - 1) * (columns - 1);
    if let Some(n) = material_index_count {
        if n != cell_count {
            return Err(Error::InvalidArgument);
        }
    }
    Ok(cell_count)
}

/// Mesh, height-field and compound shapes can only be attached to static bodies.
pub fn check_static_body(body_type: BodyType) -> (r: Result<(), Error>)
    ensures
        r == (if body_type == BodyType::Static {
            Ok::<(), Error>(())
        } else {
            Err::<(), Error>(Error::InvalidArgument)
        }),
{
    match body_type {
        BodyType::Static => Ok(()),
        _ => Err(Error::InvalidArgument),
    }
}

/// Checks the child count of a compound under construction against the engine's limit of
/// `max_child_shapes`: a compound holds fewer children than the limit.
pub fn check_compound_child_capacity(child_count: usize, max_child_shapes: usize) -> (r: Result<
    (),
    Error,
>)
    ensures
        r == (if child_count < max_child_shapes {
            Ok::<(), Error>(())
        } else {
            Err::<(), Error>(Error::InvalidArgument)
        }),
{
    if child_count < max_child_shapes {
        Ok(())
    } else {
        Err(Error::InvalidArgument)
    }
}

/// Checks the surface materials given for a mesh child of a compound: at least one, at most
/// `max_materials`, and exactly as many as the mesh has material slots.
pub fn check_compound_mesh_materials(
    material_count: usize,
    mesh_material_count: usize,
    max_materials: usize,
) -> (r: Result<(), Error>)
    ensures
        r == (if 0 < material_count <= max_materials && material_count == mesh_material_count {
            Ok::<(), Error>(())
        } else {
            Err::<(), Error>(Error::InvalidArgument)
        }),
{
    if material_count == 0 || material_count > max_materials || material_count
        != mesh_material_count {
        Err(Error::InvalidArgument)
    } else {
        Ok(())
    }
}

/// Decides whether a compound builder can build: an error it recorded while children were
/// added (the latest one) is reported first, then the child limit is checked, and an empty
/// compound is refused.
pub fn check_compound_build(
    pending_error: Option<Error>,
    child_count: usize,
    max_child_shapes: usize,
) -> (r: Result<(), Error>)
    ensures
        r == (match pending_error {
            Some(e) => Err::<(), Error>(e),
            None => if child_count >= max_child_shapes || child_count == 0 {
                Err::<(), Error>(Error::InvalidArgument)
            } else {
                Ok::<(), Error>(())
            },
        }),
{
    if let Some(error) = pending_error {
        return Err(error);
    }
    check_compound_child_capacity(child_count, max_child_shapes)?;
    if child_count == 0 {
        return Err(Error::InvalidArgument);
    }
    Ok(())
}

/// Per-triangle material indices never change which meshes are accepted except by their count:
/// with them, a mesh is accepted exactly when it is accepted without them and there is one
/// material index per triangle, no fewer and no more.
pub proof fn lemma_mesh_materials_one_per_triangle(vertex_count: int, indices: Seq<i32>, n: usize)
    ensures
        mesh_topology_valid(vertex_count, indices, Some(n)) <==> (mesh_topology_valid(
            vertex_count,
            indices,
            None,
        ) && 3 * n == indices.len()),
        n < indices.len() / 3 ==> !mesh_topology_valid(vertex_count, indices, Some(n)),
{
}

/// Per-cell material indices never change which height fields are accepted except by their
/// count: with them, a layout is accepted exactly when it is accepted without them and there is
/// one material index per cell of the `(rows - 1) x (columns - 1)` grid, no fewer and no more.
pub proof fn lemma_height_field_materials_one_per_cell(
    row_count: int,
    column_count: int,
    height_count: int,
    n: usize,
)
    ensures
        height_field_layout_valid(row_count, column_count, height_count, Some(n)) <==> (
        height_field_layout_valid(row_count, column_count, height_count, None) && n == (row_count - 1)
            * (column_count - 1)),
        n < (row_count - 1) * (column_count - 1) ==> !height_field_layout_valid(
            row_count,
            column_count,
            height_count,
            Some(n),
        ),
{
}

/// A height-field layout names exactly one sample per grid point: an accepted layout has
/// `rows * columns` samples, so of two sample counts for the same grid at most one is accepted,
/// and a count above or below `rows * columns` is refused.
pub proof fn lemma_height_field_samples_exact(
    row_count: int,
    column_count: int,
    height_count: int,
    other_height_count: int,
    material_index_count: Option<usize>,
)
    ensures
        height_field_layout_valid(row_count, column_count, height_count, material_index_count)
            ==> height_count == row_count * column_count,
        height_field_layout_valid(row_count, column_count, height_count, material_index_count)
            && height_field_layout_valid(row_count, column_count, other_height_count, material_index_count)
            ==> height_count == other_height_count,
        height_count != row_count * column_count ==> !height_field_layout_valid(
            row_count,
            column_count,
            height_count,
            material_index_count,
        ),
{
}

} // verus!
