use vstd::prelude::*;

verus! {

/// A point of the mesh's vertex buffer, over the host's scalar type.
#[derive(Clone, Copy, Debug)]
pub struct Point3<S> {
    pub x: S,
    pub y: S,
    pub z: S,
}

/// Why an edit of the mesh's vertex data was refused.
#[derive(Clone, Copy, Debug, PartialEq, Eq, Structural)]
pub enum EditError {
    /// The index names no vertex of the surface.
    NoSuchVertex,
}

/// Moves the vertex at `index` to the screen coordinates `(x, y)`; its depth
/// is what `depth` makes of its old depth. Every other vertex and the vertex
/// count stay as they were. On error nothing changes.
pub fn commit_vertex<S: Copy, D: Fn(S) -> S>(
    vertices: &mut Vec<Point3<S>>,
    index: usize,
    x: S,
    y: S,
    depth: D,
) -> (r: Result<(), EditError>)
    requires
        forall|z: S| call_requires(depth, (z,)),
    ensures
        r is Ok <==> index < old(vertices)@.len(),
        r is Err ==> r == Err::<(), EditError>(EditError::NoSuchVertex) && final(vertices)@
            == old(vertices)@,
        r is Ok ==> {
            &&& final(vertices)@.len() == old(vertices)@.len()
            &&& final(vertices)@[index as int].x == x
            &&& final(vertices)@[index as int].y == y
            &&& call_ensures(
                depth,
                (old(vertices)@[index as int].z,),
                final(vertices)@[index as int].z,
            )
            &&& forall|j: int|
                0 <= j < old(vertices)@.len() && j != index ==> #[trigger] final(vertices)@[j]
                    == old(vertices)@[j]
        },
{
    if index >= vertices.len() {
        return Err(EditError::NoSuchVertex);
    }
    let z = depth(vertices[index].z);
    vertices.set(index, Point3 { x, y, z });
    Ok(())
}

} // verus!
