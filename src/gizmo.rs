use vstd::prelude::*;

verus! {

/// An on-screen handle: the screen position of one vertex, tagged with that vertex's index.
#[derive(Clone, Copy, Debug)]
pub struct Gizmo<P> {
    pub vertex: usize,
    pub position: P,
}

/// The handles of the edited mesh, rebuilt whole on every camera, mesh or selection change.
pub struct GizmoSet<P> {
    pub gizmos: Vec<Gizmo<P>>,
}

/// What the host reports of one render viewport: its camera, if it has one,
/// and whether its render size is non-zero.
#[derive(Clone, Copy, Debug)]
pub struct ViewportView<C> {
    pub camera: Option<C>,
    pub has_area: bool,
}

/// A viewport whose camera can place handles.
pub open spec fn is_live<C>(v: ViewportView<C>) -> bool {
    v.camera.is_some() && v.has_area
}

/// The index of the first live viewport, if any.
pub open spec fn first_live<C>(views: Seq<ViewportView<C>>) -> Option<usize> {
    if exists|k: int| 0 <= k < views.len() && is_live(#[trigger] views[k]) {
        let k = choose|k: int|
            0 <= k < views.len() && is_live(#[trigger] views[k]) && forall|j: int|
                0 <= j < k ==> !is_live(#[trigger] views[j]);
        Some(k as usize)
    } else {
        None
    }
}

/// `gs` holds exactly one handle per vertex, in vertex order, each placed where
/// `project` may send that vertex through `camera`.
pub open spec fn projects_all<V, C, P, F: Fn(C, V) -> P>(
    project: F,
    camera: C,
    vertices: Seq<V>,
    gs: Seq<Gizmo<P>>,
) -> bool {
    &&& gs.len() == vertices.len()
    &&& forall|i: int|
        0 <= i < gs.len() ==> (#[trigger] gs[i]).vertex == i && call_ensures(
            project,
            (camera, vertices[i]),
            gs[i].position,
        )
}

/// `project` returns one value for each camera and vertex, whatever the call.
pub open spec fn deterministic<V, C, P, F: Fn(C, V) -> P>(project: F) -> bool {
    forall|c: C, v: V, a: P, b: P|
        call_ensures(project, (c, v), a) && call_ensures(project, (c, v), b) ==> a == b
}

/// `project` can be called with any camera on any vertex.
pub open spec fn callable<V, C, P, F: Fn(C, V) -> P>(project: F) -> bool {
    forall|c: C, v: V| call_requires(project, (c, v))
}

impl<P> GizmoSet<P> {
    pub open spec fn len(&self) -> nat {
        self.gizmos@.len()
    }

    pub fn new() -> (r: Self)
        ensures
            r.len() == 0,
    {
        GizmoSet { gizmos: Vec::new() }
    }

    pub fn clear(&mut self)
        ensures
            final(self).len() == 0,
    {
        self.gizmos = Vec::new();
    }

    /// Rebuilds the handles for one camera: `project` maps a vertex to the
    /// camera's viewport.
    pub fn recompute_for_camera<V: Copy, C: Copy, F: Fn(C, V) -> P>(
        &mut self,
        vertices: &Vec<V>,
        camera: C,
        project: F,
    )
        requires
            callable(project),
        ensures
            projects_all(project, camera, vertices@, final(self).gizmos@),
    {
        let mut gizmos: Vec<Gizmo<P>> = Vec::new();
        let mut i: usize = 0;
        while i < vertices.len()
            invariant
                i <= vertices.len(),
                callable(project),
                projects_all(project, camera, vertices@.subrange(0, i as int), gizmos@),
            decreases vertices.len() - i,
        {
            let position = project(camera, vertices[i]);
            gizmos.push(Gizmo { vertex: i, position });
            i += 1;
        }
        assert(vertices@.subrange(0, i as int) =~= vertices@);
        self.gizmos = gizmos;
    }

    /// Rebuilds the handles after a new selection, through the camera of the
    /// first live viewport; with none, the set is left empty. Returns that
    /// viewport's index.
    pub fn recompute<V: Copy, C: Copy, F: Fn(C, V) -> P>(
        &mut self,
        vertices: &Vec<V>,
        viewports: &Vec<ViewportView<C>>,
        project: F,
    ) -> (r: Option<usize>)
        requires
            callable(project),
        ensures
            r == first_live(viewports@),
            r is None ==> final(self).len() == 0,
            r matches Some(k) ==> projects_all(
                project,
                viewports@[k as int].camera.unwrap(),
                vertices@,
                final(self).gizmos@,
            ),
    {
        let mut k: usize = 0;
        while k < viewports.len()
            invariant
                k <= viewports.len(),
                callable(project),
                forall|j: int| 0 <= j < k ==> !is_live(#[trigger] viewports@[j]),
            decreases viewports.len() - k,
        {
            let view = viewports[k];
            if view.has_area {
                if let Some(camera) = view.camera {
                    self.recompute_for_camera(vertices, camera, project);
                    proof {
                        assert(is_live(viewports@[k as int]));
                        let c = choose|c: int|
                            0 <= c < viewports@.len() && is_live(#[trigger] viewports@[c])
                                && forall|j: int| 0 <= j < c ==> !is_live(#[trigger] viewports@[j]);
                        assert(c == k) by {
                            if c < k {
                                assert(!is_live(viewports@[c]));
                            } else if c > k {
                                assert(!is_live(viewports@[k as int]));
                            }
                        }
                    }
                    return Some(k);
                }
            }
            k += 1;
        }
        self.clear();
        None
    }
}

/// Rebuilding the handles twice with an unchanged mesh and camera gives the
/// same handles.
pub proof fn lemma_recompute_idempotent<V, C, P, F: Fn(C, V) -> P>(
    project: F,
    camera: C,
    vertices: Seq<V>,
    first: Seq<Gizmo<P>>,
    second: Seq<Gizmo<P>>,
)
    requires
        deterministic(project),
        projects_all(project, camera, vertices, first),
        projects_all(project, camera, vertices, second),
    ensures
        first == second,
{
    assert forall|i: int| 0 <= i < first.len() implies first[i] == second[i] by {
        assert(call_ensures(project, (camera, vertices[i]), first[i].position));
        assert(call_ensures(project, (camera, vertices[i]), second[i].position));
    }
    assert(first =~= second);
}

} // verus!
