use vstd::prelude::*;
use crate::build_mode::{mode_of_value, BuildMode};
use crate::gizmo::{callable, first_live, projects_all, Gizmo, GizmoSet, ViewportView};
use crate::selection::{lemma_step_keeps_wf, lemma_within_wf, InputKind, SelectionState};

verus! {

/// How a handle is drawn.
#[derive(Clone, Copy, Debug, PartialEq, Eq, Structural)]
pub enum MarkerStyle {
    Normal,
    Hovered,
    Active,
}

/// One handle to draw on the overlay.
#[derive(Clone, Copy, Debug)]
pub struct Marker<P> {
    pub position: P,
    pub style: MarkerStyle,
}

/// What the host is to do after an input event.
#[derive(Clone, Copy, Debug, PartialEq, Eq, Structural)]
pub struct InputResponse {
    /// The event is used up and goes no further.
    pub consumed: bool,
    /// The overlay is to be drawn again.
    pub redraw: bool,
    /// A vertex was grabbed: the on-screen indicator is to be placed.
    pub place_indicator: bool,
    /// The cursor moved during a drag: this vertex is to follow it.
    pub drag_vertex: Option<usize>,
}

/// The grabbed vertex wins over the hovered one.
pub open spec fn style_of(s: SelectionState, vertex: usize) -> MarkerStyle {
    if s.active_vertex_index == Some(vertex) {
        MarkerStyle::Active
    } else if s.hover_index == Some(vertex) {
        MarkerStyle::Hovered
    } else {
        MarkerStyle::Normal
    }
}

/// The vertex-picking and editing state of one tool session.
pub struct ProdotBuilderPlugin<P> {
    selected: bool,
    build_mode: BuildMode,
    selection: SelectionState,
    gizmos: GizmoSet<P>,
}

impl<P> ProdotBuilderPlugin<P> {
    #[verifier::type_invariant]
    spec fn inv(self) -> bool {
        &&& self.selection.wf(self.gizmos.len())
        &&& !self.selected ==> self.gizmos.len() == 0 && self.selection
            == SelectionState::spec_cleared()
    }

    /// A mesh is being edited.
    pub closed spec fn spec_selected(self) -> bool {
        self.selected
    }

    pub closed spec fn spec_mode(self) -> BuildMode {
        self.build_mode
    }

    pub closed spec fn spec_selection(self) -> SelectionState {
        self.selection
    }

    pub closed spec fn spec_gizmos(self) -> Seq<Gizmo<P>> {
        self.gizmos.gizmos@
    }

    /// The state with no mesh: nothing selected and no handles, mode kept.
    pub open spec fn is_idle_in(self, mode: BuildMode) -> bool {
        &&& !self.spec_selected()
        &&& self.spec_mode() == mode
        &&& self.spec_selection() == SelectionState::spec_cleared()
        &&& self.spec_gizmos().len() == 0
    }

    pub open spec fn same_as(self, other: Self) -> bool {
        &&& self.spec_selected() == other.spec_selected()
        &&& self.spec_mode() == other.spec_mode()
        &&& self.spec_selection() == other.spec_selection()
        &&& self.spec_gizmos() == other.spec_gizmos()
    }

    pub fn new() -> (r: Self)
        ensures
            r.is_idle_in(BuildMode::Vertex),
    {
        ProdotBuilderPlugin {
            selected: false,
            build_mode: BuildMode::Vertex,
            selection: SelectionState::cleared(),
            gizmos: GizmoSet::new(),
        }
    }

    fn deselect(&mut self)
        ensures
            final(self).is_idle_in(old(self).spec_mode()),
    {
        *self = ProdotBuilderPlugin {
            selected: false,
            build_mode: self.build_mode,
            selection: SelectionState::cleared(),
            gizmos: GizmoSet::new(),
        };
    }

    /// The host selected `object`; `editable` tells whether it is an editable
    /// mesh. An editable one becomes the edited mesh, handles and indices kept
    /// until the next refresh; any other ends the editing. Returns whether the
    /// handles are to be refreshed, which is so in vertex mode.
    pub fn edit(&mut self, editable: bool) -> (refresh: bool)
        ensures
            refresh == (editable && old(self).spec_mode() == BuildMode::Vertex),
            editable ==> final(self).spec_selected() && final(self).spec_mode() == old(self).spec_mode()
                && final(self).spec_selection() == old(self).spec_selection()
                && final(self).spec_gizmos() == old(self).spec_gizmos(),
            !editable ==> final(self).is_idle_in(old(self).spec_mode()),
    {
        proof {
            use_type_invariant(&*self);
        }
        if editable {
            self.selected = true;
            self.build_mode == BuildMode::Vertex
        } else {
            self.deselect();
            false
        }
    }

    /// The host asks whether the tool takes `object`; `editable` tells whether
    /// it is an editable mesh. Where it is not, the editing ends.
    pub fn handles(&mut self, editable: bool) -> (r: bool)
        ensures
            r == editable,
            editable ==> final(self).same_as(*old(self)),
            !editable ==> final(self).is_idle_in(old(self).spec_mode()),
    {
        if !editable {
            self.deselect();
        }
        editable
    }

    /// Called once a frame with the number of nodes the host has selected.
    /// Where a mesh was edited and nothing is selected any more, the editing
    /// ends; returns whether it did, and so the overlay is to be drawn again.
    pub fn process(&mut self, selected_count: usize) -> (redraw: bool)
        ensures
            redraw == (old(self).spec_selected() && selected_count == 0),
            redraw ==> final(self).is_idle_in(old(self).spec_mode()),
            !redraw ==> final(self).same_as(*old(self)),
    {
        if self.selected && selected_count == 0 {
            self.deselect();
            true
        } else {
            false
        }
    }

    /// Switches the build mode to the one that `mode` names; a value that
    /// names none selects vertex mode.
    pub fn change_build_mode(&mut self, mode: i64)
        ensures
            final(self).spec_mode() == mode_of_value(mode),
            final(self).spec_selected() == old(self).spec_selected(),
            final(self).spec_selection() == old(self).spec_selection(),
            final(self).spec_gizmos() == old(self).spec_gizmos(),
    {
        proof {
            use_type_invariant(&*self);
        }
        self.build_mode = self.build_mode.set(mode);
    }

    /// Forgets the grabbed and the hovered vertex, and ends any drag.
    pub fn reset(&mut self)
        ensures
            final(self).spec_selection() == SelectionState::spec_cleared(),
            final(self).spec_selected() == old(self).spec_selected(),
            final(self).spec_mode() == old(self).spec_mode(),
            final(self).spec_gizmos() == old(self).spec_gizmos(),
    {
        proof {
            use_type_invariant(&*self);
        }
        self.selection = SelectionState::cleared();
    }

    /// Rebuilds the handles of the edited mesh after a new selection, through
    /// the first live viewport's camera; `vertices` are the mesh's vertices
    /// in world space. Indices that no longer name a handle are dropped.
    /// Without an edited mesh nothing changes.
    pub fn refresh_gizmos<V: Copy, C: Copy, F: Fn(C, V) -> P>(
        &mut self,
        vertices: &Vec<V>,
        viewports: &Vec<ViewportView<C>>,
        project: F,
    )
        requires
            callable(project),
        ensures
            !old(self).spec_selected() ==> final(self).same_as(*old(self)),
            old(self).spec_selected() ==> {
                &&& final(self).spec_selected()
                &&& final(self).spec_mode() == old(self).spec_mode()
                &&& final(self).spec_selection() == old(self).spec_selection().spec_within(
                    final(self).spec_gizmos().len(),
                )
                &&& match first_live(viewports@) {
                    Some(k) => projects_all(
                        project,
                        viewports@[k as int].camera.unwrap(),
                        vertices@,
                        final(self).spec_gizmos(),
                    ),
                    None => final(self).spec_gizmos().len() == 0,
                }
            },
    {
        if self.selected {
            let mut gizmos = GizmoSet::new();
            gizmos.recompute(vertices, viewports, project);
            let selection = self.selection.within(gizmos.gizmos.len());
            proof {
                lemma_within_wf(self.selection, gizmos.len());
            }
            *self = ProdotBuilderPlugin {
                selected: true,
                build_mode: self.build_mode,
                selection,
                gizmos,
            };
        }
    }

    /// Rebuilds the handles of the edited mesh through the camera of the
    /// viewport that forwards input; `vertices` are the mesh's vertices in
    /// world space. Indices that no longer name a handle are dropped.
    /// Without an edited mesh nothing changes.
    pub fn refresh_gizmos_camera<V: Copy, C: Copy, F: Fn(C, V) -> P>(
        &mut self,
        vertices: &Vec<V>,
        camera: C,
        project: F,
    )
        requires
            callable(project),
        ensures
            !old(self).spec_selected() ==> final(self).same_as(*old(self)),
            old(self).spec_selected() ==> {
                &&& final(self).spec_selected()
                &&& final(self).spec_mode() == old(self).spec_mode()
                &&& final(self).spec_selection() == old(self).spec_selection().spec_within(
                    vertices@.len(),
                )
                &&& projects_all(project, camera, vertices@, final(self).spec_gizmos())
            },
    {
        if self.selected {
            let mut gizmos = GizmoSet::new();
            gizmos.recompute_for_camera(vertices, camera, project);
            let selection = self.selection.within(gizmos.gizmos.len());
            proof {
                lemma_within_wf(self.selection, gizmos.len());
            }
            *self = ProdotBuilderPlugin {
                selected: true,
                build_mode: self.build_mode,
                selection,
                gizmos,
            };
        }
    }

    /// Feeds one input event to the selection; `cancel` tells whether the
    /// event is the cancel action. Without an edited mesh nothing changes and
    /// nothing is asked of the host.
    pub fn forward_spatial_gui_input(&mut self, kind: InputKind, cancel: bool) -> (r: InputResponse)
        ensures
            final(self).spec_selected() == old(self).spec_selected(),
            final(self).spec_mode() == old(self).spec_mode(),
            final(self).spec_gizmos() == old(self).spec_gizmos(),
            !old(self).spec_selected() ==> final(self).spec_selection() == old(self).spec_selection()
                && r == (InputResponse {
                consumed: false,
                redraw: false,
                place_indicator: false,
                drag_vertex: None,
            }),
            old(self).spec_selected() ==> {
                let s = old(self).spec_selection();
                let grabs = s.spec_grabs(kind);
                &&& final(self).spec_selection() == s.spec_step(
                    kind,
                    cancel,
                    old(self).spec_gizmos().len(),
                )
                &&& r == (InputResponse {
                    consumed: grabs || cancel,
                    redraw: true,
                    place_indicator: grabs,
                    drag_vertex: if kind is Motion && !cancel && s.is_dragging {
                        s.active_vertex_index
                    } else {
                        None
                    },
                })
            },
    {
        proof {
            use_type_invariant(&*self);
        }
        if !self.selected {
            return InputResponse {
                consumed: false,
                redraw: false,
                place_indicator: false,
                drag_vertex: None,
            };
        }
        let s = self.selection;
        let grabs = match kind {
            InputKind::PrimaryButton { pressed } => pressed && s.hover_index.is_some(),
            _ => false,
        };
        let drag_vertex = match kind {
            InputKind::Motion { .. } => if !cancel && s.is_dragging {
                s.active_vertex_index
            } else {
                None
            },
            _ => None,
        };
        let next = s.step(kind, cancel, self.gizmos.gizmos.len());
        proof {
            lemma_step_keeps_wf(s, kind, cancel, self.gizmos.len());
        }
        self.selection = next;
        InputResponse { consumed: grabs || cancel, redraw: true, place_indicator: grabs, drag_vertex }
    }

    /// The handles to draw, each styled by its vertex: grabbed, hovered or normal.
    pub fn overlay_markers(&self) -> (r: Vec<Marker<P>>)
        where
            P: Copy,
        ensures
            r@.len() == self.spec_gizmos().len(),
            forall|i: int|
                0 <= i < r@.len() ==> (#[trigger] r@[i]).position == self.spec_gizmos()[i].position
                    && r@[i].style == style_of(self.spec_selection(), self.spec_gizmos()[i].vertex),
    {
        let mut markers: Vec<Marker<P>> = Vec::new();
        let n = self.gizmos.gizmos.len();
        let mut i: usize = 0;
        while i < n
            invariant
                i <= n,
                n == self.spec_gizmos().len(),
                markers@.len() == i,
                forall|j: int|
                    0 <= j < i ==> (#[trigger] markers@[j]).position == self.spec_gizmos()[j].position
                        && markers@[j].style == style_of(
                        self.spec_selection(),
                        self.spec_gizmos()[j].vertex,
                    ),
            decreases n - i,
        {
            let g = self.gizmos.gizmos[i];
            let style = if self.selection.active_vertex_index == Some(g.vertex) {
                MarkerStyle::Active
            } else if self.selection.hover_index == Some(g.vertex) {
                MarkerStyle::Hovered
            } else {
                MarkerStyle::Normal
            };
            markers.push(Marker { position: g.position, style });
            i += 1;
        }
        markers
    }

    pub fn is_selected(&self) -> (r: bool)
        ensures
            r == self.spec_selected(),
    {
        self.selected
    }

    pub fn build_mode(&self) -> (r: BuildMode)
        ensures
            r == self.spec_mode(),
    {
        self.build_mode
    }

    /// The selection as the host sees it: a drag never lacks its grabbed
    /// vertex, and each index names a handle.
    pub fn selection(&self) -> (r: SelectionState)
        ensures
            r == self.spec_selection(),
            r.wf(self.spec_gizmos().len()),
            r.is_dragging ==> r.active_vertex_index is Some,
    {
        proof {
            use_type_invariant(self);
        }
        self.selection
    }

    pub fn gizmos(&self) -> (r: &Vec<Gizmo<P>>)
        ensures
            r@ == self.spec_gizmos(),
    {
        &self.gizmos.gizmos
    }
}

} // verus!
