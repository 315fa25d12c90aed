use prodot_builder::gizmo::{GizmoSet, ViewportView};
use prodot_builder::mesh_edit::{commit_vertex, EditError, Point3};
use prodot_builder::plugin::{InputResponse, MarkerStyle, ProdotBuilderPlugin};
use prodot_builder::selection::{nearest_hit, InputKind, SelectionState};

type V3 = (f32, f32, f32);

/// A camera looking down -Z at the mesh, so that it fronts the mesh along +Z:
/// 100 pixels per unit, centred at (400, 300), y growing downwards.
#[derive(Clone, Copy)]
struct Cam {
    scale: f32,
}

fn project(cam: Cam, v: V3) -> (f32, f32) {
    (400.0 + v.0 * cam.scale, 300.0 - v.1 * cam.scale)
}

/// The ray through a screen position, met with the plane z = depth.
fn unproject(cam: Cam, screen: (f32, f32), depth: f32) -> V3 {
    ((screen.0 - 400.0) / cam.scale, (300.0 - screen.1) / cam.scale, depth)
}

/// The cursor's ray against each vertex's box of half-side 0.05, keyed by
/// the distance in micro-units.
fn hit_near(cam: Cam, mouse: (f32, f32)) -> impl Fn(V3) -> Option<u64> {
    move |v: V3| {
        let p = unproject(cam, mouse, v.2);
        let b = 0.05;
        if p.0 > v.0 - b && p.0 < v.0 + b && p.1 > v.1 - b && p.1 < v.1 + b && p.2 > v.2 - b && p.2 < v.2 + b {
            let d = ((p.0 - v.0).powi(2) + (p.1 - v.1).powi(2)).sqrt();
            Some((d * 1_000_000.0) as u64)
        } else {
            None
        }
    }
}

fn triangle() -> Vec<V3> {
    vec![(-1.0, -1.0, 0.0), (-1.0, 1.0, 0.0), (1.0, 1.0, 0.0)]
}

fn editing(vertices: &Vec<V3>, cam: Cam) -> ProdotBuilderPlugin<(f32, f32)> {
    let mut p = ProdotBuilderPlugin::new();
    assert!(p.edit(true));
    p.refresh_gizmos_camera(vertices, cam, project);
    p
}

fn cleared() -> SelectionState {
    SelectionState { active_vertex_index: None, hover_index: None, is_dragging: false }
}

#[test]
fn one_handle_per_vertex_in_order() {
    let cam = Cam { scale: 100.0 };
    let mut set: GizmoSet<(f32, f32)> = GizmoSet::new();
    set.recompute_for_camera(&triangle(), cam, project);
    assert_eq!(set.gizmos.len(), 3);
    for (i, g) in set.gizmos.iter().enumerate() {
        assert_eq!(g.vertex, i);
        assert_eq!(g.position, project(cam, triangle()[i]));
    }
    assert_eq!(set.gizmos[1].position, (300.0, 200.0));
}

#[test]
fn empty_mesh_has_no_handles() {
    let mut set: GizmoSet<(f32, f32)> = GizmoSet::new();
    set.recompute_for_camera(&Vec::new(), Cam { scale: 100.0 }, project);
    assert!(set.gizmos.is_empty());
}

#[test]
fn recompute_twice_gives_same_handles() {
    let cam = Cam { scale: 100.0 };
    let mut set: GizmoSet<(f32, f32)> = GizmoSet::new();
    set.recompute_for_camera(&triangle(), cam, project);
    let first: Vec<(usize, (f32, f32))> = set.gizmos.iter().map(|g| (g.vertex, g.position)).collect();
    set.recompute_for_camera(&triangle(), cam, project);
    let second: Vec<(usize, (f32, f32))> = set.gizmos.iter().map(|g| (g.vertex, g.position)).collect();
    assert_eq!(first, second);
}

#[test]
fn recompute_uses_first_live_viewport() {
    let views = vec![
        ViewportView { camera: None, has_area: true },
        ViewportView { camera: Some(Cam { scale: 10.0 }), has_area: false },
        ViewportView { camera: Some(Cam { scale: 50.0 }), has_area: true },
        ViewportView { camera: Some(Cam { scale: 100.0 }), has_area: true },
    ];
    let mut set: GizmoSet<(f32, f32)> = GizmoSet::new();
    assert_eq!(set.recompute(&triangle(), &views, project), Some(2));
    assert_eq!(set.gizmos.len(), 3);
    assert_eq!(set.gizmos[2].position, (450.0, 250.0));
}

#[test]
fn recompute_without_live_viewport_clears() {
    let cam = Cam { scale: 100.0 };
    let mut set: GizmoSet<(f32, f32)> = GizmoSet::new();
    set.recompute_for_camera(&triangle(), cam, project);
    let views = vec![ViewportView { camera: Some(cam), has_area: false }];
    assert_eq!(set.recompute(&triangle(), &views, project), None);
    assert!(set.gizmos.is_empty());
}

#[test]
fn refresh_gizmos_through_plugin() {
    let mut p: ProdotBuilderPlugin<(f32, f32)> = ProdotBuilderPlugin::new();
    let views = vec![ViewportView { camera: Some(Cam { scale: 100.0 }), has_area: true }];
    p.refresh_gizmos(&triangle(), &views, project);
    assert!(p.gizmos().is_empty());
    assert!(p.edit(true));
    p.refresh_gizmos(&triangle(), &views, project);
    assert_eq!(p.gizmos().len(), 3);
    assert_eq!(p.gizmos()[0].position, (300.0, 400.0));
}

#[test]
fn nearest_hit_picks_smallest_key() {
    let v = triangle();
    let keys = |p: V3| if p.0 < 0.0 { Some((p.1 * 10.0 + 20.0) as u64) } else { Some(15) };
    assert_eq!(nearest_hit(&v, keys), Some(0));
    assert_eq!(nearest_hit(&v, |p: V3| if p.1 > 0.0 { Some(7) } else { None }), Some(1));
    assert_eq!(nearest_hit(&v, |p: V3| if p.0 > 0.0 { Some(3) } else { Some(4) }), Some(2));
    assert_eq!(nearest_hit(&v, |_p: V3| None), None);
    assert_eq!(nearest_hit(&Vec::<V3>::new(), |_p: V3| Some(1)), None);
}

#[test]
fn overlapping_boxes_go_to_the_nearest() {
    let cam = Cam { scale: 100.0 };
    let v = vec![(0.0, 0.0, 0.0), (0.04, 0.0, 0.0), (0.03, 0.0, 0.0)];
    assert_eq!(nearest_hit(&v, hit_near(cam, project(cam, (0.035, 0.0, 0.0)))), Some(1));
    assert_eq!(nearest_hit(&v, hit_near(cam, project(cam, (0.029, 0.0, 0.0)))), Some(2));
    assert_eq!(nearest_hit(&v, hit_near(cam, project(cam, (0.001, 0.0, 0.0)))), Some(0));
}

#[test]
fn hover_then_press_grabs_vertex_one() {
    let cam = Cam { scale: 100.0 };
    let vertices = triangle();
    let mut p = editing(&vertices, cam);
    let screen = p.gizmos()[1].position;
    let mouse = (screen.0 + 2.0, screen.1 - 3.0);
    let hover = nearest_hit(&vertices, hit_near(cam, mouse));
    assert_eq!(hover, Some(1));
    let r = p.forward_spatial_gui_input(InputKind::Motion { hover }, false);
    assert_eq!(r, InputResponse { consumed: false, redraw: true, place_indicator: false, drag_vertex: None });
    assert_eq!(p.selection().hover_index, Some(1));
    let r = p.forward_spatial_gui_input(InputKind::PrimaryButton { pressed: true }, false);
    assert_eq!(r, InputResponse { consumed: true, redraw: true, place_indicator: true, drag_vertex: None });
    let s = p.selection();
    assert_eq!(s.active_vertex_index, Some(1));
    assert!(s.is_dragging);
}

#[test]
fn cursor_away_from_vertices_hovers_nothing() {
    let cam = Cam { scale: 100.0 };
    let vertices = triangle();
    let mut p = editing(&vertices, cam);
    let hover = nearest_hit(&vertices, hit_near(cam, (400.0, 300.0)));
    assert_eq!(hover, None);
    p.forward_spatial_gui_input(InputKind::Motion { hover }, false);
    assert_eq!(p.selection().hover_index, None);
    let r = p.forward_spatial_gui_input(InputKind::PrimaryButton { pressed: true }, false);
    assert!(!r.consumed);
    assert!(!r.place_indicator);
    assert!(!p.selection().is_dragging);
}

#[test]
fn release_ends_drag_and_keeps_active() {
    let mut p = editing(&triangle(), Cam { scale: 100.0 });
    p.forward_spatial_gui_input(InputKind::Motion { hover: Some(0) }, false);
    p.forward_spatial_gui_input(InputKind::PrimaryButton { pressed: true }, false);
    let r = p.forward_spatial_gui_input(InputKind::Motion { hover: Some(0) }, false);
    assert_eq!(r.drag_vertex, Some(0));
    let r = p.forward_spatial_gui_input(InputKind::PrimaryButton { pressed: false }, false);
    assert!(!r.consumed);
    let s = p.selection();
    assert!(!s.is_dragging);
    assert_eq!(s.active_vertex_index, Some(0));
    let r = p.forward_spatial_gui_input(InputKind::Motion { hover: None }, false);
    assert_eq!(r.drag_vertex, None);
}

#[test]
fn out_of_range_hover_is_a_miss() {
    let mut p = editing(&triangle(), Cam { scale: 100.0 });
    p.forward_spatial_gui_input(InputKind::Motion { hover: Some(3) }, false);
    assert_eq!(p.selection().hover_index, None);
}

#[test]
fn selection_cleared_mid_drag() {
    let mut p = editing(&triangle(), Cam { scale: 100.0 });
    p.forward_spatial_gui_input(InputKind::Motion { hover: Some(2) }, false);
    p.forward_spatial_gui_input(InputKind::PrimaryButton { pressed: true }, false);
    assert!(p.selection().is_dragging);
    assert!(!p.process(1));
    assert!(p.selection().is_dragging);
    assert!(p.process(0));
    assert_eq!(p.selection(), cleared());
    assert!(p.gizmos().is_empty());
    assert!(!p.is_selected());
    assert!(!p.process(0));
}

#[test]
fn non_editable_object_ends_editing() {
    let mut p = editing(&triangle(), Cam { scale: 100.0 });
    p.forward_spatial_gui_input(InputKind::Motion { hover: Some(1) }, false);
    p.forward_spatial_gui_input(InputKind::PrimaryButton { pressed: true }, false);
    assert!(p.handles(true));
    assert_eq!(p.selection().active_vertex_index, Some(1));
    assert!(!p.handles(false));
    assert_eq!(p.selection(), cleared());
    assert!(p.gizmos().is_empty());
    assert!(!p.is_selected());
}

#[test]
fn cancel_while_hovering_index_two() {
    let mut p = editing(&triangle(), Cam { scale: 100.0 });
    p.forward_spatial_gui_input(InputKind::Motion { hover: Some(2) }, false);
    assert_eq!(p.selection().hover_index, Some(2));
    let r = p.forward_spatial_gui_input(InputKind::Other, true);
    assert!(r.consumed);
    assert!(r.redraw);
    assert_eq!(p.selection(), cleared());
    assert_eq!(p.gizmos().len(), 3);
}

#[test]
fn input_without_mesh_does_nothing() {
    let mut p: ProdotBuilderPlugin<(f32, f32)> = ProdotBuilderPlugin::new();
    let r = p.forward_spatial_gui_input(InputKind::Other, true);
    assert_eq!(r, InputResponse { consumed: false, redraw: false, place_indicator: false, drag_vertex: None });
    assert_eq!(p.selection(), cleared());
}

#[test]
fn smaller_mesh_drops_stale_indices() {
    let cam = Cam { scale: 100.0 };
    let mut p = editing(&triangle(), cam);
    p.forward_spatial_gui_input(InputKind::Motion { hover: Some(2) }, false);
    p.forward_spatial_gui_input(InputKind::PrimaryButton { pressed: true }, false);
    p.refresh_gizmos_camera(&vec![(0.0, 0.0, 0.0)], cam, project);
    assert_eq!(p.selection(), cleared());
    assert_eq!(p.gizmos().len(), 1);
}

#[test]
fn reset_clears_indices() {
    let mut p = editing(&triangle(), Cam { scale: 100.0 });
    p.forward_spatial_gui_input(InputKind::Motion { hover: Some(1) }, false);
    p.forward_spatial_gui_input(InputKind::PrimaryButton { pressed: true }, false);
    p.reset();
    assert_eq!(p.selection(), cleared());
    assert!(p.is_selected());
}

#[test]
fn markers_styled_by_state() {
    let mut p = editing(&triangle(), Cam { scale: 100.0 });
    p.forward_spatial_gui_input(InputKind::Motion { hover: Some(0) }, false);
    p.forward_spatial_gui_input(InputKind::PrimaryButton { pressed: true }, false);
    p.forward_spatial_gui_input(InputKind::Motion { hover: Some(2) }, false);
    let m = p.overlay_markers();
    assert_eq!(m.len(), 3);
    assert_eq!(m[0].style, MarkerStyle::Active);
    assert_eq!(m[1].style, MarkerStyle::Normal);
    assert_eq!(m[2].style, MarkerStyle::Hovered);
    assert_eq!(m[2].position, (500.0, 200.0));
    p.forward_spatial_gui_input(InputKind::Motion { hover: Some(0) }, false);
    assert_eq!(p.overlay_markers()[0].style, MarkerStyle::Active);
}

fn pts() -> Vec<Point3<f32>> {
    vec![
        Point3 { x: -1.0, y: -1.0, z: 0.5 },
        Point3 { x: -1.0, y: 1.0, z: 0.25 },
        Point3 { x: 1.0, y: 1.0, z: 0.0 },
    ]
}

#[test]
fn commit_moves_only_the_target() {
    let mut v = pts();
    let origin_z = 2.0f32;
    assert_eq!(commit_vertex(&mut v, 1, 3.0, 4.0, |z: f32| origin_z + z), Ok(()));
    assert_eq!(v.len(), 3);
    assert_eq!((v[1].x, v[1].y, v[1].z), (3.0, 4.0, 2.25));
    for i in [0usize, 2] {
        assert_eq!((v[i].x, v[i].y, v[i].z), (pts()[i].x, pts()[i].y, pts()[i].z));
    }
}

#[test]
fn commit_out_of_range_is_refused() {
    let mut v = pts();
    assert_eq!(commit_vertex(&mut v, 3, 3.0, 4.0, |z: f32| z), Err(EditError::NoSuchVertex));
    assert_eq!(v.len(), 3);
    let mut empty: Vec<Point3<f32>> = Vec::new();
    assert_eq!(commit_vertex(&mut empty, 0, 0.0, 0.0, |z: f32| z), Err(EditError::NoSuchVertex));
}
