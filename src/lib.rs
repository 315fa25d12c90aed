//! Screen-space vertex picking and editing for an in-editor mesh builder:
//! handles projected from a mesh's vertices, hit-testing of the cursor, a
//! selection and drag state machine, and single-vertex edits. The host
//! supplies the geometry (projection, ray casts) as closures, so the state
//! kept here is independent of its numeric types.
pub mod build_mode;
pub mod gizmo;
pub mod mesh_edit;
pub mod plugin;
pub mod selection;
