//! The core of an interactive 3D scene editor: a free-flying navigation
//! camera and a scene of geometry entities with a lazily rebuilt,
//! cached render buffer.
//!
//! Every quantity is a fixed-point scalar (see [`fx`]), so each
//! operation's result is pinned exactly by its contract: the camera's
//! integration step wraps its rotation and clamps its position, the
//! matrix derivations mirror their spec functions entry for entry, and
//! the model's cache is provably never stale.  Windowing, OpenGL and
//! file dialogs live outside; mesh parsing enters through a narrow
//! trusted boundary in [`importer`].

pub mod fx;
pub mod vec3;
pub mod point;
pub mod plane;
pub mod camera;
pub mod perm;
pub mod facets;
pub mod sketch;
pub mod block;
pub mod extrude;
pub mod wavefront;
pub mod entity;
pub mod model;
pub mod importer;
pub mod controls;
pub mod env;
pub mod environment;
pub mod menu;
pub mod laws;
