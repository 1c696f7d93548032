//! The description of a scene to render: a camera, an integrator, materials
//! and placed objects, read from a JSON document and checked on the way.
//!
//! The numbers of a document are carried as bit patterns and never computed
//! with here; whoever renders the scene turns them into machine floats.

pub mod animation;
pub mod bxdf;
pub mod error;
pub mod film;
pub mod geometry;
pub mod instance;
pub mod integrator;
pub mod json;
pub mod material;
pub mod outcome;
pub mod report;
pub mod scalar;
pub mod scene;
pub mod transform;
pub mod values;
