//! Equal-area icosahedral projection core for discrete global grid systems.
//!
//! Geometry is carried in fixed point: a coordinate of [`vector::ONE`] stands
//! for 1.0, so that every containment decision is made in exact integer
//! arithmetic and can be proved. The polyhedron model, face lookup and the
//! sub-triangle resolver live here; the trigonometric parts of the projection
//! (authalic latitude, arc lengths, slice-and-dice interpolation, distortion)
//! are floating-point work done by the application around the library.
pub mod bary;
pub mod cell_id;
pub mod icosahedron;
pub mod layout;
pub mod shape;
pub mod spherical;
pub mod vector;
pub mod vgc;
pub mod zone_id;

pub use icosahedron::{new, Icosahedron, Polyhedron, PolyhedronConstants, VertexIndices};
pub use shape::{triangle, Triangle};
pub use spherical::is_point_in_face;
pub use vector::{Vector3D, ONE};
pub use vgc::{Location, Vgc};
