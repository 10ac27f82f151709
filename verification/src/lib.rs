//! Exact transform algebra for a four-dimensional scene viewer.
//!
//! Poses of 4D objects and of the camera are 5x5 homogeneous matrices over
//! exact rational scalars: every matrix carries integer entries together with
//! one positive common denominator.  Rotations are given by rational points on
//! the unit circle (a cosine/sine pair with `c^2 + s^2 = d^2`), so all of the
//! algebraic facts the renderer relies on - orthogonality of composed plane
//! rotations, analytic pose inversion, the projection layout - are proved
//! exactly, with no floating-point rounding in the way.

pub mod algebra;
pub mod camera;
pub mod inverse;
pub mod laws;
pub mod matrix;
pub mod mesh;
pub mod objects;
pub mod rational;
pub mod transform4d;
