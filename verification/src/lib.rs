//! Bookkeeping for a rigid aircraft body: the triangle mesh it is made of,
//! the marker points that carry its orientation, and the rules that keep
//! mesh, markers and chase camera moving as one.
//!
//! The crate holds no arithmetic on coordinates. A point is a type
//! parameter, and every motion is handed in as a map on points, so that the
//! same code serves any vector type.
pub mod mesh;
pub mod scalar;
pub mod frame;
pub mod layout;
pub mod markers;
pub mod policy;
