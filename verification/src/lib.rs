//! The resolution layer of a 2-D light-transport renderer.
//!
//! A renderer of this kind finds where rays meet shapes, combines shapes by
//! union and intersection, picks the nearest of many hits, and follows
//! reflected and refracted rays down to a bounded depth. The arithmetic on
//! coordinates and on radiance is the caller's, in floating point, and is
//! handed in as functions. What is built on those functions is here: the
//! tree of shapes, the ring of a polygon, the scene and the recursion of the
//! tracer, each under a contract that says exactly what is returned for
//! whatever the caller's functions compute.

pub mod circle;
pub mod csg;
pub mod hit;
pub mod nearest;
pub mod polygon;
pub mod query;
pub mod scene;
pub mod shape;
pub mod sink;
pub mod tracer;
