//! The decisions of a small ray tracer, proved.
//!
//! A picture is made by casting a ray through every pixel, finding what the
//! ray meets first, and summing up the light that comes back from there,
//! along the reflected and the refracted ray too. The arithmetic of that is
//! done in single precision by whoever uses this library; what is decided
//! on the numbers is decided here: which crossing is seen, which media meet
//! at it, whether a point lies in shadow, which terms of the light count,
//! how long a ray is followed, and where a colour lands in the picture.
//!
//! Scalars are carried as IEEE-754 single-precision bit patterns (`u32`), so
//! that every comparison, ordering and selection is a statement about
//! integers.
pub mod camera;
pub mod canvas;
pub mod computations;
pub mod cube;
pub mod intersections;
pub mod lights;
pub mod materials;
pub mod matrice;
pub mod patterns;
pub mod planes;
pub mod practice;
pub mod rays;
pub mod scalar;
pub mod shape;
pub mod spheres;
pub mod text;
pub mod tracer;
pub mod transformations;
pub mod tuple;
pub mod world;
