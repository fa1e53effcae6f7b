//! Generic numeric capability traits and a geodetic coordinate engine.
//!
//! The `math` module defines the small capability interfaces (square root,
//! trigonometry, constants) a scalar type must offer; the `satorbit` module
//! holds the ellipsoid model, the forward and inverse coordinate transforms
//! between Earth-centered Cartesian and geodetic coordinates, and a registry
//! of named reference ellipsoids.

pub mod math;
pub mod satorbit;
