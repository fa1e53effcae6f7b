//! Satellite-orbit geometry: coordinate frames and the reference ellipsoid.

pub mod cartesian;
pub mod ellipsoid;
