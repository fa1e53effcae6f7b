//! Double-precision checks of the ellipsoid model, the registry and the
//! two coordinate transforms, through a scalar newtype that implements the
//! capability traits with the native floating-point operations.

use std::f64::consts::{FRAC_PI_2, PI};

use rustsar::math::number::{AddSub, Arithmetic, Atan, Cos, FromU64, MulDiv, One, Pi, Sin, SinCos, Sqrt, Zero};
use rustsar::satorbit::ellipsoid::{Builder, EllipsoidRegistry, Transformable};

#[derive(Clone, Copy, Debug, PartialEq, PartialOrd)]
pub struct F64(pub f64);

impl std::ops::Add for F64 {
    type Output = F64;

    fn add(self, o: F64) -> F64 {
        F64(self.0 + o.0)
    }
}

impl std::ops::Sub for F64 {
    type Output = F64;

    fn sub(self, o: F64) -> F64 {
        F64(self.0 - o.0)
    }
}

impl std::ops::Mul for F64 {
    type Output = F64;

    fn mul(self, o: F64) -> F64 {
        F64(self.0 * o.0)
    }
}

impl std::ops::Div for F64 {
    type Output = F64;

    fn div(self, o: F64) -> F64 {
        F64(self.0 / o.0)
    }
}

impl Sin for F64 {
    type Output = F64;

    fn sin_spec(self) -> F64 {
        F64(self.0.sin())
    }

    fn sin(self) -> F64 {
        F64(self.0.sin())
    }
}

impl Cos for F64 {
    type Output = F64;

    fn cos_spec(self) -> F64 {
        F64(self.0.cos())
    }

    fn cos(self) -> F64 {
        F64(self.0.cos())
    }
}

impl SinCos<F64> for F64 {}

impl Atan for F64 {
    type Output = F64;

    fn atan_spec(self) -> F64 {
        F64(self.0.atan())
    }

    fn atan(self) -> F64 {
        F64(self.0.atan())
    }
}

impl Sqrt for F64 {
    type Output = F64;

    fn sqrt_spec(self) -> F64 {
        F64(self.0.sqrt())
    }

    fn sqrt(self) -> F64 {
        F64(self.0.sqrt())
    }
}

impl AddSub<F64> for F64 {
    fn add_sub_obeys() {}
}

impl MulDiv<F64> for F64 {
    fn mul_div_obeys() {}
}

impl Arithmetic<F64> for F64 {}

impl Zero<F64> for F64 {
    fn zero_spec() -> F64 {
        F64(0.0)
    }

    fn zero() -> F64 {
        F64(0.0)
    }
}

impl One<F64> for F64 {
    fn one_spec() -> F64 {
        F64(1.0)
    }

    fn one() -> F64 {
        F64(1.0)
    }
}

impl Pi<F64> for F64 {
    fn pi_spec() -> F64 {
        F64(PI)
    }

    fn pi() -> F64 {
        F64(PI)
    }
}

impl FromU64 for F64 {
    fn from_u64_spec(v: u64) -> F64 {
        F64(v as f64)
    }

    fn from_u64(v: u64) -> F64 {
        F64(v as f64)
    }
}

impl Transformable<F64> for F64 {
    fn cmp_obeys() {}
}

const WGS84_A: f64 = 6378137.0;
const WGS84_B: f64 = 6356752.3142;

fn wgs84() -> rustsar::satorbit::ellipsoid::Ellipsoid<F64> {
    Builder { a: F64(WGS84_A), b: F64(WGS84_B) }.build()
}

/// Smallest angular distance between two directions, in radians.
fn angle_distance(a: f64, b: f64) -> f64 {
    let two_pi = 2.0 * PI;
    let d = (a - b).rem_euclid(two_pi);
    d.min(two_pi - d)
}

#[test]
fn forward_at_equator_prime_meridian() {
    let e = wgs84();
    let c = e.ell_cart(F64(0.0), F64(0.0), F64(0.0));
    assert_eq!(c.x.0, WGS84_A);
    assert_eq!(c.y.0, 0.0);
    assert_eq!(c.z.0, 0.0);
}

#[test]
fn forward_at_pole() {
    let e = wgs84();
    let c = e.ell_cart(F64(0.0), F64(FRAC_PI_2), F64(0.0));
    assert!(c.x.0.abs() < 1e-8);
    assert!(c.y.0.abs() < 1e-8);
    assert!((c.z.0 - WGS84_B).abs() < 1e-6);
}

#[test]
fn registry_wgs84_lookup() {
    let reg = EllipsoidRegistry::<F64>::new();
    let e = reg.lookup("wgs84").expect("wgs84 is pre-registered");
    assert_eq!(e.a.0, 6378137.0);
    assert_eq!(e.b.0, 6356752.3142);
    let a2 = WGS84_A * WGS84_A;
    assert_eq!(e.e2.0, (a2 - WGS84_B * WGS84_B) / a2);
}

#[test]
fn registry_unknown_key_absent() {
    let reg = EllipsoidRegistry::<F64>::new();
    assert!(reg.lookup("grs80").is_none());
    assert!(reg.lookup("").is_none());
    assert!(reg.lookup("WGS84").is_none());
}

#[test]
fn builder_derives_eccentricity() {
    let e = wgs84();
    let a2 = WGS84_A * WGS84_A;
    assert_eq!(e.e2.0, (a2 - WGS84_B * WGS84_B) / a2);
    assert!(e.a2.is_none());
    assert!(e.b2.is_none());
}

#[test]
fn squared_axis_cache_is_stable() {
    let mut e = wgs84();
    assert!(e.a2.is_none());
    let first = e.a_squared();
    let cached = e.a2.expect("first access fills the cache");
    let second = e.a_squared();
    assert_eq!(first.0.to_bits(), second.0.to_bits());
    assert_eq!(e.a2.expect("still cached").0.to_bits(), cached.0.to_bits());
    let b_first = e.b_squared();
    let b_second = e.b_squared();
    assert_eq!(b_first.0.to_bits(), b_second.0.to_bits());
}

#[test]
fn inverse_fills_both_caches() {
    let mut e = wgs84();
    let _ = e.cart_ell(F64(WGS84_A), F64(10.0), F64(20.0));
    assert_eq!(e.a2.expect("cached").0, WGS84_A * WGS84_A);
    assert_eq!(e.b2.expect("cached").0, WGS84_B * WGS84_B);
}

#[test]
fn longitude_branch_adds_pi_for_negative_x() {
    let mut e = wgs84();
    let fwd = e.ell_cart(F64(2.5), F64(0.3), F64(100.0));
    assert!(fwd.x.0 < 0.0);
    let (x, y, z) = (fwd.x.0, fwd.y.0, fwd.z.0);
    let back = e.cart_ell(F64(x), F64(y), F64(z));
    let naive = (y / x).atan();
    assert_eq!(back.longitude.0, naive + PI);
}

#[test]
fn round_trip_over_grid() {
    let lons = [-3.0, -1.8, -0.9, 0.0, 0.9, 1.8, 3.0];
    let lats = [-1.5, -0.9, -0.3, 0.0, 0.3, 0.9, 1.5];
    let heights = [-1000.0, 0.0, 10000.0];
    let mut e = wgs84();
    for &lon in &lons {
        for &lat in &lats {
            for &h in &heights {
                let c = e.ell_cart(F64(lon), F64(lat), F64(h));
                let g = e.cart_ell(c.x, c.y, c.z);
                assert!(
                    angle_distance(g.longitude.0, lon) < 1e-8,
                    "lon {} lat {} h {}: got lon {}",
                    lon, lat, h, g.longitude.0
                );
                assert!(
                    (g.latitude.0 - lat).abs() < 1e-8,
                    "lon {} lat {} h {}: got lat {}",
                    lon, lat, h, g.latitude.0
                );
                assert!(
                    (g.height.0 - h).abs() < 1e-4,
                    "lon {} lat {} h {}: got height {}",
                    lon, lat, h, g.height.0
                );
            }
        }
    }
}
