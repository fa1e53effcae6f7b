//! The reference ellipsoid and the transforms between geodetic and
//! Earth-centered Cartesian coordinates.
//!
//! The scalar type is abstract: every arithmetic and trigonometric step is
//! taken through the capability traits of `crate::math::number`, and every
//! contract states the result as the exact composition of the corresponding
//! specification counterparts.  The inverse transform is the classical
//! Bowring approximation, a single fixed-point refinement of a parametric
//! angle; no validation is performed on degenerate inputs (a zero `x`, a
//! point on the polar axis), whose results are whatever the scalar's own
//! operations yield there.

use vstd::prelude::*;
use core::cmp::Ordering;
use vstd::std_specs::ops::{AddSpec, SubSpec, MulSpec, DivSpec};
use vstd::std_specs::cmp::PartialOrdSpec;
use crate::math::number::{Sqrt, Atan, SinCos, Arithmetic, AddSub, MulDiv, Zero, One, Pi, FromU64};
use crate::satorbit::cartesian;

verus! {

/// A location as longitude and latitude in radians and height above the
/// ellipsoid surface, in the linear unit of the axes.
#[derive(Clone, Copy)]
pub struct Coordinate<T> {
    pub longitude: T,
    pub latitude: T,
    pub height: T,
}

/// A reference ellipsoid: the semi-major axis `a`, the semi-minor axis `b`,
/// the squared eccentricity `e2`, fixed at construction as `(a² − b²)/a²`,
/// and the two squared axes, computed on first use and cached from then on.
#[derive(Clone, Copy)]
pub struct Ellipsoid<T> {
    pub a: T,
    pub b: T,
    pub a2: Option<T>,
    pub b2: Option<T>,
    pub e2: T,
}

/// Everything a scalar must offer to run the coordinate transforms: square
/// root, inverse tangent, the four operators, sine and cosine, the three
/// named constants, copy-by-value semantics and an order.
///
/// An implementor must show that its order obeys the vstd comparison
/// specification, so the longitude branch of the inverse transform is
/// pinned by `partial_cmp_spec`.
pub trait Transformable<T>:
    Sqrt<Output = T>
    + Atan<Output = T>
    + Arithmetic<T>
    + SinCos<T>
    + Zero<T>
    + One<T>
    + Pi<T>
    + Copy
    + PartialOrd
{
    proof fn cmp_obeys()
        ensures
            Self::obeys_partial_cmp_spec(),
    ;
}

/// The squared eccentricity derived at construction: `(a² − b²) / a²`.
pub open spec fn eccentricity2_spec<T: Arithmetic<T>>(a: T, b: T) -> T {
    a.mul_spec(a).sub_spec(b.mul_spec(b)).div_spec(a.mul_spec(a))
}

/// The squared semi-major axis an operation uses: the cached value where
/// one is present, else `a·a`.
pub open spec fn cached_a2_spec<T: MulDiv<T>>(e: Ellipsoid<T>) -> T {
    match e.a2 {
        Some(v) => v,
        None => e.a.mul_spec(e.a),
    }
}

/// The squared semi-minor axis an operation uses: the cached value where
/// one is present, else `b·b`.
pub open spec fn cached_b2_spec<T: MulDiv<T>>(e: Ellipsoid<T>) -> T {
    match e.b2 {
        Some(v) => v,
        None => e.b.mul_spec(e.b),
    }
}

/// The prime-vertical radius of the forward transform:
/// `N = a / sqrt(1 − e2·sin²(lat))`.
pub open spec fn prime_vertical_spec<T: Transformable<T>>(a: T, e2: T, lat: T) -> T {
    a.div_spec(
        T::one_spec().sub_spec(e2.mul_spec(lat.sin_spec()).mul_spec(lat.sin_spec())).sqrt_spec(),
    )
}

/// The x coordinate of the forward transform: `(N + h)·cos(lat)·cos(lon)`.
pub open spec fn forward_x_spec<T: Transformable<T>>(a: T, e2: T, lon: T, lat: T, h: T) -> T {
    prime_vertical_spec(a, e2, lat).add_spec(h).mul_spec(lat.cos_spec()).mul_spec(lon.cos_spec())
}

/// The y coordinate of the forward transform: `(N + h)·cos(lat)·sin(lon)`.
pub open spec fn forward_y_spec<T: Transformable<T>>(a: T, e2: T, lon: T, lat: T, h: T) -> T {
    prime_vertical_spec(a, e2, lat).add_spec(h).mul_spec(lat.cos_spec()).mul_spec(lon.sin_spec())
}

/// The z coordinate of the forward transform: `((1 − e2)·N + h)·sin(lat)`.
pub open spec fn forward_z_spec<T: Transformable<T>>(a: T, e2: T, lat: T, h: T) -> T {
    T::one_spec().sub_spec(e2).mul_spec(prime_vertical_spec(a, e2, lat)).add_spec(h).mul_spec(
        lat.sin_spec(),
    )
}

/// The once-refined parametric angle of the Bowring approximation, which
/// the inverse transform returns as the latitude.
pub open spec fn parametric_angle_spec<T: Transformable<T>>(
    a: T,
    b: T,
    a2: T,
    b2: T,
    x: T,
    y: T,
    z: T,
) -> T {
    let n = a2.sub_spec(b2);
    let p = x.mul_spec(x).add_spec(y.mul_spec(y)).sqrt_spec();
    let o = a.div_spec(p).div_spec(b).mul_spec(z).atan_spec();
    let so = o.sin_spec();
    let co = o.cos_spec();
    z.add_spec(n.div_spec(b).mul_spec(so).mul_spec(so).mul_spec(so)).div_spec(
        p.sub_spec(n.div_spec(a).mul_spec(co).mul_spec(co).mul_spec(co)),
    ).atan_spec()
}

/// The latitude the inverse transform returns for `e` at `(x, y, z)`.
pub open spec fn inverse_latitude_spec<T: Transformable<T>>(
    e: Ellipsoid<T>,
    x: T,
    y: T,
    z: T,
) -> T {
    parametric_angle_spec(e.a, e.b, cached_a2_spec(e), cached_b2_spec(e), x, y, z)
}

/// Whether `x` lies on the negative side of the prime plane, by the
/// scalar's own order.
pub open spec fn x_negative_spec<T: Transformable<T>>(x: T) -> bool {
    x.partial_cmp_spec(&T::zero_spec()) == Some(Ordering::Less)
}

/// The longitude the inverse transform returns: the naive inverse tangent
/// of `y/x`, shifted by exactly pi where `x` is negative.
pub open spec fn inverse_longitude_spec<T: Transformable<T>>(x: T, y: T) -> T {
    let naive = y.div_spec(x).atan_spec();
    if x_negative_spec(x) {
        naive.add_spec(T::pi_spec())
    } else {
        naive
    }
}

/// The height the inverse transform returns: `p/cos(o) − N` for the refined
/// angle `o` and `N = a² / sqrt(a²·cos²(o) + b²·sin²(o))`.
pub open spec fn inverse_height_spec<T: Transformable<T>>(e: Ellipsoid<T>, x: T, y: T, z: T) -> T {
    let a2 = cached_a2_spec(e);
    let b2 = cached_b2_spec(e);
    let p = x.mul_spec(x).add_spec(y.mul_spec(y)).sqrt_spec();
    let o = parametric_angle_spec(e.a, e.b, a2, b2, x, y, z);
    let so = o.sin_spec();
    let co = o.cos_spec();
    let n = a2.div_spec(a2.mul_spec(co).mul_spec(co).add_spec(b2.mul_spec(so).mul_spec(so)).sqrt_spec());
    p.div_spec(co).sub_spec(n)
}

impl<T: Arithmetic<T>> Ellipsoid<T> {
    /// Well-formedness: `e2` is exactly the derived squared eccentricity,
    /// and each squared-axis cache, where filled, holds the square of its
    /// axis.
    pub open spec fn wf(self) -> bool {
        &&& self.e2 == eccentricity2_spec(self.a, self.b)
        &&& match self.a2 {
            Some(v) => v == self.a.mul_spec(self.a),
            None => true,
        }
        &&& match self.b2 {
            Some(v) => v == self.b.mul_spec(self.b),
            None => true,
        }
    }

    /// The squared semi-major axis: computed and cached on the first
    /// access, returned from the cache on every later one.
    pub fn a_squared(&mut self) -> (r: T)
        ensures
            r == cached_a2_spec(*old(self)),
            *final(self) == (Ellipsoid { a2: Some(r), ..*old(self) }),
            old(self).wf() ==> final(self).wf(),
    {
        match self.a2 {
            Some(v) => v,
            None => {
                proof {
                    T::mul_div_obeys();
                }
                let v = self.a * self.a;
                self.a2 = Some(v);
                v
            },
        }
    }

    /// The squared semi-minor axis: computed and cached on the first
    /// access, returned from the cache on every later one.
    pub fn b_squared(&mut self) -> (r: T)
        ensures
            r == cached_b2_spec(*old(self)),
            *final(self) == (Ellipsoid { b2: Some(r), ..*old(self) }),
            old(self).wf() ==> final(self).wf(),
    {
        match self.b2 {
            Some(v) => v,
            None => {
                proof {
                    T::mul_div_obeys();
                }
                let v = self.b * self.b;
                self.b2 = Some(v);
                v
            },
        }
    }
}

impl<T: Transformable<T>> Ellipsoid<T> {
    /// The inverse transform, Cartesian to geodetic, by the Bowring
    /// approximation: one refinement of the parametric angle, never more.
    /// The first call fills both squared-axis caches; later calls reuse
    /// them unchanged.
    pub fn cart_ell(&mut self, x: T, y: T, z: T) -> (c: Coordinate<T>)
        ensures
            final(self).a == old(self).a,
            final(self).b == old(self).b,
            final(self).e2 == old(self).e2,
            final(self).a2 == Some(cached_a2_spec(*old(self))),
            final(self).b2 == Some(cached_b2_spec(*old(self))),
            old(self).wf() ==> final(self).wf(),
            c.latitude == inverse_latitude_spec(*old(self), x, y, z),
            c.longitude == inverse_longitude_spec::<T>(x, y),
            c.height == inverse_height_spec(*old(self), x, y, z),
    {
        proof {
            T::add_sub_obeys();
            T::mul_div_obeys();
            T::cmp_obeys();
        }
        let a2 = self.a_squared();
        let b2 = self.b_squared();

        let n = a2 - b2;
        let p = (x * x + y * y).sqrt();

        let o = (self.a / p / self.b * z).atan();
        let so = o.sin();
        let co = o.cos();

        let o = ((z + n / self.b * so * so * so) / (p - n / self.a * co * co * co)).atan();
        let so = o.sin();
        let co = o.cos();

        let n = a2 / (a2 * co * co + b2 * so * so).sqrt();

        let mut lon: T = (y / x).atan();
        let zero = T::zero();
        if x < zero {
            lon = lon + T::pi();
        }

        Coordinate::<T> { latitude: o, longitude: lon, height: p / co - n }
    }

    /// The forward transform, geodetic to Cartesian: the closed formula
    /// over the prime-vertical radius, with no failure path.
    pub fn ell_cart(&self, lon: T, lat: T, h: T) -> (c: cartesian::Coordinate<T>)
        ensures
            c.x == forward_x_spec(self.a, self.e2, lon, lat, h),
            c.y == forward_y_spec(self.a, self.e2, lon, lat, h),
            c.z == forward_z_spec(self.a, self.e2, lat, h),
    {
        proof {
            T::add_sub_obeys();
            T::mul_div_obeys();
        }
        let sin_lat = lat.sin();
        let cos_lat = lat.cos();

        let one = T::one();
        let n = self.a / (one - self.e2 * sin_lat * sin_lat).sqrt();

        cartesian::Coordinate::<T> {
            x: (n + h) * cos_lat * lon.cos(),
            y: (n + h) * cos_lat * lon.sin(),
            z: ((one - self.e2) * n + h) * sin_lat,
        }
    }
}

/// The two independent shape parameters a reference ellipsoid is built
/// from.
#[derive(Clone, Copy)]
pub struct Builder<T> {
    pub a: T,
    pub b: T,
}

impl<T: Arithmetic<T>> Builder<T> {
    /// Builds the ellipsoid: `e2` is derived eagerly as `(a² − b²)/a²`; the
    /// squared-axis caches start empty and fill on first use.  No
    /// validation is performed: non-positive axes or `a < b` yield a
    /// mathematically inconsistent model, never an error.
    pub fn build(&self) -> (e: Ellipsoid<T>)
        ensures
            e.a == self.a,
            e.b == self.b,
            e.e2 == eccentricity2_spec(self.a, self.b),
            e.a2 is None,
            e.b2 is None,
            e.wf(),
    {
        proof {
            T::add_sub_obeys();
            T::mul_div_obeys();
        }
        let a2 = self.a * self.a;

        Ellipsoid { a: self.a, b: self.b, e2: (a2 - self.b * self.b) / a2, a2: None, b2: None }
    }
}

/// The WGS84 model the registry pre-registers: semi-major axis 6378137 and
/// semi-minor axis 6356752.3142 (63567523142 / 10000), in meters, as built
/// by `Builder::build`.
pub open spec fn wgs84_spec<T: Arithmetic<T> + FromU64>() -> Ellipsoid<T> {
    let a = T::from_u64_spec(6378137);
    let b = T::from_u64_spec(63567523142).div_spec(T::from_u64_spec(10000));
    Ellipsoid { a: a, b: b, e2: eccentricity2_spec(a, b), a2: None, b2: None }
}

/// A process-wide style registry of named reference ellipsoids, built once
/// and read-only from then on.  Exactly one entry, "wgs84", is registered
/// at construction; nothing is ever added, removed or changed.
pub struct EllipsoidRegistry<T: Arithmetic<T> + FromU64> {
    key: String,
    wgs84: Ellipsoid<T>,
}

impl<T: Arithmetic<T> + FromU64> EllipsoidRegistry<T> {
    #[verifier::type_invariant]
    spec fn inv(self) -> bool {
        &&& self.key@ == "wgs84"@
        &&& self.wgs84 == wgs84_spec::<T>()
    }

    /// A fully initialized registry, holding its one pre-registered entry.
    pub fn new() -> (r: EllipsoidRegistry<T>) {
        proof {
            T::add_sub_obeys();
            T::mul_div_obeys();
        }
        let a = T::from_u64(6378137);
        let b = T::from_u64(63567523142) / T::from_u64(10000);
        let model = Builder { a: a, b: b }.build();
        EllipsoidRegistry { key: "wgs84".to_owned(), wgs84: model }
    }

    /// Read-only access to the model registered under `name`: the WGS84
    /// model for "wgs84", absence for every other key.
    pub fn lookup<'a>(&'a self, name: &str) -> (r: Option<&'a Ellipsoid<T>>)
        ensures
            name@ == "wgs84"@ ==> match r {
                Some(e) => *e == wgs84_spec::<T>(),
                None => false,
            },
            name@ != "wgs84"@ ==> r is None,
    {
        proof {
            use_type_invariant(self);
        }
        if name.to_owned() == self.key {
            Some(&self.wgs84)
        } else {
            None
        }
    }
}

/// Caching law: once a squared axis has been accessed, a second access
/// returns the very value the first one cached and leaves the ellipsoid as
/// it was — nothing is recomputed and nothing changes.
pub proof fn lemma_squared_axis_cache_stable<T: Arithmetic<T>>(e: Ellipsoid<T>)
    ensures
        cached_a2_spec((Ellipsoid { a2: Some(cached_a2_spec(e)), ..e })) == cached_a2_spec(e),
        (Ellipsoid {
            a2: Some(cached_a2_spec((Ellipsoid { a2: Some(cached_a2_spec(e)), ..e }))),
            ..(Ellipsoid { a2: Some(cached_a2_spec(e)), ..e })
        }) == (Ellipsoid { a2: Some(cached_a2_spec(e)), ..e }),
        cached_b2_spec((Ellipsoid { b2: Some(cached_b2_spec(e)), ..e })) == cached_b2_spec(e),
        (Ellipsoid {
            b2: Some(cached_b2_spec((Ellipsoid { b2: Some(cached_b2_spec(e)), ..e }))),
            ..(Ellipsoid { b2: Some(cached_b2_spec(e)), ..e })
        }) == (Ellipsoid { b2: Some(cached_b2_spec(e)), ..e }),
{
}

/// Longitude branch law: where `x` is negative by the scalar's order, the
/// longitude the inverse transform computes is exactly the naive inverse
/// tangent of `y/x` plus pi.
pub proof fn lemma_longitude_branch<T: Transformable<T>>(x: T, y: T)
    requires
        x_negative_spec(x),
    ensures
        inverse_longitude_spec::<T>(x, y) == y.div_spec(x).atan_spec().add_spec(T::pi_spec()),
{
}

} // verus!
