//! The gyroid, a surface that repeats in all three directions.
//!
//! The field is the plain, unscaled form
//! `sin x * cos y + sin z * cos x + sin y * cos z + threshold`, taken in world
//! coordinates. It has no closed-form gradient here: the normals of a
//! [`Gyroid`] come from [`CentralDifference`] over its scalar field.
//!
//! Sine and cosine are not among the operators of a [`Number`], so a gyroid
//! is made with the [`Waves`] of its number type. The field repeats wherever
//! they do.
use crate::distance::Signed;
use crate::math::exact_arithmetic;
use crate::math::cosine_of;
use crate::math::pure_waves;
use crate::math::sine_of;
use crate::math::total_arithmetic;
use crate::math::Axis;
use crate::math::Number;
use crate::math::Vec3;
use crate::math::Waves;
use crate::source::CentralDifference;
use crate::source::HermiteSource;
use crate::source::ScalarSource;
use vstd::prelude::*;
use vstd::std_specs::ops::AddSpec;
use vstd::std_specs::ops::MulSpec;

verus! {

/// The scalar field of a single gyroid, measured from the thresholded
/// minimal surface.
pub struct GyroidScalar<T, W> {
    /// The offset added to the wave. It shifts the iso-surface and so sets
    /// the thickness of the solid; zero gives the minimal surface itself.
    pub threshold: T,
    /// The `(xmax, ymax, zmax)` corner of the box that is meant to be
    /// populated. It is kept for whoever samples the field and plays no part
    /// in the field's value.
    pub span: (T, T, T),
    /// The sine and the cosine of the number type.
    pub waves: W,
}

impl<T: Number, W: Waves<T>> GyroidScalar<T, W> {
    /// The gyroid field with the given threshold and span, over the given
    /// waves. No value of any of them is refused.
    pub fn new(threshold: T, span: (T, T, T), waves: W) -> (gyroid: Self)
        ensures
            gyroid.threshold == threshold,
            gyroid.span == span,
            gyroid.waves == waves,
    {
        GyroidScalar { threshold, span, waves }
    }

    /// The gyroid wave `sin x * cos y + sin z * cos x + sin y * cos z`, from
    /// the sines and the cosines of a point's coordinates. The three
    /// products are summed from left to right.
    pub open spec fn wave(sines: Vec3<T>, cosines: Vec3<T>) -> T {
        sines.x.mul_spec(cosines.y).add_spec(sines.z.mul_spec(cosines.x)).add_spec(
            sines.y.mul_spec(cosines.z),
        )
    }

    /// The field's value at a point whose coordinates have the given sines
    /// and cosines: the wave plus the threshold.
    pub open spec fn level_at(&self, sines: Vec3<T>, cosines: Vec3<T>) -> Signed<T> {
        Signed(Self::wave(sines, cosines).add_spec(self.threshold))
    }

    /// The sines of the coordinates of `p`.
    pub open spec fn sines_at(&self, p: Vec3<T>) -> Vec3<T> {
        Vec3 {
            x: sine_of(&self.waves, p.x),
            y: sine_of(&self.waves, p.y),
            z: sine_of(&self.waves, p.z),
        }
    }

    /// The cosines of the coordinates of `p`.
    pub open spec fn cosines_at(&self, p: Vec3<T>) -> Vec3<T> {
        Vec3 {
            x: cosine_of(&self.waves, p.x),
            y: cosine_of(&self.waves, p.y),
            z: cosine_of(&self.waves, p.z),
        }
    }

    /// The sines and cosines of the coordinates of `p` are values that the
    /// waves have returned, so that whatever the waves promise of their
    /// results holds of them.
    pub open spec fn waves_known_at(&self, p: Vec3<T>) -> bool {
        &&& call_ensures(W::sine, (&self.waves, p.x), self.sines_at(p).x)
        &&& call_ensures(W::sine, (&self.waves, p.y), self.sines_at(p).y)
        &&& call_ensures(W::sine, (&self.waves, p.z), self.sines_at(p).z)
        &&& call_ensures(W::cosine, (&self.waves, p.x), self.cosines_at(p).x)
        &&& call_ensures(W::cosine, (&self.waves, p.y), self.cosines_at(p).y)
        &&& call_ensures(W::cosine, (&self.waves, p.z), self.cosines_at(p).z)
    }

    /// Computes the field's value at a point from the sines and the cosines
    /// of its coordinates: `sines` holds `(sin x, sin y, sin z)` and
    /// `cosines` holds `(cos x, cos y, cos z)`.
    ///
    /// Where the arithmetic of `T` is exact the value is
    /// `self.level_at(sines, cosines)`.
    pub fn level(&self, sines: Vec3<T>, cosines: Vec3<T>) -> (s: Signed<T>)
        requires
            total_arithmetic::<T>(),
        ensures
            exact_arithmetic::<T>() ==> s == self.level_at(sines, cosines),
    {
        let wave = sines.x * cosines.y + sines.z * cosines.x + sines.y * cosines.z;
        Signed(wave + self.threshold)
    }
}

impl<T: Number, W: Waves<T>> ScalarSource<T> for GyroidScalar<T, W> {
    /// The field is computed by arithmetic on `T` from calls of the waves:
    /// the arithmetic must be total and exact, and sine and cosine functions
    /// of the number alone.
    open spec fn scalar_pure(&self) -> bool {
        &&& total_arithmetic::<T>()
        &&& exact_arithmetic::<T>()
        &&& pure_waves(&self.waves)
    }

    /// The gyroid field: the level for the sines and cosines of the
    /// coordinates of `p`.
    open spec fn scalar_at(&self, p: Vec3<T>) -> Signed<T> {
        self.level_at(self.sines_at(p), self.cosines_at(p))
    }

    /// Evaluates sine and cosine on each coordinate of `p` and combines them
    /// into the field's value.
    fn sample_scalar(&self, p: Vec3<T>) -> (s: Signed<T>)
        ensures
            s.0 == Self::wave(self.sines_at(p), self.cosines_at(p)).add_spec(self.threshold),
            self.waves_known_at(p),
    {
        let sines = Vec3 {
            x: self.waves.sine(p.x),
            y: self.waves.sine(p.y),
            z: self.waves.sine(p.z),
        };
        let cosines = Vec3 {
            x: self.waves.cosine(p.x),
            y: self.waves.cosine(p.y),
            z: self.waves.cosine(p.z),
        };
        self.level(sines, cosines)
    }
}

/// A single gyroid: the thresholded minimal surface as scalar field, with
/// normals from central differences of that field.
pub struct Gyroid<T, W>(CentralDifference<GyroidScalar<T, W>, T>);

impl<T: Number, W: Waves<T>> Gyroid<T, W> {
    /// The differentiation adapter that this gyroid is made of. Its source
    /// is the gyroid's scalar field.
    pub closed spec fn adapter(&self) -> CentralDifference<GyroidScalar<T, W>, T> {
        self.0
    }

    /// At the two probes of `p` on `axis`, one step ahead of `p` and one
    /// step behind it, the sines and cosines of the coordinates are values
    /// that the waves have returned.
    pub open spec fn waves_known_around(&self, p: Vec3<T>, axis: Axis) -> bool {
        let field = self.adapter().source();
        let step = self.adapter().epsilon();
        &&& field.waves_known_at(p.ahead(axis, step))
        &&& field.waves_known_at(p.behind(axis, step))
    }

    /// The gyroid with the given threshold and span, over the given waves,
    /// differentiated with step `epsilon`. No value of any of them is
    /// refused.
    pub fn new(threshold: T, span: (T, T, T), epsilon: T, waves: W) -> (gyroid: Self)
        ensures
            gyroid.adapter().epsilon() == epsilon,
            gyroid.adapter().source().threshold == threshold,
            gyroid.adapter().source().span == span,
            gyroid.adapter().source().waves == waves,
    {
        let gyroid_scalar = GyroidScalar { threshold, span, waves };
        let finite_difference = CentralDifference::new_with_epsilon(gyroid_scalar, epsilon);
        Gyroid(finite_difference)
    }
}

impl<T: Number, W: Waves<T>> ScalarSource<T> for Gyroid<T, W> {
    /// The gyroid can be sampled whenever its scalar field can.
    open spec fn scalar_pure(&self) -> bool {
        self.adapter().source().scalar_pure()
    }

    /// The gyroid's scalar field is the gyroid field of its parameters.
    open spec fn scalar_at(&self, p: Vec3<T>) -> Signed<T> {
        self.adapter().source().scalar_at(p)
    }

    /// Samples the scalar field through the adapter.
    fn sample_scalar(&self, p: Vec3<T>) -> (s: Signed<T>)
        ensures
            s == self.adapter().source().scalar_at(p),
            self.adapter().source().waves_known_at(p),
    {
        self.0.sample_scalar(p)
    }
}

impl<T: Number, W: Waves<T>> HermiteSource<T> for Gyroid<T, W> {
    /// Normals can be sampled whenever the adapter can derive them.
    open spec fn normal_pure(&self) -> bool {
        self.adapter().normal_pure()
    }

    /// The gyroid's normal is the central-difference gradient of its scalar
    /// field.
    open spec fn normal_at(&self, p: Vec3<T>) -> Vec3<T> {
        self.adapter().gradient_at(p)
    }

    /// Samples the normal through the adapter. The result is the raw
    /// gradient: it is not normalised.
    fn sample_normal(&self, p: Vec3<T>) -> (n: Vec3<T>)
        ensures
            n == self.adapter().gradient_at(p),
            forall|axis: Axis| self.waves_known_around(p, axis),
    {
        let n = self.0.sample_normal(p);
        proof {
            assert forall|axis: Axis| self.waves_known_around(p, axis) by {
                assert(self.adapter().probes_known_at(p, axis));
            }
        }
        n
    }
}

/// Periodicity: the field repeats wherever sine and cosine do. If moving a
/// coordinate of `p` by `period` changes neither its sine nor its cosine,
/// then the field has the same value at `p` and at `p` moved by `period`
/// along that axis.
pub proof fn field_repeats_with_waves<T: Number, W: Waves<T>>(
    gyroid: GyroidScalar<T, W>,
    p: Vec3<T>,
    axis: Axis,
    period: T,
)
    requires
        sine_of(&gyroid.waves, p.along(axis).add_spec(period)) == sine_of(
            &gyroid.waves,
            p.along(axis),
        ),
        cosine_of(&gyroid.waves, p.along(axis).add_spec(period)) == cosine_of(
            &gyroid.waves,
            p.along(axis),
        ),
    ensures
        gyroid.scalar_at(p.ahead(axis, period)) == gyroid.scalar_at(p),
{
}

/// Threshold shift: at every point the field of a gyroid is the field of
/// the gyroid with threshold zero over the same waves, plus its own
/// threshold. Of the zero threshold it is asked only that adding it leaves
/// the wave at `p` unchanged. The spans may differ.
pub proof fn threshold_shift<T: Number, W: Waves<T>>(
    shifted: GyroidScalar<T, W>,
    canonical: GyroidScalar<T, W>,
    p: Vec3<T>,
)
    requires
        shifted.waves == canonical.waves,
        canonical.scalar_at(p).0 == GyroidScalar::<T, W>::wave(
            canonical.sines_at(p),
            canonical.cosines_at(p),
        ),
    ensures
        shifted.scalar_at(p).0 == canonical.scalar_at(p).0.add_spec(shifted.threshold),
{
}

/// The span does not alter the field: two gyroids over the same waves and
/// with the same threshold have the same value at every point, whatever
/// their spans.
pub proof fn span_is_inert<T: Number, W: Waves<T>>(
    one: GyroidScalar<T, W>,
    other: GyroidScalar<T, W>,
    p: Vec3<T>,
)
    requires
        one.threshold == other.threshold,
        one.waves == other.waves,
    ensures
        one.scalar_at(p) == other.scalar_at(p),
{
}

} // verus!
