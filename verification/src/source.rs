//! The capability interfaces of a field, and numerical differentiation.
//!
//! A primitive implements whichever of [`ScalarSource`], [`VectorSource`] and
//! [`HermiteSource`] its formula supports. Each interface is one query, and
//! each query is a pure function of the source and the point: the interface
//! names that function (`scalar_at`, `vector_at`, `normal_at`) and the query
//! returns its value. A consumer may therefore repeat a query, or spread
//! queries over threads, and see the same samples.
//!
//! [`CentralDifference`] turns any scalar source into one that also has
//! normals, by probing the field on both sides of the point along each axis.
use crate::distance::Directed;
use crate::distance::Signed;
use crate::math::exact_arithmetic;
use crate::math::total_arithmetic;
use crate::math::Axis;
use crate::math::Number;
use crate::math::Vec3;
use vstd::prelude::*;
use vstd::std_specs::ops::AddSpec;
use vstd::std_specs::ops::DivSpec;
use vstd::std_specs::ops::SubSpec;

verus! {

/// A field from points to signed values.
pub trait ScalarSource<T> {
    /// What this source needs in order to be sampled. A source that can
    /// always be sampled keeps the default.
    open spec fn scalar_pure(&self) -> bool {
        true
    }

    /// The field: the value at each point.
    spec fn scalar_at(&self, p: Vec3<T>) -> Signed<T>;

    /// Samples the field at `p`. The result depends on the source and on `p`
    /// alone.
    fn sample_scalar(&self, p: Vec3<T>) -> (s: Signed<T>)
        requires
            self.scalar_pure(),
        ensures
            s == self.scalar_at(p),
    ;
}

/// A field from points to vectors, for fields that are vector-valued by
/// nature rather than derived from a scalar potential.
pub trait VectorSource<T> {
    /// What this source needs in order to be sampled. A source that can
    /// always be sampled keeps the default.
    open spec fn vector_pure(&self) -> bool {
        true
    }

    /// The field: the vector at each point.
    spec fn vector_at(&self, p: Vec3<T>) -> Directed<T>;

    /// Samples the field at `p`. The result depends on the source and on `p`
    /// alone.
    fn sample_vector(&self, p: Vec3<T>) -> (d: Directed<T>)
        requires
            self.vector_pure(),
        ensures
            d == self.vector_at(p),
    ;
}

/// A field from points to surface normals: the direction in which the scalar
/// value grows. The normal is a raw gradient, not a unit vector, unless the
/// implementor documents otherwise.
pub trait HermiteSource<T> {
    /// What this source needs in order to be sampled. A source that can
    /// always be sampled keeps the default.
    open spec fn normal_pure(&self) -> bool {
        true
    }

    /// The field: the normal at each point.
    spec fn normal_at(&self, p: Vec3<T>) -> Vec3<T>;

    /// Samples the normal at `p`. The result depends on the source and on `p`
    /// alone.
    fn sample_normal(&self, p: Vec3<T>) -> (n: Vec3<T>)
        requires
            self.normal_pure(),
        ensures
            n == self.normal_at(p),
    ;
}

/// A scalar source together with a step size, which derives the normal of
/// the source by central differences.
///
/// The adapter owns its source. Source and step are fixed when the adapter
/// is made. The step is not validated: it is meant to be positive and small
/// against the length scale of the field, and any other step gives gradients
/// without meaning, not an error.
pub struct CentralDifference<S, T> {
    source: S,
    epsilon: T,
}

impl<S, T: Copy> CentralDifference<S, T> {
    /// The wrapped source.
    pub closed spec fn spec_source(&self) -> &S {
        &self.source
    }

    /// The step size.
    pub closed spec fn spec_epsilon(&self) -> T {
        self.epsilon
    }

    /// Wraps `source`, to be differentiated with step `epsilon`.
    pub fn new_with_epsilon(source: S, epsilon: T) -> (adapter: Self)
        ensures
            *adapter.source() == source,
            adapter.epsilon() == epsilon,
    {
        CentralDifference { source, epsilon }
    }

    /// The wrapped source.
    #[verifier::when_used_as_spec(spec_source)]
    pub fn source(&self) -> (s: &S)
        ensures
            s == self.source(),
    {
        &self.source
    }

    /// The step size.
    #[verifier::when_used_as_spec(spec_epsilon)]
    pub fn epsilon(&self) -> (e: T)
        ensures
            e == self.epsilon(),
    {
        self.epsilon
    }
}

impl<S: ScalarSource<T>, T: Number> CentralDifference<S, T> {
    /// The central-difference estimate of the derivative of the wrapped
    /// field along `axis` at `p`: the field one step ahead of `p` minus the
    /// field one step behind it, over twice the step. Twice the step is the
    /// step added to itself.
    pub open spec fn partial_at(&self, p: Vec3<T>, axis: Axis) -> T {
        let high = self.source().scalar_at(p.ahead(axis, self.epsilon())).0;
        let low = self.source().scalar_at(p.behind(axis, self.epsilon())).0;
        high.sub_spec(low).div_spec(self.epsilon().add_spec(self.epsilon()))
    }

    /// The central-difference gradient of the wrapped field at `p`: one
    /// estimate for each axis, each made from its own two probes.
    pub open spec fn gradient_at(&self, p: Vec3<T>) -> Vec3<T> {
        Vec3 {
            x: self.partial_at(p, Axis::X),
            y: self.partial_at(p, Axis::Y),
            z: self.partial_at(p, Axis::Z),
        }
    }

    /// The values of the wrapped field at the two probes of `p` on `axis`
    /// are samples that the source has returned there, so that whatever the
    /// source promises of its samples holds of them.
    pub open spec fn probes_known_at(&self, p: Vec3<T>, axis: Axis) -> bool {
        let ahead = p.ahead(axis, self.epsilon());
        let behind = p.behind(axis, self.epsilon());
        &&& call_ensures(S::sample_scalar, (self.source(), ahead), self.source().scalar_at(ahead))
        &&& call_ensures(
            S::sample_scalar,
            (self.source(), behind),
            self.source().scalar_at(behind),
        )
    }

    /// Estimates the derivative of the wrapped field along `axis` at `p`
    /// from two samples of the source, one step ahead of `p` and one step
    /// behind it.
    ///
    /// Where the arithmetic of `T` is exact the estimate is
    /// `self.partial_at(p, axis)`.
    pub fn partial(&self, p: Vec3<T>, axis: Axis) -> (d: T)
        requires
            self.source().scalar_pure(),
            total_arithmetic::<T>(),
        ensures
            exact_arithmetic::<T>() ==> d == self.partial_at(p, axis),
            exact_arithmetic::<T>() ==> self.probes_known_at(p, axis),
    {
        let high = self.source.sample_scalar(p.step_ahead(axis, self.epsilon));
        let low = self.source.sample_scalar(p.step_behind(axis, self.epsilon));
        (high.0 - low.0) / (self.epsilon + self.epsilon)
    }
}

impl<S: ScalarSource<T>, T: Number> ScalarSource<T> for CentralDifference<S, T> {
    /// The adapter can be sampled whenever its source can.
    open spec fn scalar_pure(&self) -> bool {
        self.source().scalar_pure()
    }

    /// The adapter's scalar field is that of its source.
    open spec fn scalar_at(&self, p: Vec3<T>) -> Signed<T> {
        self.source().scalar_at(p)
    }

    /// Hands the query on to the wrapped source and returns its sample as it
    /// is.
    fn sample_scalar(&self, p: Vec3<T>) -> (s: Signed<T>)
        ensures
            s == self.source().scalar_at(p),
            call_ensures(S::sample_scalar, (self.source(), p), s),
    {
        self.source.sample_scalar(p)
    }
}

impl<S: ScalarSource<T>, T: Number> HermiteSource<T> for CentralDifference<S, T> {
    /// Normals are derived from samples of the source by arithmetic on `T`:
    /// the source must be one that can be sampled, and the arithmetic total
    /// and exact.
    open spec fn normal_pure(&self) -> bool {
        &&& self.source().scalar_pure()
        &&& total_arithmetic::<T>()
        &&& exact_arithmetic::<T>()
    }

    /// The adapter's normal is the central-difference gradient of its
    /// source.
    open spec fn normal_at(&self, p: Vec3<T>) -> Vec3<T> {
        self.gradient_at(p)
    }

    /// Estimates the gradient of the wrapped field at `p` from six samples
    /// of the source, two on each axis. The result is the raw gradient: it
    /// is not normalised.
    fn sample_normal(&self, p: Vec3<T>) -> (n: Vec3<T>)
        ensures
            n.x == self.partial_at(p, Axis::X),
            n.y == self.partial_at(p, Axis::Y),
            n.z == self.partial_at(p, Axis::Z),
            forall|axis: Axis| self.probes_known_at(p, axis),
    {
        let x = self.partial(p, Axis::X);
        let y = self.partial(p, Axis::Y);
        let z = self.partial(p, Axis::Z);
        Vec3 { x, y, z }
    }
}

/// Pass-through identity: seen as a scalar source, the adapter is its
/// wrapped source. It can be sampled exactly when the source can, its field
/// has the value of the source's field at every point, and whatever a query
/// of the adapter returns at `p` is what a query of the source returns
/// there.
pub proof fn pass_through_identity<S: ScalarSource<T>, T: Number>(
    adapter: CentralDifference<S, T>,
    p: Vec3<T>,
    through: Signed<T>,
    direct: Signed<T>,
)
    requires
        adapter.source().scalar_pure(),
        call_ensures(CentralDifference::<S, T>::sample_scalar, (&adapter, p), through),
        call_ensures(S::sample_scalar, (adapter.source(), p), direct),
    ensures
        adapter.scalar_pure(),
        adapter.scalar_at(p) == adapter.source().scalar_at(p),
        through == direct,
{
}

/// Determinism of scalar queries: whatever two queries of a pure source
/// return at the same point is the same sample.
pub proof fn scalar_queries_agree<S: ScalarSource<T>, T>(
    source: S,
    p: Vec3<T>,
    first: Signed<T>,
    second: Signed<T>,
)
    requires
        source.scalar_pure(),
        call_ensures(S::sample_scalar, (&source, p), first),
        call_ensures(S::sample_scalar, (&source, p), second),
    ensures
        first == second,
{
}

/// Determinism of normal queries: whatever two queries of a pure source
/// return at the same point is the same normal.
pub proof fn normal_queries_agree<H: HermiteSource<T>, T>(
    source: H,
    p: Vec3<T>,
    first: Vec3<T>,
    second: Vec3<T>,
)
    requires
        source.normal_pure(),
        call_ensures(H::sample_normal, (&source, p), first),
        call_ensures(H::sample_normal, (&source, p), second),
    ensures
        first == second,
{
}

} // verus!
