//! Projections from external records into model types.

use vstd::prelude::*;
use crate::error::ForgeError;

verus! {

/// Conversion of a source record into a model type, which may fail.
pub trait Projection<Source>: Sized {
    /// Projects a source into the model type.
    fn project(source: Source) -> Result<Self, ForgeError>;
}

/// Projecting `source` can succeed: some value is a possible successful result.
pub open spec fn projects_ok<S, T: Projection<S>>(source: S) -> bool {
    exists|t: T| call_ensures(T::project, (source,), Ok::<T, ForgeError>(t))
}

/// Conversion of a list of sources, failing on the first source that fails.
pub trait BulkProjection<Source>: Sized {
    /// Projects each source in order; the first failure is the result.
    ///
    /// On success the `i`-th output is what projecting the `i`-th source gave; a
    /// failure is the error that projecting one of the sources gave, and every source
    /// before it was projected successfully.
    fn project_all(sources: Vec<Source>) -> (r: Result<Vec<Self>, ForgeError>)
        where Self: Projection<Source>
        ensures
            r matches Ok(v) ==> v@.len() == sources@.len(),
            r matches Ok(v) ==> forall|i: int|
                0 <= i < v@.len() ==> call_ensures(Self::project, (sources@[i],), Ok::<Self, ForgeError>(#[trigger] v@[i])),
            r matches Err(e) ==> exists|i: int|
                0 <= i < sources@.len() && call_ensures(Self::project, (#[trigger] sources@[i],), Err::<Self, ForgeError>(e))
                    && forall|j: int| 0 <= j < i ==> #[trigger] projects_ok::<Source, Self>(sources@[j]),
            sources@.len() == 0 ==> (r matches Ok(v) && v@.len() == 0);
}

impl<T: Projection<S>, S> BulkProjection<S> for T {
    fn project_all(sources: Vec<S>) -> (r: Result<Vec<T>, ForgeError>) {
        let ghost src = sources@;
        let ghost n = src.len();
        let mut rest = sources;
        let mut reversed: Vec<S> = Vec::new();
        while rest.len() > 0
            invariant
                reversed@.len() + rest@.len() == n,
                n == src.len(),
                forall|j: int| 0 <= j < rest@.len() ==> #[trigger] rest@[j] == src[j],
                forall|j: int| 0 <= j < reversed@.len() ==> #[trigger] reversed@[j] == src[n - 1 - j],
            decreases rest.len(),
        {
            let s = rest.pop().unwrap();
            reversed.push(s);
        }
        let mut out: Vec<T> = Vec::new();
        while reversed.len() > 0
            invariant
                out@.len() + reversed@.len() == n,
                n == src.len(),
                src == sources@,
                forall|j: int| 0 <= j < reversed@.len() ==> #[trigger] reversed@[j] == src[n - 1 - j],
                forall|i: int| 0 <= i < out@.len() ==> call_ensures(T::project, (src[i],), Ok::<T, ForgeError>(#[trigger] out@[i])),
            decreases reversed.len(),
        {
            let ghost k = out@.len();
            let s = reversed.pop().unwrap();
            assert(s == src[k as int]);
            let f = T::project;
            match f(s) {
                Ok(t) => {
                    out.push(t);
                },
                Err(e) => {
                    proof {
                        assert forall|j: int| 0 <= j < k implies #[trigger] projects_ok::<S, T>(sources@[j]) by {
                            assert(call_ensures(T::project, (sources@[j],), Ok::<T, ForgeError>(out@[j])));
                        }
                        assert(call_ensures(T::project, (sources@[k as int],), Err::<T, ForgeError>(e)));
                    }
                    return Err(e);
                },
            }
        }
        Ok(out)
    }
}

} // verus!
