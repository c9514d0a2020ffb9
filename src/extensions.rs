//! Small conveniences on nested results, and on the polls of a stream of
//! results.

use vstd::prelude::*;

verus! {

/// Flattening of a result whose success is itself a result with the same
/// error type.
pub trait ResultExt<T, E>: Sized {
    /// The inner result on success, the outer error otherwise.
    spec fn spec_x_flatten(self) -> Result<T, E>;

    fn x_flatten(self) -> (r: Result<T, E>)
        ensures
            r == self.spec_x_flatten(),
    ;
}

impl<T, E> ResultExt<T, E> for Result<Result<T, E>, E> {
    open spec fn spec_x_flatten(self) -> Result<T, E> {
        match self {
            Ok(inner) => inner,
            Err(e) => Err(e),
        }
    }

    fn x_flatten(self) -> (r: Result<T, E>) {
        match self {
            Ok(inner) => inner,
            Err(e) => Err(e),
        }
    }
}

/// The standard poll, with its variants visible to proofs.
#[verifier::external_type_specification]
#[verifier::reject_recursive_types(T)]
pub struct ExPoll<T>(core::task::Poll<T>);

/// The poll of a stream of results: ready with an item or with the
/// stream's end, or pending. It converts to and from the standard poll and
/// carries the mappings over the item.
#[derive(Clone, Copy, Debug, PartialEq, Eq)]
pub enum Poll<T> {
    Ready(T),
    Pending,
}

impl<T> Poll<T> {
    pub fn from_std(p: core::task::Poll<T>) -> (r: Self)
        ensures
            match p {
                core::task::Poll::Ready(t) => r == Poll::Ready(t),
                core::task::Poll::Pending => r == Poll::<T>::Pending,
            },
    {
        match p {
            core::task::Poll::Ready(t) => Poll::Ready(t),
            core::task::Poll::Pending => Poll::Pending,
        }
    }

    pub fn into_std(self) -> (r: core::task::Poll<T>)
        ensures
            match self {
                Poll::Ready(t) => r == core::task::Poll::Ready(t),
                Poll::Pending => r == core::task::Poll::<T>::Pending,
            },
    {
        match self {
            Poll::Ready(t) => core::task::Poll::Ready(t),
            Poll::Pending => core::task::Poll::Pending,
        }
    }
}

impl<T, E> Poll<Option<Result<T, E>>> {
    /// Applies `f` to a successful item; everything else passes unchanged.
    pub fn x_map_ok<U, F: FnOnce(T) -> U>(self, f: F) -> (r: Poll<Option<Result<U, E>>>)
        requires
            self matches Poll::Ready(Some(Ok(t))) ==> f.requires((t,)),
        ensures
            match self {
                Poll::Ready(Some(Ok(t))) => r matches Poll::Ready(Some(Ok(u))) && f.ensures((t,), u),
                Poll::Ready(Some(Err(e))) => r == Poll::Ready(Some(Err::<U, E>(e))),
                Poll::Ready(None) => r == Poll::<Option<Result<U, E>>>::Ready(None),
                Poll::Pending => r == Poll::<Option<Result<U, E>>>::Pending,
            },
    {
        match self {
            Poll::Ready(Some(Ok(t))) => Poll::Ready(Some(Ok(f(t)))),
            Poll::Ready(Some(Err(e))) => Poll::Ready(Some(Err(e))),
            Poll::Ready(None) => Poll::Ready(None),
            Poll::Pending => Poll::Pending,
        }
    }

    /// Applies `f` to a failed item; everything else passes unchanged.
    pub fn x_map_err<U, F: FnOnce(E) -> U>(self, f: F) -> (r: Poll<Option<Result<T, U>>>)
        requires
            self matches Poll::Ready(Some(Err(e))) ==> f.requires((e,)),
        ensures
            match self {
                Poll::Ready(Some(Ok(t))) => r == Poll::Ready(Some(Ok::<T, U>(t))),
                Poll::Ready(Some(Err(e))) => r matches Poll::Ready(Some(Err(u))) && f.ensures(
                    (e,),
                    u,
                ),
                Poll::Ready(None) => r == Poll::<Option<Result<T, U>>>::Ready(None),
                Poll::Pending => r == Poll::<Option<Result<T, U>>>::Pending,
            },
    {
        match self {
            Poll::Ready(Some(Ok(t))) => Poll::Ready(Some(Ok(t))),
            Poll::Ready(Some(Err(e))) => Poll::Ready(Some(Err(f(e)))),
            Poll::Ready(None) => Poll::Ready(None),
            Poll::Pending => Poll::Pending,
        }
    }

    /// Applies `f`, which may itself fail, to a successful item.
    pub fn x_map_flatten<U, F: FnOnce(T) -> Result<U, E>>(self, f: F) -> (r: Poll<
        Option<Result<U, E>>,
    >)
        requires
            self matches Poll::Ready(Some(Ok(t))) ==> f.requires((t,)),
        ensures
            match self {
                Poll::Ready(Some(Ok(t))) => r matches Poll::Ready(Some(res)) && f.ensures((t,), res),
                Poll::Ready(Some(Err(e))) => r == Poll::Ready(Some(Err::<U, E>(e))),
                Poll::Ready(None) => r == Poll::<Option<Result<U, E>>>::Ready(None),
                Poll::Pending => r == Poll::<Option<Result<U, E>>>::Pending,
            },
    {
        match self {
            Poll::Ready(Some(Ok(t))) => Poll::Ready(Some(f(t))),
            Poll::Ready(Some(Err(e))) => Poll::Ready(Some(Err(e))),
            Poll::Ready(None) => Poll::Ready(None),
            Poll::Pending => Poll::Pending,
        }
    }
}

} // verus!
