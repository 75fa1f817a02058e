use vstd::prelude::*;

use core::marker::PhantomData;

use crate::error::{Error, Res};
use crate::parse::Parse;

verus! {

/// Whether `o` is `x` kept where `f` holds of its value, and "no value" otherwise.
pub open spec fn kept<T, F: Fn(&T) -> bool>(f: F, x: Option<T>, o: Option<T>) -> bool {
    match x {
        None => o is None,
        Some(t) => exists|b: bool|
            #[trigger] f.ensures((&t,), b) && o == (if b {
                Some(t)
            } else {
                None
            }),
    }
}

/// Run `a`; "no value" becomes a retry at the source where it stood.
pub struct Present<A> {
    pub a: A,
}

impl<S: Copy, T, A: Parse<S, Option<T>>> Parse<S, T> for Present<A> {
    open spec fn produces(&self, src: S, r: Res<S, T>) -> bool {
        match r {
            Ok((s2, t)) => exists|s: S, x: T| #[trigger] self.a.produces(src, Ok((s, Some(x)))) && s == s2 && x == t,
            Err(e) => self.a.produces(src, Err(e)) || exists|s: S|
                #[trigger] self.a.produces(src, Ok((s, None))) && e is Retry && e.is_leaf(
                    s,
                    "expected a value"@,
                ),
        }
    }

    open spec fn valid(&self) -> bool {
        self.a.valid()
    }

    fn parse(&self, src: S) -> (r: Res<S, T>) {
        match self.a.parse(src) {
            Ok((s2, Some(t))) => Ok((s2, t)),
            Ok((s2, None)) => Err(Error::retry(s2, "expected a value")),
            Err(e) => Err(e),
        }
    }
}

/// Run `a`; "no value" becomes the error `err`.
pub struct OkOr<A, S> {
    pub a: A,
    pub err: Error<S>,
}

impl<S: Copy, T, A: Parse<S, Option<T>>> Parse<S, T> for OkOr<A, S> {
    open spec fn produces(&self, src: S, r: Res<S, T>) -> bool {
        match r {
            Ok((s2, t)) => exists|s: S, x: T| #[trigger] self.a.produces(src, Ok((s, Some(x)))) && s == s2 && x == t,
            Err(e) => self.a.produces(src, Err(e)) || (exists|s: S| #[trigger] self.a.produces(src, Ok((s, None))))
                && e == self.err,
        }
    }

    open spec fn valid(&self) -> bool {
        self.a.valid()
    }

    fn parse(&self, src: S) -> (r: Res<S, T>) {
        match self.a.parse(src) {
            Ok((s2, Some(t))) => Ok((s2, t)),
            Ok((_, None)) => Err(self.err.duplicate()),
            Err(e) => Err(e),
        }
    }
}

/// Run `a`; "no value" becomes the error that `f` makes of the source where it stood.
pub struct OkOrElse<A, F> {
    pub a: A,
    pub f: F,
}

impl<S: Copy, T, A: Parse<S, Option<T>>, F: Fn(S) -> Error<S>> Parse<S, T> for OkOrElse<A, F> {
    open spec fn produces(&self, src: S, r: Res<S, T>) -> bool {
        match r {
            Ok((s2, t)) => exists|s: S, x: T| #[trigger] self.a.produces(src, Ok((s, Some(x)))) && s == s2 && x == t,
            Err(e) => self.a.produces(src, Err(e)) || exists|s: S, y: Error<S>|
                #[trigger] self.a.produces(src, Ok((s, None))) && #[trigger] self.f.ensures((s,), y) && y == e,
        }
    }

    open spec fn valid(&self) -> bool {
        self.a.valid() && forall|s: S| self.f.requires((s,))
    }

    fn parse(&self, src: S) -> (r: Res<S, T>) {
        match self.a.parse(src) {
            Ok((s2, Some(t))) => Ok((s2, t)),
            Ok((s2, None)) => Err((self.f)(s2)),
            Err(e) => Err(e),
        }
    }
}

/// Run `a`; keep its value only where `f` holds of it.
pub struct Filter<A, F> {
    pub a: A,
    pub f: F,
}

impl<S, T, A: Parse<S, Option<T>>, F: Fn(&T) -> bool> Parse<S, Option<T>> for Filter<A, F> {
    open spec fn produces(&self, src: S, r: Res<S, Option<T>>) -> bool {
        match r {
            Ok((s2, o)) => exists|s: S, x: Option<T>|
                #[trigger] self.a.produces(src, Ok((s, x))) && s == s2 && kept(self.f, x, o),
            Err(e) => self.a.produces(src, Err(e)),
        }
    }

    open spec fn valid(&self) -> bool {
        self.a.valid() && forall|t: &T| self.f.requires((t,))
    }

    fn parse(&self, src: S) -> (r: Res<S, Option<T>>) {
        match self.a.parse(src) {
            Ok((s2, Some(t))) => {
                if (self.f)(&t) {
                    Ok((s2, Some(t)))
                } else {
                    Ok((s2, None))
                }
            },
            Ok((s2, None)) => Ok((s2, None)),
            Err(e) => Err(e),
        }
    }
}

/// Run `a`; transform its value with `f`, which may also drop it.
pub struct FilterMap<A, F, T> {
    pub a: A,
    pub f: F,
    pub marker: PhantomData<T>,
}

impl<S, T, U, A: Parse<S, Option<T>>, F: Fn(T) -> Option<U>> Parse<S, Option<U>> for FilterMap<
    A,
    F,
    T,
> {
    open spec fn produces(&self, src: S, r: Res<S, Option<U>>) -> bool {
        match r {
            Ok((s2, o)) => exists|s: S, x: Option<T>|
                #[trigger] self.a.produces(src, Ok((s, x))) && s == s2 && match x {
                    None => o is None,
                    Some(t) => self.f.ensures((t,), o),
                },
            Err(e) => self.a.produces(src, Err(e)),
        }
    }

    open spec fn valid(&self) -> bool {
        self.a.valid() && forall|t: T| self.f.requires((t,))
    }

    fn parse(&self, src: S) -> (r: Res<S, Option<U>>) {
        match self.a.parse(src) {
            Ok((s2, Some(t))) => Ok((s2, (self.f)(t))),
            Ok((s2, None)) => Ok((s2, None)),
            Err(e) => Err(e),
        }
    }
}

/// Run `a`, whose value is a `Result`; transform the `Ok` value with `f`.
pub struct MapOk<A, F, T> {
    pub a: A,
    pub f: F,
    pub marker: PhantomData<T>,
}

impl<S, T, U, E, A: Parse<S, Result<T, E>>, F: Fn(T) -> U> Parse<S, Result<U, E>> for MapOk<
    A,
    F,
    T,
> {
    open spec fn produces(&self, src: S, r: Res<S, Result<U, E>>) -> bool {
        match r {
            Ok((s2, o)) => exists|s: S, x: Result<T, E>|
                #[trigger] self.a.produces(src, Ok((s, x))) && s == s2 && match x {
                    Ok(t) => o is Ok && self.f.ensures((t,), o->Ok_0),
                    Err(e) => o == Err::<U, E>(e),
                },
            Err(e) => self.a.produces(src, Err(e)),
        }
    }

    open spec fn valid(&self) -> bool {
        self.a.valid() && forall|t: T| self.f.requires((t,))
    }

    fn parse(&self, src: S) -> (r: Res<S, Result<U, E>>) {
        match self.a.parse(src) {
            Ok((s2, Ok(t))) => Ok((s2, Ok((self.f)(t)))),
            Ok((s2, Err(e))) => Ok((s2, Err(e))),
            Err(e) => Err(e),
        }
    }
}

/// Run `a`, whose value is a `Result`; transform the `Err` value with `f`.
pub struct MapErr<A, F, E> {
    pub a: A,
    pub f: F,
    pub marker: PhantomData<E>,
}

impl<S, T, E, V, A: Parse<S, Result<T, E>>, F: Fn(E) -> V> Parse<S, Result<T, V>> for MapErr<
    A,
    F,
    E,
> {
    open spec fn produces(&self, src: S, r: Res<S, Result<T, V>>) -> bool {
        match r {
            Ok((s2, o)) => exists|s: S, x: Result<T, E>|
                #[trigger] self.a.produces(src, Ok((s, x))) && s == s2 && match x {
                    Ok(t) => o == Ok::<T, V>(t),
                    Err(e) => o is Err && self.f.ensures((e,), o->Err_0),
                },
            Err(e) => self.a.produces(src, Err(e)),
        }
    }

    open spec fn valid(&self) -> bool {
        self.a.valid() && forall|e: E| self.f.requires((e,))
    }

    fn parse(&self, src: S) -> (r: Res<S, Result<T, V>>) {
        match self.a.parse(src) {
            Ok((s2, Ok(t))) => Ok((s2, Ok(t))),
            Ok((s2, Err(e))) => Ok((s2, Err((self.f)(e)))),
            Err(e) => Err(e),
        }
    }
}

} // verus!
