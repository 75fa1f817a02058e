use vstd::prelude::*;

use core::marker::PhantomData;

use crate::combinators::{And, AndThen, Iff, MapVal, Opt, Or, OrElse, Pfx, Sfx};
use crate::error::{Error, Res};
use crate::option::{Filter, FilterMap, MapErr, MapOk, OkOr, OkOrElse, Present};
use crate::parse::Parse;
use crate::repeat::{Rep, Sep};

verus! {

/// Extension methods for `Parse<S, T>`.
pub trait ParseExt<S: Copy, T>: Parse<S, T> {
    /// Run `self`, then `rhs`; pair the values.
    fn and<U, B: Parse<S, U>>(self, rhs: B) -> (r: And<Self, B>)
        ensures
            r.a == self && r.b == rhs,
    {
        And { a: self, b: rhs }
    }

    /// Run `self`; where it retries, run `rhs` on the same source.
    fn or<B: Parse<S, T>>(self, rhs: B) -> (r: Or<Self, B>)
        ensures
            r.a == self && r.b == rhs,
    {
        Or { a: self, b: rhs }
    }

    /// Run `self`, then hand the remaining source and the value to `f`.
    fn and_then<U, F: Fn(S, T) -> Res<S, U>>(self, f: F) -> (r: AndThen<Self, F, T>)
        ensures
            r.a == self && r.f == f,
    {
        AndThen { a: self, f, marker: PhantomData }
    }

    /// Run `self`; where it retries, call `f` on the same source.
    fn or_else<F: Fn(S) -> Res<S, T>>(self, f: F) -> (r: OrElse<Self, F>)
        ensures
            r.a == self && r.f == f,
    {
        OrElse { a: self, f }
    }

    /// Make `self` optional: a retry becomes "no value".
    fn opt(self) -> (r: Opt<Self>)
        ensures
            r.a == self,
    {
        Opt { a: self }
    }

    /// Apply `self` until it retries.
    fn rep(self) -> (r: Rep<Self>)
        ensures
            r.a == self,
    {
        Rep { a: self }
    }

    /// One or more `self`, separated by `sep`.
    fn sep<U, P: Parse<S, U>>(self, sep: P) -> (r: Sep<Self, P, U>)
        ensures
            r.a == self && r.sep == sep,
    {
        Sep { a: self, sep, marker: PhantomData }
    }

    /// `pfx`, then `self`; keep the value of `self`.
    fn pfx<U, P: Parse<S, U>>(self, pfx: P) -> (r: Pfx<Self, P, U>)
        ensures
            r.a == self && r.p == pfx,
    {
        Pfx { a: self, p: pfx, marker: PhantomData }
    }

    /// An optional `pfx`, then `self`; keep the value of `self`.
    fn pfx_opt<U, P: Parse<S, U>>(self, pfx: P) -> (r: Pfx<Self, Opt<P>, Option<U>>)
        ensures
            r.a == self && r.p.a == pfx,
    {
        Pfx { a: self, p: Opt { a: pfx }, marker: PhantomData }
    }

    /// `self`, then `sfx`; keep the value of `self`.
    fn sfx<U, P: Parse<S, U>>(self, sfx: P) -> (r: Sfx<Self, P, U>)
        ensures
            r.a == self && r.p == sfx,
    {
        Sfx { a: self, p: sfx, marker: PhantomData }
    }

    /// `self`, then an optional `sfx`; keep the value of `self`.
    fn sfx_opt<U, P: Parse<S, U>>(self, sfx: P) -> (r: Sfx<Self, Opt<P>, Option<U>>)
        ensures
            r.a == self && r.p.a == sfx,
    {
        Sfx { a: self, p: Opt { a: sfx }, marker: PhantomData }
    }

    /// `self` between `pfx` and `sfx`; keep the value of `self`.
    fn del<U, V, P: Parse<S, U>, Q: Parse<S, V>>(self, pfx: P, sfx: Q) -> (r: Sfx<
        Pfx<Self, P, U>,
        Q,
        V,
    >)
        ensures
            r.a.a == self && r.a.p == pfx && r.p == sfx,
    {
        Sfx { a: Pfx { a: self, p: pfx, marker: PhantomData }, p: sfx, marker: PhantomData }
    }

    /// `self` between an optional `pfx` and an optional `sfx`; keep the value of `self`.
    fn del_opt<U, V, P: Parse<S, U>, Q: Parse<S, V>>(self, pfx: P, sfx: Q) -> (r: Sfx<
        Pfx<Self, Opt<P>, Option<U>>,
        Opt<Q>,
        Option<V>,
    >)
        ensures
            r.a.a == self && r.a.p.a == pfx && r.p.a == sfx,
    {
        let inner = Pfx { a: self, p: Opt { a: pfx }, marker: PhantomData };
        Sfx { a: inner, p: Opt { a: sfx }, marker: PhantomData }
    }

    /// Transform the value of `self` with `f`.
    fn map<U, F: Fn(T) -> U>(self, f: F) -> (r: MapVal<Self, F, T>)
        ensures
            r.a == self && r.f == f,
    {
        MapVal { a: self, f, marker: PhantomData }
    }

    /// Keep the value of `self` only where `f` holds of it.
    fn iff<F: Fn(&T) -> bool>(self, f: F) -> (r: Iff<Self, F>)
        ensures
            r.a == self && r.f == f,
    {
        Iff { a: self, f }
    }
}

impl<S: Copy, T, P: Parse<S, T>> ParseExt<S, T> for P {}

/// Extension methods for `Parse<S, Option<T>>`.
pub trait ParseOptExt<S: Copy, T>: Parse<S, Option<T>> {
    /// Turn "no value" into a retry.
    fn ok(self) -> (r: Present<Self>)
        ensures
            r.a == self,
    {
        Present { a: self }
    }

    /// Turn "no value" into the error `err`.
    fn ok_or(self, err: Error<S>) -> (r: OkOr<Self, S>)
        ensures
            r.a == self && r.err == err,
    {
        OkOr { a: self, err }
    }

    /// Turn "no value" into the error that `f` makes of the source.
    fn ok_or_else<F: Fn(S) -> Error<S>>(self, f: F) -> (r: OkOrElse<Self, F>)
        ensures
            r.a == self && r.f == f,
    {
        OkOrElse { a: self, f }
    }

    /// Keep the value only where `f` holds of it.
    fn filter<F: Fn(&T) -> bool>(self, f: F) -> (r: Filter<Self, F>)
        ensures
            r.a == self && r.f == f,
    {
        Filter { a: self, f }
    }

    /// Transform the value with `f`, which may also drop it.
    fn filter_map<U, F: Fn(T) -> Option<U>>(self, f: F) -> (r: FilterMap<Self, F, T>)
        ensures
            r.a == self && r.f == f,
    {
        FilterMap { a: self, f, marker: PhantomData }
    }
}

impl<S: Copy, T, P: Parse<S, Option<T>>> ParseOptExt<S, T> for P {}

/// Extension methods for `Parse<S, Result<T, E>>`.
pub trait ParseResExt<S: Copy, T, E>: Parse<S, Result<T, E>> {
    /// Transform the `Ok` value with `f`.
    fn map_ok<U, F: Fn(T) -> U>(self, f: F) -> (r: MapOk<Self, F, T>)
        ensures
            r.a == self && r.f == f,
    {
        MapOk { a: self, f, marker: PhantomData }
    }

    /// Transform the `Err` value with `f`.
    fn map_err<U, F: Fn(E) -> U>(self, f: F) -> (r: MapErr<Self, F, E>)
        ensures
            r.a == self && r.f == f,
    {
        MapErr { a: self, f, marker: PhantomData }
    }
}

impl<S: Copy, T, E, P: Parse<S, Result<T, E>>> ParseResExt<S, T, E> for P {}

} // verus!
