use vstd::prelude::*;

use core::marker::PhantomData;

use crate::error::{Ctx, Error, Res};
use crate::parse::{retries, Parse};

verus! {

/// Run `a`, then `b` on what remains; pair both values.
pub struct And<A, B> {
    pub a: A,
    pub b: B,
}

impl<S, T, U, A: Parse<S, T>, B: Parse<S, U>> Parse<S, (T, U)> for And<A, B> {
    open spec fn produces(&self, src: S, r: Res<S, (T, U)>) -> bool {
        match r {
            Ok((s2, (t, u))) => exists|s1: S, t1: T|
                #[trigger] self.a.produces(src, Ok((s1, t1))) && t1 == t && self.b.produces(
                    s1,
                    Ok((s2, u)),
                ),
            Err(e) => self.a.produces(src, Err(e)) || exists|s1: S, t: T|
                #[trigger] self.a.produces(src, Ok((s1, t))) && self.b.produces(s1, Err(e)),
        }
    }

    open spec fn valid(&self) -> bool {
        self.a.valid() && self.b.valid()
    }

    fn parse(&self, src: S) -> (r: Res<S, (T, U)>) {
        match self.a.parse(src) {
            Ok((s1, t)) => {
                match self.b.parse(s1) {
                    Ok((s2, u)) => Ok((s2, (t, u))),
                    Err(e) => Err(e),
                }
            },
            Err(e) => Err(e),
        }
    }
}

/// Run `a`; where it retries, run `b` on the same source instead.
pub struct Or<A, B> {
    pub a: A,
    pub b: B,
}

impl<S: Copy, T, A: Parse<S, T>, B: Parse<S, T>> Parse<S, T> for Or<A, B> {
    open spec fn produces(&self, src: S, r: Res<S, T>) -> bool {
        ||| self.a.produces(src, r) && !retries(r)
        ||| (exists|c: Ctx<S>| #[trigger] self.a.produces(src, Err(Error::Retry(c))))
            && self.b.produces(src, r)
    }

    open spec fn valid(&self) -> bool {
        self.a.valid() && self.b.valid()
    }

    fn parse(&self, src: S) -> (r: Res<S, T>) {
        match self.a.parse(src) {
            Err(Error::Retry(_ctx)) => self.b.parse(src),
            other => other,
        }
    }
}

/// Run `a`; on success hand the remaining source and the value to `f`, whose result is
/// the result.
pub struct AndThen<A, F, T> {
    pub a: A,
    pub f: F,
    pub marker: PhantomData<T>,
}

impl<S, T, U, A: Parse<S, T>, F: Fn(S, T) -> Res<S, U>> Parse<S, U> for AndThen<A, F, T> {
    open spec fn produces(&self, src: S, r: Res<S, U>) -> bool {
        ||| exists|s1: S, t: T| #[trigger] self.a.produces(src, Ok((s1, t))) && self.f.ensures((s1, t), r)
        ||| r matches Err(e) && self.a.produces(src, Err(e))
    }

    open spec fn valid(&self) -> bool {
        self.a.valid() && forall|s: S, t: T| self.f.requires((s, t))
    }

    fn parse(&self, src: S) -> (r: Res<S, U>) {
        match self.a.parse(src) {
            Ok((s1, t)) => (self.f)(s1, t),
            Err(e) => Err(e),
        }
    }
}

/// Run `a`; where it retries, call `f` on the same source instead.
pub struct OrElse<A, F> {
    pub a: A,
    pub f: F,
}

impl<S: Copy, T, A: Parse<S, T>, F: Fn(S) -> Res<S, T>> Parse<S, T> for OrElse<A, F> {
    open spec fn produces(&self, src: S, r: Res<S, T>) -> bool {
        ||| self.a.produces(src, r) && !retries(r)
        ||| (exists|c: Ctx<S>| #[trigger] self.a.produces(src, Err(Error::Retry(c))))
            && self.f.ensures((src,), r)
    }

    open spec fn valid(&self) -> bool {
        self.a.valid() && forall|s: S| self.f.requires((s,))
    }

    fn parse(&self, src: S) -> (r: Res<S, T>) {
        match self.a.parse(src) {
            Err(Error::Retry(_ctx)) => (self.f)(src),
            other => other,
        }
    }
}

/// Run `a`; a retry becomes "no value" at the same source.
pub struct Opt<A> {
    pub a: A,
}

impl<S: Copy, T, A: Parse<S, T>> Parse<S, Option<T>> for Opt<A> {
    open spec fn produces(&self, src: S, r: Res<S, Option<T>>) -> bool {
        match r {
            Ok((s2, Some(t))) => self.a.produces(src, Ok((s2, t))),
            Ok((s2, None)) => s2 == src && exists|c: Ctx<S>|
                #[trigger] self.a.produces(src, Err(Error::Retry(c))),
            Err(e) => e is Abort && self.a.produces(src, Err(e)),
        }
    }

    open spec fn valid(&self) -> bool {
        self.a.valid()
    }

    fn parse(&self, src: S) -> (r: Res<S, Option<T>>) {
        match self.a.parse(src) {
            Ok((s2, t)) => Ok((s2, Some(t))),
            Err(Error::Retry(_ctx)) => Ok((src, None)),
            Err(e) => Err(e),
        }
    }
}

/// Run `p`, then `a` on what remains; keep the value of `a`.
pub struct Pfx<A, P, U> {
    pub a: A,
    pub p: P,
    pub marker: PhantomData<U>,
}

impl<S, T, U, A: Parse<S, T>, P: Parse<S, U>> Parse<S, T> for Pfx<A, P, U> {
    open spec fn produces(&self, src: S, r: Res<S, T>) -> bool {
        match r {
            Ok((s2, t)) => exists|s1: S, u: U|
                #[trigger] self.p.produces(src, Ok((s1, u))) && self.a.produces(s1, Ok((s2, t))),
            Err(e) => self.p.produces(src, Err(e)) || exists|s1: S, u: U|
                #[trigger] self.p.produces(src, Ok((s1, u))) && self.a.produces(s1, Err(e)),
        }
    }

    open spec fn valid(&self) -> bool {
        self.a.valid() && self.p.valid()
    }

    fn parse(&self, src: S) -> (r: Res<S, T>) {
        match self.p.parse(src) {
            Ok((s1, _)) => self.a.parse(s1),
            Err(e) => Err(e),
        }
    }
}

/// Run `a`, then `p` on what remains; keep the value of `a`.
pub struct Sfx<A, P, U> {
    pub a: A,
    pub p: P,
    pub marker: PhantomData<U>,
}

impl<S, T, U, A: Parse<S, T>, P: Parse<S, U>> Parse<S, T> for Sfx<A, P, U> {
    open spec fn produces(&self, src: S, r: Res<S, T>) -> bool {
        match r {
            Ok((s2, t)) => exists|s1: S, t1: T, s3: S, u: U|
                #[trigger] self.a.produces(src, Ok((s1, t1))) && #[trigger] self.p.produces(
                    s1,
                    Ok((s3, u)),
                ) && t1 == t && s3 == s2,
            Err(e) => self.a.produces(src, Err(e)) || exists|s1: S, t: T|
                #[trigger] self.a.produces(src, Ok((s1, t))) && self.p.produces(s1, Err(e)),
        }
    }

    open spec fn valid(&self) -> bool {
        self.a.valid() && self.p.valid()
    }

    fn parse(&self, src: S) -> (r: Res<S, T>) {
        match self.a.parse(src) {
            Ok((s1, t)) => {
                match self.p.parse(s1) {
                    Ok((s2, _)) => Ok((s2, t)),
                    Err(e) => Err(e),
                }
            },
            Err(e) => Err(e),
        }
    }
}

/// Run `a` and transform its value with `f`.
pub struct MapVal<A, F, T> {
    pub a: A,
    pub f: F,
    pub marker: PhantomData<T>,
}

impl<S, T, U, A: Parse<S, T>, F: Fn(T) -> U> Parse<S, U> for MapVal<A, F, T> {
    open spec fn produces(&self, src: S, r: Res<S, U>) -> bool {
        match r {
            Ok((s2, u)) => exists|s: S, t: T|
                #[trigger] self.a.produces(src, Ok((s, t))) && s == s2 && self.f.ensures((t,), u),
            Err(e) => self.a.produces(src, Err(e)),
        }
    }

    open spec fn valid(&self) -> bool {
        self.a.valid() && forall|t: T| self.f.requires((t,))
    }

    fn parse(&self, src: S) -> (r: Res<S, U>) {
        match self.a.parse(src) {
            Ok((s2, t)) => {
                let u = (self.f)(t);
                Ok((s2, u))
            },
            Err(e) => Err(e),
        }
    }
}

/// Run `a` and keep its value only where `f` holds of it, else give "no value".
pub struct Iff<A, F> {
    pub a: A,
    pub f: F,
}

impl<S, T, A: Parse<S, T>, F: Fn(&T) -> bool> Parse<S, Option<T>> for Iff<A, F> {
    open spec fn produces(&self, src: S, r: Res<S, Option<T>>) -> bool {
        match r {
            Ok((s2, o)) => exists|s: S, t: T, b: bool|
                #[trigger] self.a.produces(src, Ok((s, t))) && #[trigger] self.f.ensures((&t,), b) && s
                    == s2 && o == (
                if b {
                    Some(t)
                } else {
                    None
                }),
            Err(e) => self.a.produces(src, Err(e)),
        }
    }

    open spec fn valid(&self) -> bool {
        self.a.valid() && forall|t: &T| self.f.requires((t,))
    }

    fn parse(&self, src: S) -> (r: Res<S, Option<T>>) {
        match self.a.parse(src) {
            Ok((s2, t)) => {
                if (self.f)(&t) {
                    Ok((s2, Some(t)))
                } else {
                    Ok((s2, None))
                }
            },
            Err(e) => Err(e),
        }
    }
}

} // verus!
