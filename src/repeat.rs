use vstd::prelude::*;

use core::marker::PhantomData;

use crate::combinators::Pfx;
use crate::error::{Ctx, Error, Res};
use crate::parse::{Cursor, Parse, Ref};

verus! {

/// Whether every success of `a` leaves strictly less input than it was given.
pub open spec fn advances<S: Cursor, T, A: Parse<S, T>>(a: A) -> bool {
    forall|s: S, s2: S, t: T| #[trigger] a.produces(s, Ok((s2, t))) ==> s2.remaining() < s.remaining()
}

/// Whether `a`, applied `vs.len()` times from `src`, can succeed with the values `vs`
/// in order and stop at `end`.
pub open spec fn run<S, T, A: Parse<S, T>>(a: A, src: S, vs: Seq<T>, end: S) -> bool
    decreases vs.len(),
{
    if vs.len() == 0 {
        end == src
    } else {
        exists|mid: S, e: S, t: T|
            #[trigger] a.produces(mid, Ok((e, t))) && e == end && t == vs.last() && run(
                a,
                src,
                vs.drop_last(),
                mid,
            )
    }
}

/// Apply `a` until it retries, collecting its values.
pub struct Rep<A> {
    pub a: A,
}

impl<S: Cursor, T, A: Parse<S, T>> Parse<S, Vec<T>> for Rep<A> {
    open spec fn produces(&self, src: S, r: Res<S, Vec<T>>) -> bool {
        match r {
            Ok((end, v)) => run(self.a, src, v@, end) && exists|c: Ctx<S>, e: S|
                #[trigger] self.a.produces(e, Err(Error::Retry(c))) && e == end,
            Err(x) => x is Abort && exists|vs: Seq<T>, mid: S, y: Error<S>|
                #[trigger] run(self.a, src, vs, mid) && #[trigger] self.a.produces(mid, Err(y)) && y
                    == x,
        }
    }

    open spec fn valid(&self) -> bool {
        self.a.valid() && advances(self.a)
    }

    fn parse(&self, src: S) -> (r: Res<S, Vec<T>>) {
        let mut res: Vec<T> = Vec::new();
        let mut cur = src;
        loop
            invariant
                self.valid(),
                run(self.a, src, res@, cur),
            ensures
                run(self.a, src, res@, cur),
                exists|c: Ctx<S>, e: S| #[trigger] self.a.produces(e, Err(Error::Retry(c))) && e == cur,
            decreases cur.remaining(),
        {
            match self.a.parse(cur) {
                Ok((next, t)) => {
                    let ghost before = res@;
                    res.push(t);
                    assert(res@.drop_last() =~= before);
                    cur = next;
                },
                Err(Error::Retry(_ctx)) => {
                    break ;
                },
                Err(Error::Abort(c)) => {
                    return Err(Error::Abort(c));
                },
            }
        }
        Ok((cur, res))
    }
}

/// One or more `a`, separated by `sep`.
pub struct Sep<A, P, U> {
    pub a: A,
    pub sep: P,
    pub marker: PhantomData<U>,
}

impl<A, P, U> Sep<A, P, U> {
    /// What follows the first element: `sep` then `a`, repeated.
    pub open spec fn tail(&self) -> Rep<Pfx<Ref<'_, A>, Ref<'_, P>, U>> {
        Rep { a: Pfx { a: Ref(&self.a), p: Ref(&self.sep), marker: PhantomData } }
    }
}

impl<S: Cursor, T, U, A: Parse<S, T>, P: Parse<S, U>> Parse<S, Vec<T>> for Sep<A, P, U> {
    open spec fn produces(&self, src: S, r: Res<S, Vec<T>>) -> bool {
        match r {
            Ok((end, v)) => exists|s1: S, h: T, e: S, tl: Vec<T>|
                #[trigger] self.a.produces(src, Ok((s1, h))) && #[trigger] self.tail().produces(
                    s1,
                    Ok((e, tl)),
                ) && e == end && v@ == seq![h] + tl@,
            Err(x) => self.a.produces(src, Err(x)) || exists|s1: S, h: T|
                #[trigger] self.a.produces(src, Ok((s1, h))) && self.tail().produces(s1, Err(x)),
        }
    }

    open spec fn valid(&self) -> bool {
        self.a.valid() && self.tail().valid()
    }

    fn parse(&self, src: S) -> (r: Res<S, Vec<T>>) {
        match self.a.parse(src) {
            Ok((s1, head)) => {
                let tail = Rep { a: Pfx { a: Ref(&self.a), p: Ref(&self.sep), marker: PhantomData } };
                match tail.parse(s1) {
                    Ok((s2, rest)) => {
                        let mut v: Vec<T> = Vec::new();
                        v.push(head);
                        let mut rest = rest;
                        v.append(&mut rest);
                        Ok((s2, v))
                    },
                    Err(e) => Err(e),
                }
            },
            Err(e) => Err(e),
        }
    }
}

} // verus!
