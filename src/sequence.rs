use vstd::prelude::*;

use crate::error::{Ctx, Error, Res};
use crate::parse::{retries, Parse};

verus! {

/// Whether `r` is what trying `ps[i..]` in order on `src` may give: the first result that
/// is not a retry, or a retry of its own once every alternative has retried.
pub open spec fn first_of<S, T, P: Parse<S, T>>(ps: Seq<P>, i: int, src: S, r: Res<S, T>) -> bool
    decreases ps.len() - i,
{
    if i < 0 || i >= ps.len() {
        r matches Err(Error::Retry(c)) && Error::<S>::Retry(c).is_leaf(src, "no alternative matched"@)
    } else {
        ||| ps[i].produces(src, r) && !retries(r)
        ||| (exists|c: Ctx<S>| #[trigger] ps[i].produces(src, Err(Error::Retry(c)))) && first_of(
            ps,
            i + 1,
            src,
            r,
        )
    }
}

/// Whether the first `vs.len()` parsers of `ps`, applied in order from `src`, can
/// succeed with the values `vs` and stop at `end`.
pub open spec fn steps<S, T, P: Parse<S, T>>(ps: Seq<P>, src: S, vs: Seq<T>, end: S) -> bool
    decreases vs.len(),
{
    if vs.len() == 0 {
        end == src
    } else {
        vs.len() <= ps.len() && exists|p: P, mid: S, e: S, t: T|
            #[trigger] p.produces(mid, Ok((e, t))) && p == ps[vs.len() - 1] && e == end && t
                == vs.last() && steps(ps, src, vs.drop_last(), mid)
    }
}

/// Try each parser in turn on the same source; the first that does not retry decides.
pub struct Alt<P> {
    pub ps: Vec<P>,
}

/// Try the parsers of `ps` in order.
pub fn alt<P>(ps: Vec<P>) -> (r: Alt<P>)
    ensures
        r.ps == ps,
{
    Alt { ps }
}

impl<S: Copy, T, P: Parse<S, T>> Parse<S, T> for Alt<P> {
    open spec fn produces(&self, src: S, r: Res<S, T>) -> bool {
        first_of(self.ps@, 0, src, r)
    }

    open spec fn valid(&self) -> bool {
        forall|i: int| 0 <= i < self.ps@.len() ==> #[trigger] self.ps@[i].valid()
    }

    fn parse(&self, src: S) -> (r: Res<S, T>) {
        let mut i: usize = 0;
        while i < self.ps.len()
            invariant
                self.valid(),
                i <= self.ps@.len(),
                forall|r: Res<S, T>| #[trigger]
                    first_of(self.ps@, i as int, src, r) ==> first_of(self.ps@, 0, src, r),
            decreases self.ps@.len() - i,
        {
            match self.ps[i].parse(src) {
                Err(Error::Retry(c)) => {
                    assert(self.ps@[i as int].produces(src, Err(Error::Retry(c))));
                    assert forall|r: Res<S, T>| #[trigger]
                        first_of(self.ps@, i + 1, src, r) implies first_of(self.ps@, i as int, src, r) by {}
                    i = i + 1;
                },
                other => {
                    assert(first_of(self.ps@, i as int, src, other));
                    return other;
                },
            }
        }
        let e = Error::retry(src, "no alternative matched");
        assert(first_of(self.ps@, i as int, src, Err(e)));
        Err(e)
    }
}

/// Apply each parser in order, each on what the one before left; collect their values.
pub struct Chain<P> {
    pub ps: Vec<P>,
}

/// Apply the parsers of `ps` one after another.
pub fn chain<P>(ps: Vec<P>) -> (r: Chain<P>)
    ensures
        r.ps == ps,
{
    Chain { ps }
}

impl<S: Copy, T, P: Parse<S, T>> Parse<S, Vec<T>> for Chain<P> {
    open spec fn produces(&self, src: S, r: Res<S, Vec<T>>) -> bool {
        match r {
            Ok((end, v)) => v@.len() == self.ps@.len() && steps(self.ps@, src, v@, end),
            Err(x) => exists|vs: Seq<T>, mid: S, p: P, y: Error<S>|
                #[trigger] steps(self.ps@, src, vs, mid) && #[trigger] p.produces(mid, Err(y)) && vs.len()
                    < self.ps@.len() && p == self.ps@[vs.len() as int] && y == x,
        }
    }

    open spec fn valid(&self) -> bool {
        forall|i: int| 0 <= i < self.ps@.len() ==> #[trigger] self.ps@[i].valid()
    }

    fn parse(&self, src: S) -> (r: Res<S, Vec<T>>) {
        let mut res: Vec<T> = Vec::new();
        let mut cur = src;
        let mut i: usize = 0;
        while i < self.ps.len()
            invariant
                self.valid(),
                i <= self.ps@.len(),
                res@.len() == i,
                steps(self.ps@, src, res@, cur),
            decreases self.ps@.len() - i,
        {
            match self.ps[i].parse(cur) {
                Ok((next, t)) => {
                    let ghost before = res@;
                    assert(self.ps@[i as int].produces(cur, Ok((next, t))));
                    res.push(t);
                    assert(res@.drop_last() =~= before);
                    cur = next;
                    i = i + 1;
                },
                Err(e) => {
                    assert(self.ps@[i as int].produces(cur, Err(e)));
                    return Err(e);
                },
            }
        }
        Ok((cur, res))
    }
}

} // verus!
