use vstd::prelude::*;

use crate::combinators::{And, MapVal, Opt, Or};
use crate::option::OkOr;
use crate::error::{Ctx, Error, Res};
use crate::parse::{retries, Cursor, Parse};
use crate::repeat::{run, Rep};
use crate::sequence::{steps, Chain};

verus! {

/// Where `a` succeeds on `c` with `(c2, v)`, its optional form succeeds there with
/// `(c2, Some(v))`; where that success is all `a` can give, it is all the optional form
/// can give.
pub proof fn opt_keeps_success<S: Copy, T, A: Parse<S, T>>(a: A, c: S, c2: S, v: T)
    requires
        a.produces(c, Ok((c2, v))),
    ensures
        (Opt { a }).produces(c, Ok((c2, Some(v)))),
        (forall|r: Res<S, T>| #[trigger] a.produces(c, r) ==> r == Ok::<(S, T), Error<S>>((c2, v)))
            ==> forall|r: Res<S, Option<T>>| #[trigger]
            (Opt { a }).produces(c, r) ==> r == Ok::<(S, Option<T>), Error<S>>((c2, Some(v))),
{
}

/// Where `a` retries on `c`, its optional form succeeds there with no value and the
/// source unchanged; the optional form never retries.
pub proof fn opt_turns_retry_into_none<S: Copy, T, A: Parse<S, T>>(a: A, c: S, x: Ctx<S>)
    requires
        a.produces(c, Err(Error::Retry(x))),
    ensures
        (Opt { a }).produces(c, Ok((c, None))),
        forall|r: Res<S, Option<T>>| #[trigger] (Opt { a }).produces(c, r) ==> !retries(r),
        (forall|r: Res<S, T>| #[trigger] a.produces(c, r) ==> retries(r)) ==> forall|
            r: Res<S, Option<T>>,
        | #[trigger] (Opt { a }).produces(c, r) ==> r == Ok::<(S, Option<T>), Error<S>>((c, None)),
{
    let o = Opt { a };
    assert(o.a.produces(c, Err(Error::Retry(x))));
    assert(exists|y: Ctx<S>| #[trigger] o.a.produces(c, Err(Error::Retry(y))));
    let none: Res<S, Option<T>> = Ok((c, None));
    assert(o.produces(c, none));
}

/// Where `a` aborts on `c`, `a.or(b)` gives that same abort and nothing else, whatever
/// `b` is: `b` has no say in the result.
pub proof fn or_passes_abort<S: Copy, T, A: Parse<S, T>, B: Parse<S, T>>(
    a: A,
    b: B,
    c: S,
    x: Ctx<S>,
)
    requires
        forall|r: Res<S, T>| #[trigger]
            a.produces(c, r) <==> r == Err::<(S, T), Error<S>>(Error::Abort(x)),
    ensures
        forall|r: Res<S, T>| #[trigger]
            (Or { a, b }).produces(c, r) <==> r == Err::<(S, T), Error<S>>(Error::Abort(x)),
{
    assert forall|r: Res<S, T>| #[trigger]
        (Or { a, b }).produces(c, r) <==> r == Err::<(S, T), Error<S>>(Error::Abort(x)) by {
        if (Or { a, b }).produces(c, r) {
            if exists|y: Ctx<S>| #[trigger] a.produces(c, Err(Error::Retry(y))) {
                let y = choose|y: Ctx<S>| #[trigger] a.produces(c, Err(Error::Retry(y)));
                assert(a.produces(c, Err(Error::Retry(y))));
            }
        }
        if r == Err::<(S, T), Error<S>>(Error::Abort(x)) {
            assert(a.produces(c, r));
        }
    }
}

/// Repeating a parser that only ever retries gives the empty list at the source it was
/// given, and nothing else.
pub proof fn rep_of_retrying_is_empty<S: Cursor, T, A: Parse<S, T>>(a: A, c: S, x: Ctx<S>)
    requires
        forall|s: S, r: Res<S, T>| #[trigger] a.produces(s, r) ==> retries(r),
        a.produces(c, Err(Error::Retry(x))),
    ensures
        forall|r: Res<S, Vec<T>>| #[trigger]
            (Rep { a }).produces(c, r) <==> (r matches Ok((c2, v)) && c2 == c && v@.len() == 0),
{
    assert forall|r: Res<S, Vec<T>>| #[trigger]
        (Rep { a }).produces(c, r) <==> (r matches Ok((c2, v)) && c2 == c && v@.len() == 0) by {
        match r {
            Ok((c2, v)) => {
                if v@.len() > 0 {
                    if run(a, c, v@, c2) {
                        let (mid, e, t) = choose|mid: S, e: S, t: T|
                            #[trigger] a.produces(mid, Ok((e, t))) && e == c2 && t == v@.last()
                                && run(a, c, v@.drop_last(), mid);
                        assert(retries(Ok::<(S, T), Error<S>>((e, t))));
                    }
                }
            },
            Err(y) => {
                if (Rep { a }).produces(c, r) {
                    let (vs, mid, z) = choose|vs: Seq<T>, mid: S, z: Error<S>|
                        #[trigger] run(a, c, vs, mid) && #[trigger] a.produces(mid, Err(z)) && z
                            == y;
                    assert(retries(Err::<(S, T), Error<S>>(z)));
                }
            },
        }
    }
}

/// Mapping with `f` and then with `g` behaves as mapping once with a function `h` whose
/// results are those of `g` after `f`.
pub proof fn map_composes<S, T, U, V, A: Parse<S, T>, F: Fn(T) -> U, G: Fn(U) -> V, H: Fn(T) -> V>(
    twice: MapVal<MapVal<A, F, T>, G, U>,
    once: MapVal<A, H, T>,
)
    requires
        once.a == twice.a.a,
        forall|t: T, w: V| #[trigger]
            once.f.ensures((t,), w) <==> exists|u: U|
                #[trigger] twice.a.f.ensures((t,), u) && twice.f.ensures((u,), w),
    ensures
        forall|c: S, r: Res<S, V>| #[trigger] twice.produces(c, r) <==> once.produces(c, r),
{
    assert forall|c: S, r: Res<S, V>| #[trigger] twice.produces(c, r) <==> once.produces(c, r) by {
        if let Ok((c2, w)) = r {
            if twice.produces(c, r) {
                let (s, u) = choose|s: S, u: U|
                    #[trigger] twice.a.produces(c, Ok((s, u))) && s == c2 && twice.f.ensures((u,), w);
                let (s1, t) = choose|s1: S, t: T|
                    #[trigger] once.a.produces(c, Ok((s1, t))) && s1 == s && twice.a.f.ensures((t,), u);
                assert(once.f.ensures((t,), w));
            }
            if once.produces(c, r) {
                let (s, t) = choose|s: S, t: T|
                    #[trigger] once.a.produces(c, Ok((s, t))) && s == c2 && once.f.ensures((t,), w);
                let u = choose|u: U| #[trigger] twice.a.f.ensures((t,), u) && twice.f.ensures((u,), w);
                assert(twice.a.produces(c, Ok((s, u))));
            }
        }
    }
}

/// Whether the three parsers of `ps` succeed in turn from `c` with the values `vs`,
/// passing through `m1` and `m2` and stopping at `end`.
pub open spec fn three_steps<S, T, P: Parse<S, T>>(
    ps: Seq<P>,
    c: S,
    vs: Seq<T>,
    m1: S,
    m2: S,
    end: S,
) -> bool {
    &&& ps[0].produces(c, Ok((m1, vs[0])))
    &&& ps[1].produces(m1, Ok((m2, vs[1])))
    &&& ps[2].produces(m2, Ok((end, vs[2])))
}

proof fn steps_of_three<S, T, P: Parse<S, T>>(ps: Seq<P>, c: S, vs: Seq<T>, end: S)
    requires
        ps.len() == 3,
        vs.len() == 3,
    ensures
        steps(ps, c, vs, end) <==> exists|m1: S, m2: S| #[trigger] three_steps(ps, c, vs, m1, m2, end),
{
    let v2 = vs.drop_last();
    let v1 = v2.drop_last();
    let v0 = v1.drop_last();
    assert(v0.len() == 0);
    if steps(ps, c, vs, end) {
        let (p2, m2, e2, t2) = choose|p: P, mid: S, e: S, t: T|
            #[trigger] p.produces(mid, Ok((e, t))) && p == ps[2] && e == end && t == vs.last()
                && steps(ps, c, v2, mid);
        let (p1, m1, e1, t1) = choose|p: P, mid: S, e: S, t: T|
            #[trigger] p.produces(mid, Ok((e, t))) && p == ps[1] && e == m2 && t == v2.last()
                && steps(ps, c, v1, mid);
        let (p0, m0, e0, t0) = choose|p: P, mid: S, e: S, t: T|
            #[trigger] p.produces(mid, Ok((e, t))) && p == ps[0] && e == m1 && t == v1.last()
                && steps(ps, c, v0, mid);
        assert(three_steps(ps, c, vs, m1, m2, end));
    }
    if exists|m1: S, m2: S| #[trigger] three_steps(ps, c, vs, m1, m2, end) {
        let (m1, m2) = choose|m1: S, m2: S| #[trigger] three_steps(ps, c, vs, m1, m2, end);
        assert(ps[0].produces(c, Ok((m1, v1.last()))));
        assert(steps(ps, c, v0, c));
        assert(steps(ps, c, v1, m1));
        assert(ps[1].produces(m1, Ok((m2, v2.last()))));
        assert(steps(ps, c, v2, m2));
        assert(ps[2].produces(m2, Ok((end, vs.last()))));
    }
}

/// Applying three parsers with `chain` behaves as joining them with `and`, the values
/// flattened into one list: the same values in the same order, the same remaining
/// source, and the same errors.
pub proof fn chain_flattens_and<S: Copy, T, P: Parse<S, T>>(
    ch: Chain<P>,
    nested: And<And<P, P>, P>,
    c: S,
)
    requires
        ch.ps@.len() == 3,
        nested.a.a == ch.ps@[0],
        nested.a.b == ch.ps@[1],
        nested.b == ch.ps@[2],
    ensures
        forall|end: S, v: Vec<T>| #[trigger]
            ch.produces(c, Ok((end, v))) <==> v@.len() == 3 && nested.produces(
                c,
                Ok((end, ((v@[0], v@[1]), v@[2]))),
            ),
        forall|e: Error<S>| #[trigger] ch.produces(c, Err(e)) <==> nested.produces(c, Err(e)),
{
    let ps = ch.ps@;
    assert forall|end: S, v: Vec<T>| #[trigger]
        ch.produces(c, Ok((end, v))) <==> v@.len() == 3 && nested.produces(
            c,
            Ok((end, ((v@[0], v@[1]), v@[2]))),
        ) by {
        if v@.len() == 3 {
            steps_of_three(ps, c, v@, end);
            if ch.produces(c, Ok((end, v))) {
                let (m1, m2) = choose|m1: S, m2: S| #[trigger] three_steps(ps, c, v@, m1, m2, end);
                assert(nested.a.a.produces(c, Ok((m1, v@[0]))));
                assert(nested.a.produces(c, Ok((m2, (v@[0], v@[1])))));
            }
            if nested.produces(c, Ok((end, ((v@[0], v@[1]), v@[2])))) {
                let (m2, t01) = choose|s1: S, t1: (T, T)|
                    #[trigger] nested.a.produces(c, Ok((s1, t1))) && t1 == (v@[0], v@[1])
                        && nested.b.produces(s1, Ok((end, v@[2])));
                let (m1, t0) = choose|s1: S, t1: T|
                    #[trigger] nested.a.a.produces(c, Ok((s1, t1))) && t1 == v@[0]
                        && nested.a.b.produces(s1, Ok((m2, v@[1])));
                assert(three_steps(ps, c, v@, m1, m2, end));
            }
        }
    }
    assert forall|e: Error<S>| #[trigger] ch.produces(c, Err(e)) <==> nested.produces(c, Err(e)) by {
        let x: Res<S, (T, T)> = Err(e);
        if ch.produces(c, Err(e)) {
            let (vs, mid, p, y) = choose|vs: Seq<T>, mid: S, p: P, y: Error<S>|
                #[trigger] steps(ps, c, vs, mid) && #[trigger] p.produces(mid, Err(y)) && vs.len()
                    < ps.len() && p == ps[vs.len() as int] && y == e;
            if vs.len() == 0 {
                assert(nested.a.produces(c, x));
            } else if vs.len() == 1 {
                let (p0, m0, e0, t0) = choose|p: P, m: S, e: S, t: T|
                    #[trigger] p.produces(m, Ok((e, t))) && p == ps[0] && e == mid && t == vs.last()
                        && steps(ps, c, vs.drop_last(), m);
                assert(nested.a.a.produces(c, Ok((mid, t0))));
                assert(nested.a.produces(c, x));
            } else {
                let (p1, m1, e1, t1) = choose|p: P, m: S, e: S, t: T|
                    #[trigger] p.produces(m, Ok((e, t))) && p == ps[1] && e == mid && t == vs.last()
                        && steps(ps, c, vs.drop_last(), m);
                let v1 = vs.drop_last();
                let (p0, m0, e0, t0) = choose|p: P, m: S, e: S, t: T|
                    #[trigger] p.produces(m, Ok((e, t))) && p == ps[0] && e == m1 && t == v1.last()
                        && steps(ps, c, v1.drop_last(), m);
                assert(nested.a.a.produces(c, Ok((m1, t0))));
                assert(nested.a.produces(c, Ok((mid, (t0, t1)))));
                assert(nested.b.produces(mid, Err(e)));
            }
        }
        if nested.produces(c, Err(e)) {
            let none = Seq::<T>::empty();
            assert(steps(ps, c, none, c));
            if nested.a.produces(c, x) {
                if ps[0].produces(c, Err(e)) {
                    assert(ps[none.len() as int].produces(c, Err(e)));
                } else {
                    let (s1, t0) = choose|s1: S, t: T|
                        #[trigger] ps[0].produces(c, Ok((s1, t))) && ps[1].produces(s1, Err(e));
                    let one = seq![t0];
                    assert(one.drop_last() =~= none);
                    assert(steps(ps, c, one, s1));
                    assert(ps[one.len() as int].produces(s1, Err(e)));
                }
            } else {
                let (s2, t01) = choose|s1: S, t: (T, T)|
                    #[trigger] nested.a.produces(c, Ok((s1, t))) && ps[2].produces(s1, Err(e));
                let (s1, t0) = choose|s1: S, t: T|
                    #[trigger] ps[0].produces(c, Ok((s1, t))) && t == t01.0 && ps[1].produces(
                        s1,
                        Ok((s2, t01.1)),
                    );
                let one = seq![t0];
                let two = seq![t0, t01.1];
                assert(one.drop_last() =~= none);
                assert(two.drop_last() =~= one);
                assert(steps(ps, c, one, s1));
                assert(steps(ps, c, two, s2));
                assert(ps[two.len() as int].produces(s2, Err(e)));
            }
        }
    }
}

/// Where `a` gives no value on `c` and `err` is fatal, `a.ok_or(err).or(b)` gives `err`
/// and nothing else, whatever `b` is: the alternative is never taken.
pub proof fn ok_or_abort_escapes_or<S: Copy, T, A: Parse<S, Option<T>>, B: Parse<S, T>>(
    a: A,
    err: Error<S>,
    b: B,
    c: S,
    c2: S,
)
    requires
        forall|r: Res<S, Option<T>>| #[trigger]
            a.produces(c, r) <==> r == Ok::<(S, Option<T>), Error<S>>((c2, None)),
        err is Abort,
    ensures
        forall|r: Res<S, T>| #[trigger]
            (Or { a: OkOr { a, err }, b }).produces(c, r) <==> r == Err::<(S, T), Error<S>>(err),
{
    let p = OkOr { a, err };
    let none: Res<S, Option<T>> = Ok((c2, None));
    assert(p.a.produces(c, none));
    assert forall|r: Res<S, T>| #[trigger] p.produces(c, r) implies r == Err::<(S, T), Error<S>>(err) by {
        if let Ok((s2, t)) = r {
            let (s, x) = choose|s: S, x: T| #[trigger] p.a.produces(c, Ok((s, Some(x)))) && s == s2 && x == t;
        }
        if let Err(e) = r {
            assert(!p.a.produces(c, Err(e)));
        }
    }
    assert forall|r: Res<S, T>| #[trigger]
        (Or { a: p, b }).produces(c, r) <==> r == Err::<(S, T), Error<S>>(err) by {
        if exists|y: Ctx<S>| #[trigger] p.produces(c, Err(Error::Retry(y))) {
            let y = choose|y: Ctx<S>| #[trigger] p.produces(c, Err(Error::Retry(y)));
            assert(p.produces(c, Err(Error::Retry(y))));
        }
        if r == Err::<(S, T), Error<S>>(err) {
            assert(p.produces(c, r));
        }
    }
}

} // verus!
