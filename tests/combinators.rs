use std::cell::Cell;

use baum::{alt, any, chain, Error, Parse, ParseExt, ParseMut, ParseOptExt, ParseResExt, Res, WithCtx};

type Src = &'static [i32];

fn literal(n: i32) -> impl Fn(Src) -> Res<Src, i32> {
    move |src: Src| match any(src) {
        Ok((rest, t)) if *t == n => Ok((rest, *t)),
        Ok(_) => Err(Error::retry(src, "unexpected element")),
        Err(e) => Err(e),
    }
}

fn digit(src: Src) -> Res<Src, i32> {
    match any(src) {
        Ok((rest, t)) if (0..10).contains(t) => Ok((rest, *t)),
        Ok(_) => Err(Error::retry(src, "not a digit")),
        Err(e) => Err(e),
    }
}

fn always_retry(src: Src) -> Res<Src, i32> {
    Err(Error::retry(src, "never matches"))
}

fn always_abort(src: Src) -> Res<Src, i32> {
    Err(Error::abort(src, "fatal"))
}

#[test]
fn any_takes_first_element() {
    let src: Src = &[1, 2, 3];
    let (rest, t) = any(src).unwrap();
    assert_eq!(rest, &[2, 3]);
    assert_eq!(*t, 1);
}

#[test]
fn rep_any_consumes_everything() {
    let src: Src = &[1, 2, 3];
    let (rest, ts) = any.rep().parse(src).unwrap();
    assert!(rest.is_empty());
    let vals: Vec<i32> = ts.into_iter().copied().collect();
    assert_eq!(vals, vec![1, 2, 3]);
}

#[test]
fn any_on_empty_retries() {
    let src: Src = &[];
    match any(src) {
        Err(Error::Retry(ctx)) => {
            assert_eq!(ctx.msg(), "unexpected end of input");
            assert!(ctx.src().is_empty());
            assert!(ctx.ctx().is_none());
        }
        other => panic!("expected a retry, got {:?}", other),
    }
}

#[test]
fn alt_takes_first_matching_literal() {
    let src: Src = &[2, 3];
    let (rest, v) = alt(vec![literal(1), literal(2)]).parse(src).unwrap();
    assert_eq!(rest, &[3]);
    assert_eq!(v, 2);
}

#[test]
fn alt_retries_when_nothing_matches() {
    let src: Src = &[5];
    match alt(vec![literal(1), literal(2)]).parse(src) {
        Err(Error::Retry(ctx)) => {
            assert_eq!(ctx.msg(), "no alternative matched");
            assert_eq!(*ctx.src(), src);
        }
        other => panic!("expected a retry, got {:?}", other),
    }
}

#[test]
fn alt_stops_at_abort() {
    let src: Src = &[2];
    let r = alt(vec![always_abort as fn(Src) -> Res<Src, i32>, literal_two]).parse(src);
    assert!(matches!(r, Err(Error::Abort(_))));
}

fn literal_two(src: Src) -> Res<Src, i32> {
    literal(2)(src)
}

#[test]
fn ok_or_abort_is_not_caught_by_or() {
    let src: Src = &[7, 8];
    let tried = Cell::new(false);
    let sibling = |s: Src| -> Res<Src, i32> {
        tried.set(true);
        Ok((s, 0))
    };
    let required = digit
        .iff(|t: &i32| *t == 1)
        .map(|o: Option<i32>| o)
        .filter(|_: &i32| true)
        .ok_or(Error::abort(src, "missing required token"));
    let wrapped = (|s: Src| -> Res<Src, Option<i32>> { Ok((s, None)) })
        .ok_or(Error::abort(src, "missing required token"));
    match wrapped.or(sibling).parse(src) {
        Err(Error::Abort(ctx)) => assert_eq!(ctx.msg(), "missing required token"),
        other => panic!("expected an abort, got {:?}", other),
    }
    assert!(!tried.get());
    assert!(matches!(required.or(sibling).parse(src), Err(Error::Abort(_))));
    assert!(!tried.get());
}

#[test]
fn opt_wraps_success_in_some() {
    let src: Src = &[4, 5];
    let (rest, v) = digit.opt().parse(src).unwrap();
    assert_eq!(rest, &[5]);
    assert_eq!(v, Some(4));
}

#[test]
fn opt_turns_retry_into_none_at_same_source() {
    let src: Src = &[42];
    let (rest, v) = digit.opt().parse(src).unwrap();
    assert_eq!(rest, src);
    assert_eq!(v, None);
}

#[test]
fn opt_passes_abort() {
    let src: Src = &[1];
    assert!(matches!(always_abort.opt().parse(src), Err(Error::Abort(_))));
}

#[test]
fn or_returns_abort_without_running_rhs() {
    let src: Src = &[1];
    let tried = Cell::new(false);
    let rhs = |s: Src| -> Res<Src, i32> {
        tried.set(true);
        Ok((s, 9))
    };
    match always_abort.or(rhs).parse(src) {
        Err(Error::Abort(ctx)) => assert_eq!(ctx.msg(), "fatal"),
        other => panic!("expected an abort, got {:?}", other),
    }
    assert!(!tried.get());
}

#[test]
fn or_tries_rhs_on_retry() {
    let src: Src = &[2, 9];
    let (rest, v) = literal(1).or(literal(2)).parse(src).unwrap();
    assert_eq!(rest, &[9]);
    assert_eq!(v, 2);
}

#[test]
fn rep_of_retrying_parser_is_empty() {
    for src in [&[][..], &[1, 2][..], &[7][..]] {
        let (rest, vs) = always_retry.rep().parse(src).unwrap();
        assert_eq!(rest, src);
        assert!(vs.is_empty());
    }
}

#[test]
fn rep_stops_before_failing_attempt() {
    let src: Src = &[1, 2, 30, 4];
    let (rest, vs) = digit.rep().parse(src).unwrap();
    assert_eq!(rest, &[30, 4]);
    assert_eq!(vs, vec![1, 2]);
}

#[test]
fn rep_propagates_abort() {
    let src: Src = &[1, 2, 3];
    let p = |s: Src| -> Res<Src, i32> {
        match any(s) {
            Ok((_, 3)) => Err(Error::abort(s, "three")),
            Ok((rest, t)) => Ok((rest, *t)),
            Err(e) => Err(e),
        }
    };
    match p.rep().parse(src) {
        Err(Error::Abort(ctx)) => assert_eq!(*ctx.src(), &[3][..]),
        other => panic!("expected an abort, got {:?}", other),
    }
}

#[test]
fn chain_matches_nested_and() {
    let src: Src = &[1, 2, 3, 4];
    let (rest, vs) = chain(vec![digit, digit, digit]).parse(src).unwrap();
    let (rest2, ((a, b), c)) = digit.and(digit).and(digit).parse(src).unwrap();
    assert_eq!(vs, vec![1, 2, 3]);
    assert_eq!(vs, vec![a, b, c]);
    assert_eq!(rest, rest2);
    assert_eq!(rest, &[4]);
}

#[test]
fn chain_fails_as_nested_and() {
    let src: Src = &[1, 20, 3];
    let r1 = chain(vec![digit, digit, digit]).parse(src);
    let r2 = digit.and(digit).and(digit).parse(src);
    match (r1, r2) {
        (Err(Error::Retry(c1)), Err(Error::Retry(c2))) => {
            assert_eq!(c1, c2);
            assert_eq!(*c1.src(), &[20, 3][..]);
        }
        other => panic!("expected two retries, got {:?}", other),
    }
}

#[test]
fn map_twice_equals_map_of_composition() {
    let src: Src = &[3, 1];
    let f = |t: i32| t + 1;
    let g = |u: i32| u * 10;
    let twice = digit.map(f).map(g).parse(src).unwrap();
    let once = digit.map(move |t: i32| g(f(t))).parse(src).unwrap();
    assert_eq!(twice, once);
    assert_eq!(twice, (&[1][..], 40));
}

#[test]
fn and_pairs_values_and_keeps_first_error() {
    let src: Src = &[1, 2];
    let (rest, v) = digit.and(digit).parse(src).unwrap();
    assert!(rest.is_empty());
    assert_eq!(v, (1, 2));
    let bad: Src = &[11, 2];
    match digit.and(digit).parse(bad) {
        Err(Error::Retry(ctx)) => assert_eq!(ctx.msg(), "not a digit"),
        other => panic!("expected a retry, got {:?}", other),
    }
}

#[test]
fn and_then_continues_with_value() {
    let src: Src = &[2, 5, 6, 7];
    let p = digit.and_then(|s: Src, n: i32| -> Res<Src, i32> {
        if s.len() >= n as usize {
            Ok((&s[n as usize..], n))
        } else {
            Err(Error::abort(s, "too short"))
        }
    });
    assert_eq!(p.parse(src).unwrap(), (&[7][..], 2));
}

#[test]
fn or_else_calls_fallback_on_retry() {
    let src: Src = &[50];
    let p = digit.or_else(|s: Src| -> Res<Src, i32> { Ok((s, -1)) });
    assert_eq!(p.parse(src).unwrap(), (src, -1));
}

#[test]
fn sep_requires_one_element() {
    let comma = literal(0);
    let src: Src = &[1, 0, 2, 0, 3, 0];
    let (rest, vs) = literal_pos.sep(comma).parse(src).unwrap();
    assert_eq!(vs, vec![1, 2, 3]);
    assert_eq!(rest, &[0]);
    let empty: Src = &[0, 1];
    assert!(matches!(literal_pos.sep(literal(0)).parse(empty), Err(Error::Retry(_))));
}

fn literal_pos(src: Src) -> Res<Src, i32> {
    match any(src) {
        Ok((rest, t)) if *t > 0 => Ok((rest, *t)),
        Ok(_) => Err(Error::retry(src, "not positive")),
        Err(e) => Err(e),
    }
}

#[test]
fn pfx_sfx_and_del_keep_inner_value() {
    let src: Src = &[-1, 5, -2, 9];
    let open = literal(-1);
    let close = literal(-2);
    assert_eq!(digit.pfx(literal(-1)).parse(src).unwrap(), (&[-2, 9][..], 5));
    assert_eq!(literal(-1).sfx(digit).parse(src).unwrap(), (&[-2, 9][..], -1));
    assert_eq!(digit.del(open, close).parse(src).unwrap(), (&[9][..], 5));
    let bare: Src = &[5, 9];
    assert_eq!(digit.del_opt(literal(-1), literal(-2)).parse(bare).unwrap(), (&[9][..], 5));
    assert_eq!(digit.pfx_opt(literal(-1)).parse(bare).unwrap(), (&[9][..], 5));
    assert_eq!(digit.sfx_opt(literal(-2)).parse(src).unwrap_err(), Error::retry(src, "not a digit"));
    assert!(matches!(digit.del(literal(-1), literal(-2)).parse(bare), Err(Error::Retry(_))));
}

#[test]
fn iff_filter_and_filter_map() {
    let src: Src = &[4, 1];
    assert_eq!(digit.iff(|t: &i32| *t % 2 == 0).parse(src).unwrap(), (&[1][..], Some(4)));
    assert_eq!(digit.iff(|t: &i32| *t % 2 == 1).parse(src).unwrap(), (&[1][..], None));
    assert_eq!(digit.opt().filter(|t: &i32| *t > 3).parse(src).unwrap(), (&[1][..], Some(4)));
    assert_eq!(digit.opt().filter(|t: &i32| *t > 4).parse(src).unwrap(), (&[1][..], None));
    let halve = |t: i32| if t % 2 == 0 { Some(t / 2) } else { None };
    assert_eq!(digit.opt().filter_map(halve).parse(src).unwrap(), (&[1][..], Some(2)));
    assert_eq!(digit.opt().filter_map(halve).parse(&src[1..]).unwrap(), (&[][..], None));
}

#[test]
fn ok_or_else_builds_error_at_failing_source() {
    let src: Src = &[8, 2];
    let p = digit
        .iff(|t: &i32| *t < 5)
        .ok_or_else(|s: Src| Error::abort(s, "too large"));
    match p.parse(src) {
        Err(Error::Abort(ctx)) => {
            assert_eq!(ctx.msg(), "too large");
            assert_eq!(*ctx.src(), &[2][..]);
        }
        other => panic!("expected an abort, got {:?}", other),
    }
    assert_eq!(p.parse(&src[1..]).unwrap(), (&[][..], 2));
}

#[test]
fn map_ok_and_map_err_touch_inner_result() {
    let src: Src = &[3, 12];
    let checked = |s: Src| -> Res<Src, Result<i32, i32>> {
        let (rest, t) = any(s)?;
        Ok((rest, if *t < 10 { Ok(*t) } else { Err(*t) }))
    };
    assert_eq!(checked.map_ok(|t: i32| t * 2).parse(src).unwrap(), (&[12][..], Ok(6)));
    assert_eq!(checked.map_err(|e: i32| e - 10).parse(src).unwrap(), (&[12][..], Ok(3)));
    assert_eq!(checked.map_ok(|t: i32| t * 2).parse(&src[1..]).unwrap(), (&[][..], Err(12)));
    assert_eq!(checked.map_err(|e: i32| e - 10).parse(&src[1..]).unwrap(), (&[][..], Err(2)));
}

#[test]
fn with_ctx_keeps_kind_and_chains_links() {
    let src: Src = &[1, 2];
    let inner = Error::retry(&src[1..], "inner");
    let outer = inner.with_ctx(src, "outer");
    match &outer {
        Error::Retry(ctx) => {
            assert_eq!(ctx.msg(), "outer");
            assert_eq!(*ctx.src(), src);
            let child = ctx.ctx().unwrap();
            assert_eq!(child.msg(), "inner");
            assert_eq!(*child.src(), &[2][..]);
            assert!(child.ctx().is_none());
        }
        other => panic!("expected a retry, got {:?}", other),
    }
    let fatal = Error::abort(src, "boom").with_ctx(src, "while parsing");
    assert!(matches!(fatal, Error::Abort(_)));
    let res: Res<Src, i32> = Err(Error::abort(src, "boom"));
    match res.with_ctx(src, "outer") {
        Err(Error::Abort(ctx)) => assert_eq!(ctx.ctx().unwrap().msg(), "boom"),
        other => panic!("expected an abort, got {:?}", other),
    }
    let ok: Res<Src, i32> = Ok((src, 5));
    assert_eq!(ok.with_ctx(src, "unused"), Ok((src, 5)));
}

#[test]
fn parse_mut_advances_only_on_success() {
    let mut src: Src = &[1, 20];
    assert_eq!(digit.parse_mut(&mut src), Ok(1));
    assert_eq!(src, &[20]);
    assert!(digit.parse_mut(&mut src).is_err());
    assert_eq!(src, &[20]);
}

#[test]
fn as_ref_parses_like_the_parser() {
    let src: Src = &[6];
    let p = digit;
    assert_eq!(p.as_ref().parse(src), p.parse(src));
}

#[test]
fn duplicate_copies_the_whole_error() {
    let src: Src = &[1];
    let e = Error::abort(src, "a").with_ctx(src, "b");
    assert_eq!(e.duplicate(), e);
}

#[test]
fn ok_turns_no_value_into_retry() {
    let src: Src = &[8, 2];
    let p = digit.iff(|t: &i32| *t < 5).ok();
    match p.parse(src) {
        Err(Error::Retry(ctx)) => {
            assert_eq!(ctx.msg(), "expected a value");
            assert_eq!(*ctx.src(), &[2][..]);
        }
        other => panic!("expected a retry, got {:?}", other),
    }
    assert_eq!(p.parse(&src[1..]).unwrap(), (&[][..], 2));
    let fallback = digit.iff(|t: &i32| *t < 5).ok().or(literal(8));
    assert_eq!(fallback.parse(src).unwrap(), (&[2][..], 8));
}

#[test]
fn clone_keeps_kind_and_chain() {
    let src: Src = &[1, 2];
    let e = Error::retry(&src[1..], "inner").with_ctx(src, "outer");
    let c = e.clone();
    assert_eq!(c, e);
    match c {
        Error::Retry(ctx) => assert_eq!(ctx.ctx().unwrap().msg(), "inner"),
        other => panic!("expected a retry, got {:?}", other),
    }
}
