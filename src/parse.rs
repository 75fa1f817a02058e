use vstd::prelude::*;

use crate::error::{Error, Res};

verus! {

/// Whether `r` is a retryable failure.
pub open spec fn retries<S, T>(r: Res<S, T>) -> bool {
    r matches Err(Error::Retry(_))
}

/// Whether `r` is a fatal failure.
pub open spec fn aborts<S, T>(r: Res<S, T>) -> bool {
    r matches Err(Error::Abort(_))
}

/// A source position whose remaining input has a size, used to bound repetition.
pub trait Cursor: Copy {
    /// How much input is left.
    spec fn remaining(&self) -> nat;
}

impl<'a, T> Cursor for &'a [T] {
    open spec fn remaining(&self) -> nat {
        self@.len()
    }
}

/// A parser: given source `S`, parses a value `T` and returns the remaining source.
///
/// Its behaviour is the relation `produces` between a source and the results that
/// parsing it may give; `valid` is what the parser needs to be run on any source.
pub trait Parse<S, T>: Sized {
    /// Whether `r` is a possible result of parsing `src`.
    spec fn produces(&self, src: S, r: Res<S, T>) -> bool;

    /// Whether the parser may be run on every source.
    spec fn valid(&self) -> bool;

    /// Parse the source and return the remaining source and the parsed value.
    fn parse(&self, src: S) -> (r: Res<S, T>)
        requires
            self.valid(),
        ensures
            self.produces(src, r),
    ;

    /// Return a reference to the parser.
    fn as_ref(&self) -> (r: Ref<'_, Self>)
        ensures
            *r.0 == *self,
    {
        Ref(self)
    }
}

/// A reference to a parser, itself a parser that behaves as the one it refers to.
#[derive(Debug)]
pub struct Ref<'a, P>(pub &'a P);

/// Any function from a source to a result is a parser.
impl<S, T, F: Fn(S) -> Res<S, T>> Parse<S, T> for F {
    open spec fn produces(&self, src: S, r: Res<S, T>) -> bool {
        self.ensures((src,), r)
    }

    open spec fn valid(&self) -> bool {
        forall|s: S| self.requires((s,))
    }

    fn parse(&self, src: S) -> (r: Res<S, T>) {
        self(src)
    }
}

impl<'a, S, T, P: Parse<S, T>> Parse<S, T> for Ref<'a, P> {
    open spec fn produces(&self, src: S, r: Res<S, T>) -> bool {
        self.0.produces(src, r)
    }

    open spec fn valid(&self) -> bool {
        self.0.valid()
    }

    fn parse(&self, src: S) -> (r: Res<S, T>) {
        self.0.parse(src)
    }
}

/// Parse the source in place.
pub trait ParseMut<S: Copy, T>: Parse<S, T> {
    /// Parse `*src`; on success advance it past what was parsed, on failure leave it.
    fn parse_mut(&self, src: &mut S) -> (r: Result<T, Error<S>>)
        requires
            self.valid(),
        ensures
            match r {
                Ok(t) => self.produces(*old(src), Ok((*final(src), t))),
                Err(e) => *final(src) == *old(src) && self.produces(*old(src), Err(e)),
            },
    {
        match self.parse(*src) {
            Ok((rem, t)) => {
                *src = rem;
                Ok(t)
            },
            Err(e) => Err(e),
        }
    }
}

impl<S: Copy, T, P: Parse<S, T>> ParseMut<S, T> for P {}

} // verus!
