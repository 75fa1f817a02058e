use vstd::prelude::*;

verus! {

/// The result of a parse: the remaining source and the parsed value, or an error.
pub type Res<S, T> = Result<(S, T), Error<S>>;

/// A parse error, which is either retryable or fatal.
#[derive(Debug, PartialEq, Eq)]
pub enum Error<S> {
    /// Retryable: another parser may still succeed on the same source.
    Retry(Ctx<S>),
    /// Fatal: parsing must stop, no alternative is tried.
    Abort(Ctx<S>),
}

impl<S> Error<S> {
    /// The context that the error carries, whatever its kind.
    pub open spec fn context(self) -> Ctx<S> {
        match self {
            Error::Retry(c) => c,
            Error::Abort(c) => c,
        }
    }

    /// Whether `self` is an error that holds only the one link `(src, msg)`.
    pub open spec fn is_leaf(self, src: S, msg: Seq<char>) -> bool {
        self.context().at() == src && self.context().text() == msg && self.context().parent()
            is None
    }

    /// Whether `self` is `inner` with one more context link `(src, msg)` on the outside,
    /// and the same kind.
    pub open spec fn wraps(self, inner: Error<S>, src: S, msg: Seq<char>) -> bool {
        &&& (self is Retry) == (inner is Retry)
        &&& self.context().at() == src
        &&& self.context().text() == msg
        &&& self.context().parent() == Some(inner.context())
    }

    /// Create a retryable error.
    pub fn retry(src: S, msg: &str) -> (r: Self)
        ensures
            r is Retry,
            r.is_leaf(src, msg@),
    {
        Error::Retry(Ctx::new(src, msg))
    }

    /// Create a fatal error.
    pub fn abort(src: S, msg: &str) -> (r: Self)
        ensures
            r is Abort,
            r.is_leaf(src, msg@),
    {
        Error::Abort(Ctx::new(src, msg))
    }

    /// Apply `f` to the context, keeping the kind of the error.
    fn map_ctx(self, f: impl FnOnce(Ctx<S>) -> Ctx<S>) -> (r: Self)
        requires
            f.requires((self.context(),)),
        ensures
            (r is Retry) == (self is Retry),
            f.ensures((self.context(),), r.context()),
    {
        match self {
            Error::Retry(ctx) => Error::Retry(f(ctx)),
            Error::Abort(ctx) => Error::Abort(f(ctx)),
        }
    }
}

impl<S: Copy> Error<S> {
    /// A copy of the error, equal to it.
    pub fn duplicate(&self) -> (r: Self)
        ensures
            r == *self,
    {
        match self {
            Error::Retry(ctx) => Error::Retry(ctx.duplicate()),
            Error::Abort(ctx) => Error::Abort(ctx.duplicate()),
        }
    }
}

/// Types to which one more link of error context can be attached.
pub trait WithCtx<S>: Sized {
    /// Whether `self` is `inner` with the link `(src, msg)` attached.
    spec fn attached(self, inner: Self, src: S, msg: Seq<char>) -> bool;

    /// Attach context to the value.
    fn with_ctx(self, src: S, msg: &str) -> (r: Self)
        ensures
            r.attached(self, src, msg@),
    ;
}

impl<S> WithCtx<S> for Error<S> {
    open spec fn attached(self, inner: Self, src: S, msg: Seq<char>) -> bool {
        self.wraps(inner, src, msg)
    }

    fn with_ctx(self, src: S, msg: &str) -> (r: Self) {
        let wrap_it = move |ctx: Ctx<S>| -> (c: Ctx<S>)
            ensures
                c.at() == src && c.text() == msg@ && c.parent() == Some(ctx),
            { ctx.wrap(src, msg) };
        self.map_ctx(wrap_it)
    }
}

impl<S, T> WithCtx<S> for Res<S, T> {
    open spec fn attached(self, inner: Self, src: S, msg: Seq<char>) -> bool {
        match (self, inner) {
            (Ok(a), Ok(b)) => a == b,
            (Err(a), Err(b)) => a.wraps(b, src, msg),
            _ => false,
        }
    }

    fn with_ctx(self, src: S, msg: &str) -> (r: Self) {
        match self {
            Ok(v) => Ok(v),
            Err(e) => Err(e.with_ctx(src, msg)),
        }
    }
}

/// One link of error context: where the error arose, why, and the context it wraps.
#[derive(Debug, PartialEq, Eq)]
pub struct Ctx<S> {
    src: S,
    msg: String,
    ctx: Option<Box<Ctx<S>>>,
}

impl<S> Ctx<S> {
    /// The source at which the error occurred.
    pub closed spec fn at(&self) -> S {
        self.src
    }

    /// The message of this link.
    pub closed spec fn text(&self) -> Seq<char> {
        self.msg@
    }

    /// The context that this link wraps, if any.
    pub closed spec fn parent(&self) -> Option<Ctx<S>> {
        match self.ctx {
            Some(b) => Some(*b),
            None => None,
        }
    }

    /// Return the source at which the error occurred.
    pub fn src(&self) -> (r: &S)
        ensures
            *r == self.at(),
    {
        &self.src
    }

    /// Return the error message.
    pub fn msg(&self) -> (r: &str)
        ensures
            r@ == self.text(),
    {
        self.msg.as_str()
    }

    /// Return the child context, if any.
    pub fn ctx(&self) -> (r: Option<&Ctx<S>>)
        ensures
            r is Some == self.parent() is Some,
            r is Some ==> *r->Some_0 == self.parent()->Some_0,
    {
        match &self.ctx {
            Some(b) => Some(&**b),
            None => None,
        }
    }

    fn new(src: S, msg: &str) -> (r: Self)
        ensures
            r.at() == src,
            r.text() == msg@,
            r.parent() is None,
    {
        Ctx { src, msg: msg.to_owned(), ctx: None }
    }

    fn wrap(self, src: S, msg: &str) -> (r: Self)
        ensures
            r.at() == src,
            r.text() == msg@,
            r.parent() == Some(self),
    {
        Ctx { src, msg: msg.to_owned(), ctx: Some(Box::new(self)) }
    }
}

impl<S: Copy> Ctx<S> {
    /// A copy of the whole chain, equal to it.
    pub fn duplicate(&self) -> (r: Self)
        ensures
            r == *self,
        decreases self,
    {
        let ctx = match &self.ctx {
            Some(b) => Some(Box::new(b.duplicate())),
            None => None,
        };
        Ctx { src: self.src, msg: self.msg.clone(), ctx }
    }
}

impl<S: Copy> Clone for Ctx<S> {
    fn clone(&self) -> (r: Self)
        ensures
            r == *self,
    {
        self.duplicate()
    }
}

impl<S: Copy> Clone for Error<S> {
    fn clone(&self) -> (r: Self)
        ensures
            r == *self,
    {
        self.duplicate()
    }
}

} // verus!
