//! A parser combinator library.
//!
//! A parser turns a source position (a cursor) into a value and the position after it,
//! or fails with an error that is either retryable or fatal. Combinators build parsers
//! out of parsers; each parser's behaviour is stated as a relation between a source and
//! the results it may give.
mod combinators;
mod error;
mod ext;
mod laws;
mod option;
mod parse;
mod repeat;
mod sequence;
mod slice;

pub use self::combinators::{And, AndThen, Iff, MapVal, Opt, Or, OrElse, Pfx, Sfx};
pub use self::error::{Ctx, Error, Res, WithCtx};
pub use self::ext::{ParseExt, ParseOptExt, ParseResExt};
pub use self::laws::{
    chain_flattens_and, map_composes, ok_or_abort_escapes_or, opt_keeps_success,
    opt_turns_retry_into_none, or_passes_abort, rep_of_retrying_is_empty, three_steps,
};
pub use self::option::{kept, Filter, FilterMap, MapErr, MapOk, OkOr, OkOrElse, Present};
pub use self::parse::{aborts, retries, Cursor, Parse, ParseMut, Ref};
pub use self::repeat::{advances, run, Rep, Sep};
pub use self::sequence::{alt, chain, first_of, steps, Alt, Chain};
pub use self::slice::any;
