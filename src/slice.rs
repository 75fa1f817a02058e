use vstd::prelude::*;

use crate::error::{Error, Res};

verus! {

/// Parses a single element from the source; retries where the source is empty.
pub fn any<'a, T>(src: &'a [T]) -> (r: Res<&'a [T], &'a T>)
    ensures
        src@.len() == 0 ==> (r matches Err(e) && e is Retry && e.is_leaf(
            src,
            "unexpected end of input"@,
        )),
        src@.len() > 0 ==> (r matches Ok((rest, t)) && rest@ == src@.drop_first() && *t == src@[0]),
{
    if src.len() == 0 {
        Err(Error::retry(src, "unexpected end of input"))
    } else {
        let (_, rest) = src.split_at(1);
        assert(rest@ =~= src@.drop_first());
        Ok((rest, &src[0]))
    }
}

} // verus!
