//! All-or-nothing concurrent join.
//!
//! Both peers establish their three setup steps (finish the command write,
//! open-or-accept the stdio stream, open-or-accept the stderr stream)
//! concurrently, to avoid head-of-line blocking, and proceed only when every
//! step has succeeded.  The async runner races the steps and aborts the
//! group on the first failure; the merge below is the decision at the
//! fan-in: all results as a tuple when every step succeeded, else the error
//! of the earliest failed step.
use vstd::prelude::*;

verus! {

/// Merge three independent setup results, all-or-nothing: the tuple of all
/// three values when every step succeeded, else the error of the earliest
/// failed step.
pub fn try_join3<A, B, C, E>(a: Result<A, E>, b: Result<B, E>, c: Result<C, E>) -> (r: Result<
    (A, B, C),
    E,
>)
    ensures
        (r is Ok) <==> (a is Ok && b is Ok && c is Ok),
        r is Ok ==> r->Ok_0 == (a->Ok_0, b->Ok_0, c->Ok_0),
        a is Err ==> r->Err_0 == a->Err_0,
        (a is Ok && b is Err) ==> r->Err_0 == b->Err_0,
        (a is Ok && b is Ok && c is Err) ==> r->Err_0 == c->Err_0,
{
    match a {
        Err(e) => Err(e),
        Ok(x) => match b {
            Err(e) => Err(e),
            Ok(y) => match c {
                Err(e) => Err(e),
                Ok(z) => Ok((x, y, z)),
            },
        },
    }
}

} // verus!
