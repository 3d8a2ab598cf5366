//! The HTTP front door's routing rule.
//!
//! Exact-match dispatch: `GET` on the trickle path serves the trickle
//! responder, `GET` on the log path serves the rendered log dump, everything
//! else is not found. Connection handling is the runtime's; the dispatch
//! decision is verified here.

use vstd::prelude::*;
use vstd::string::StrSliceExecFns;

verus! {

/// Where the front door sends one request.
#[derive(Clone, Copy, Debug, PartialEq, Eq, Structural)]
pub enum Route {
    /// Serve the trickle responder.
    Trickle,
    /// Serve the rendered status log.
    Log,
    /// Answer with a not-found response.
    NotFound,
}

/// Character-for-character string equality.
pub fn str_eq(a: &str, b: &str) -> (r: bool)
    ensures
        r == (a@ == b@),
{
    let a_len = a.unicode_len();
    let b_len = b.unicode_len();
    if a_len != b_len {
        return false;
    }
    let mut i: usize = 0;
    while i < a_len
        invariant
            a@.len() == a_len,
            b@.len() == b_len,
            a_len == b_len,
            i <= a_len,
            forall|j: int| 0 <= j < i ==> a@[j] == b@[j],
        decreases a_len - i,
    {
        if a.get_char(i) != b.get_char(i) {
            return false;
        }
        i = i + 1;
    }
    proof {
        assert(a@ =~= b@);
    }
    true
}

/// Exact-match routing: the trickle and log paths answer `GET` only, and any
/// other method or path is not found.
pub fn route(is_get: bool, path: &str) -> (r: Route)
    ensures
        (r == Route::Trickle) <==> (is_get && path@ == "/trickle"@),
        (r == Route::Log) <==> (is_get && path@ == "/log"@),
        (r == Route::NotFound) <==> !(is_get && (path@ == "/trickle"@ || path@ == "/log"@)),
{
    proof {
        reveal_strlit("/trickle");
        reveal_strlit("/log");
        assert("/trickle"@.len() == 8);
        assert("/log"@.len() == 4);
    }
    if is_get && str_eq(path, "/trickle") {
        Route::Trickle
    } else if is_get && str_eq(path, "/log") {
        Route::Log
    } else {
        Route::NotFound
    }
}

} // verus!
