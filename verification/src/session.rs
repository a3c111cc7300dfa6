//! The session-token discipline.
//!
//! The client stores one CSRF token.  Every response may carry a replacement
//! in its `x-csrf-token` header: a header that is present overwrites the
//! stored token, a response without the header leaves it unchanged — the
//! token is never cleared implicitly.  [`token_after`] is that rule;
//! [`tokens_through`] folds it over a run of responses.

use vstd::prelude::*;

verus! {

/// The stored token after one response whose CSRF header was `header`.
pub open spec fn token_after(current: Option<Seq<char>>, header: Option<Seq<char>>) -> Option<
    Seq<char>,
> {
    match header {
        Some(t) => Some(t),
        None => current,
    }
}

/// The stored token after a run of responses with the given CSRF headers,
/// starting from `initial`.
pub open spec fn tokens_through(
    initial: Option<Seq<char>>,
    headers: Seq<Option<Seq<char>>>,
) -> Option<Seq<char>>
    decreases headers.len(),
{
    if headers.len() == 0 {
        initial
    } else {
        token_after(tokens_through(initial, headers.drop_last()), headers.last())
    }
}

/// Law: over any run of calls, the token in force for call `n + 1` is the
/// token of response `n` when that response carried one, and otherwise the
/// token that was already in force for call `n`.  Together with the client's
/// contract — each call attaches the stored token and stores
/// `token_after(stored, response header)` — this is the chaining of CSRF
/// tokens across consecutive calls.
pub proof fn lemma_csrf_token_chain(
    initial: Option<Seq<char>>,
    headers: Seq<Option<Seq<char>>>,
    n: int,
)
    requires
        0 <= n < headers.len(),
    ensures
        headers[n] is Some ==> tokens_through(initial, headers.take(n + 1)) == headers[n],
        headers[n] is None ==> tokens_through(initial, headers.take(n + 1)) == tokens_through(
            initial,
            headers.take(n),
        ),
{
    let pre = headers.take(n + 1);
    assert(pre.drop_last() =~= headers.take(n));
    assert(pre.last() == headers[n]);
}

/// Law: two token updates, in whichever order they land, leave the stored
/// token equal to one of the two response headers or to the starting value
/// — never to an interleaving of their characters.  This is the observable
/// half of race freedom; the other half is Rust's exclusivity: every update
/// happens through `&mut`, so updates cannot overlap.
pub proof fn lemma_token_updates_never_interleave(
    initial: Option<Seq<char>>,
    first: Option<Seq<char>>,
    second: Option<Seq<char>>,
)
    ensures
        ({
            let end = token_after(token_after(initial, first), second);
            &&& second is Some ==> end == second
            &&& (second is None && first is Some) ==> end == first
            &&& (second is None && first is None) ==> end == initial
        }),
{
}

} // verus!
