//! The redirect policy: how long a chain of redirects is followed.

use vstd::prelude::*;

verus! {

/// What the transport does with a redirect response.
#[derive(Clone, Copy, Debug, PartialEq, Eq, Structural)]
pub enum RedirectAction {
    /// Request the redirect's target.
    Follow,
    /// Hand the redirect response back as the final response.
    Stop,
}

/// Whether another redirect is followed. `requested` counts the URLs that
/// have been requested in the chain so far, the first one included, so
/// `requested - 1` redirects have been followed; one more is followed while
/// that number is below `limit`.
pub open spec fn should_follow(requested: nat, limit: nat) -> bool {
    requested <= limit
}

/// The action for a redirect response that arrives after `requested` URLs
/// of the chain have been requested. Reaching the limit is no error: the
/// redirect response itself becomes the result.
pub fn decide(requested: usize, limit: usize) -> (action: RedirectAction)
    ensures
        should_follow(requested as nat, limit as nat) ==> action == RedirectAction::Follow,
        !should_follow(requested as nat, limit as nat) ==> action == RedirectAction::Stop,
{
    if requested <= limit {
        RedirectAction::Follow
    } else {
        RedirectAction::Stop
    }
}

/// The number of requests made in all, `requested` of them already made,
/// for a target whose first `redirects` responses are redirects: each
/// redirect response is put to the policy, and every other response ends
/// the chain.
pub open spec fn requests_in_chain(requested: nat, redirects: nat, limit: nat) -> nat
    decreases redirects - requested + 1,
{
    if requested <= redirects && should_follow(requested, limit) {
        requests_in_chain(requested + 1, redirects, limit)
    } else {
        requested
    }
}

/// The smaller of two numbers.
pub open spec fn smaller(a: nat, b: nat) -> nat {
    if a <= b {
        a
    } else {
        b
    }
}

/// The redirect cap: from the first request on, exactly as many redirects
/// are followed as the target offers, up to the limit, and the response to
/// the last request made is the result. With a limit of 15 and 16 chained
/// redirects, 16 requests are made and the sixteenth response is handed back.
pub proof fn lemma_redirect_cap(redirects: nat, limit: nat)
    ensures
        requests_in_chain(1, redirects, limit) == smaller(redirects, limit) + 1,
{
    lemma_chain_from(1, redirects, limit);
}

proof fn lemma_chain_from(requested: nat, redirects: nat, limit: nat)
    requires
        1 <= requested <= smaller(redirects, limit) + 1,
    ensures
        requests_in_chain(requested, redirects, limit) == smaller(redirects, limit) + 1,
    decreases redirects - requested + 1,
{
    if requested <= redirects && should_follow(requested, limit) {
        lemma_chain_from(requested + 1, redirects, limit);
    }
}

} // verus!
