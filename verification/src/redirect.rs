//! The per-hop redirect decision.

use vstd::prelude::*;

verus! {

/// What to do with a redirect response.
#[derive(Clone, Copy, Debug, PartialEq, Eq, Structural)]
pub enum RedirectAction {
    /// Request the redirect's target.
    Follow,
    /// Hand the redirect response back as the final response.
    Stop,
}

/// The decision for a redirect received after `hops_followed` redirects have
/// already been followed, under a cap of `cap` hops.
pub open spec fn decision(hops_followed: nat, cap: nat) -> RedirectAction {
    if hops_followed < cap {
        RedirectAction::Follow
    } else {
        RedirectAction::Stop
    }
}

/// Decides whether one more redirect may be followed: it is followed while
/// fewer than `cap` hops have been followed, and the response is final once
/// the cap is reached.
pub fn decide(hops_followed: usize, cap: usize) -> (action: RedirectAction)
    ensures
        action == decision(hops_followed as nat, cap as nat),
{
    if hops_followed < cap {
        RedirectAction::Follow
    } else {
        RedirectAction::Stop
    }
}

/// The decision for a redirect in a chain of which `requested` addresses
/// have been requested so far, the first address of the chain among them:
/// the redirect is followed while `requested` is within the cap.
pub open spec fn decision_in_chain(requested: nat, cap: nat) -> RedirectAction {
    if requested <= cap {
        RedirectAction::Follow
    } else {
        RedirectAction::Stop
    }
}

/// Decides on a redirect from the number of addresses that its chain has
/// requested so far. The first of them is the address that the request
/// started from, so one redirect fewer has been followed.
pub fn decide_in_chain(requested: usize, cap: usize) -> (action: RedirectAction)
    ensures
        action == decision_in_chain(requested as nat, cap as nat),
        requested >= 1 ==> action == decision((requested - 1) as nat, cap as nat),
{
    if requested <= cap {
        RedirectAction::Follow
    } else {
        RedirectAction::Stop
    }
}

/// With a cap of zero no redirect is followed: the first redirect response
/// is the final response.
pub proof fn lemma_zero_cap_follows_nothing(hops_followed: nat)
    ensures
        decision(hops_followed, 0) == RedirectAction::Stop,
{
}

/// Under a cap of `cap` the redirects numbered `0` to `cap - 1` are followed
/// and every later one stops the chain: at most `cap` hops are followed.
pub proof fn lemma_cap_bounds_hops(hops_followed: nat, cap: nat)
    ensures
        decision(hops_followed, cap) == RedirectAction::Follow <==> hops_followed < cap,
        decision(hops_followed, cap) == RedirectAction::Stop <==> hops_followed >= cap,
{
}

/// Once a chain has been stopped it stays stopped: a later redirect of the
/// same chain is never followed.
pub proof fn lemma_stop_is_final(earlier: nat, later: nat, cap: nat)
    requires
        earlier <= later,
        decision(earlier, cap) == RedirectAction::Stop,
    ensures
        decision(later, cap) == RedirectAction::Stop,
{
}

#[verifier::external_type_specification]
#[verifier::external_body]
pub struct ExPolicy(reqwest::redirect::Policy);

#[verifier::external_type_specification]
#[verifier::external_body]
pub struct ExClientBuilder(reqwest::ClientBuilder);

/// The cap on redirect hops that a redirect policy was made with by
/// `capped_policy`. Of a policy made in any other way it says nothing.
pub uninterp spec fn policy_cap(policy: reqwest::redirect::Policy) -> usize;

/// The cap, in the sense of `policy_cap`, of the redirect policy that a
/// client builder holds.
pub uninterp spec fn redirect_cap(builder: reqwest::ClientBuilder) -> usize;

/// `reqwest::redirect::Policy::custom` with a policy that asks
/// `decide_in_chain` about each redirect, handing it the length of
/// `Attempt::previous` and the cap, and answers with `Attempt::follow` or
/// `Attempt::stop` as it says. The policy that comes back keeps the closure
/// and with it the cap; that cap is all that is claimed of it.
#[verifier::external_body]
fn capped_policy(cap: usize) -> (policy: reqwest::redirect::Policy)
    ensures
        policy_cap(policy) == cap,
{
    reqwest::redirect::Policy::custom(
        move |attempt| match decide_in_chain(attempt.previous().len(), cap) {
            RedirectAction::Follow => attempt.follow(),
            RedirectAction::Stop => attempt.stop(),
        },
    )
}

/// `reqwest::ClientBuilder::new`: a builder with the crate's defaults.
/// Nothing is claimed of it.
pub assume_specification[ reqwest::ClientBuilder::new ]() -> reqwest::ClientBuilder
;

/// `reqwest::ClientBuilder::redirect`: the same builder with `policy` put in
/// the place of the redirect policy that it held. The claim is that the
/// builder that comes back holds `policy`, stated of the policy's cap.
pub assume_specification[ reqwest::ClientBuilder::redirect ](
    builder: reqwest::ClientBuilder,
    policy: reqwest::redirect::Policy,
) -> (configured: reqwest::ClientBuilder)
    ensures
        redirect_cap(configured) == policy_cap(policy),
;

/// A client builder whose redirect policy is the capped policy for
/// `follow_redirects`: its clients follow a redirect where
/// `decide_in_chain` says so under that cap, and otherwise return the
/// redirect response itself, not an error.
pub fn build_client_builder(follow_redirects: usize) -> (builder: reqwest::ClientBuilder)
    ensures
        redirect_cap(builder) == follow_redirects,
{
    reqwest::ClientBuilder::new().redirect(capped_policy(follow_redirects))
}

} // verus!
