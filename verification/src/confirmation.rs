//! The confirmation workflow: resolve an opaque token to a subscriber and
//! commit the pending-to-confirmed transition, translating every outcome into
//! the caller-facing result. The whole attempt is one strict sequence:
//! lookup, then either reject or commit.

use vstd::prelude::*;

use crate::domain::{
    ConfirmSubscriberError, ConfirmationStep, Parameters, StorageError, SubscriberId,
    SubscriberStatus,
};
use crate::store::{
    confirm_in, lemma_confirm_in_idempotent, lemma_confirm_in_other, lemma_confirm_in_same,
    status_of, token_binding, SubscriberRecord, SubscriberStore,
};

verus! {

/// The terminal states of one confirmation attempt.
#[derive(Clone, Copy, PartialEq, Eq, Structural, Debug)]
pub enum ConfirmationOutcome {
    Confirmed,
    InvalidToken,
    LookupFailed,
    CommitFailed,
}

/// Which terminal state one attempt against `store` with `token` reaches:
/// a lookup fault ends the attempt first, an unbound token is rejected before
/// any mutation, and only then does the commit run or fail.
pub open spec fn outcome_of(store: SubscriberStore, token: Seq<char>) -> ConfirmationOutcome {
    if store.lookup_fault {
        ConfirmationOutcome::LookupFailed
    } else if token_binding(store.tokens@, token) is None {
        ConfirmationOutcome::InvalidToken
    } else if store.commit_fault {
        ConfirmationOutcome::CommitFailed
    } else {
        ConfirmationOutcome::Confirmed
    }
}

/// The subscribers table after one attempt: mutated only when the attempt
/// confirms, and then only by the committer's update for the resolved
/// subscriber.
pub open spec fn subscribers_after(store: SubscriberStore, token: Seq<char>) -> Seq<
    SubscriberRecord,
> {
    if outcome_of(store, token) is Confirmed {
        confirm_in(store.subscribers@, token_binding(store.tokens@, token)->Some_0)
    } else {
        store.subscribers@
    }
}

/// The caller-facing result owed to each terminal state: success carries no
/// body, a rejected token is the domain error, and a storage fault is wrapped
/// as unexpected together with the step that raised it.
pub open spec fn result_matches_outcome(
    result: Result<(), ConfirmSubscriberError>,
    outcome: ConfirmationOutcome,
) -> bool {
    match outcome {
        ConfirmationOutcome::Confirmed => result == Ok::<(), ConfirmSubscriberError>(()),
        ConfirmationOutcome::InvalidToken => result == Err::<(), ConfirmSubscriberError>(
            ConfirmSubscriberError::InvalidTokenError,
        ),
        ConfirmationOutcome::LookupFailed => result matches Err(
            ConfirmSubscriberError::UnexpectedError(step, _),
        ) && step == ConfirmationStep::Lookup,
        ConfirmationOutcome::CommitFailed => result matches Err(
            ConfirmSubscriberError::UnexpectedError(step, _),
        ) && step == ConfirmationStep::Commit,
    }
}

/// The handler's decision on the resolver's event: a fault is wrapped and
/// tagged as the lookup step, a missing binding is rejected as an invalid
/// token, and a resolved identity lets the attempt proceed to the commit.
pub fn after_lookup(looked_up: Result<Option<SubscriberId>, StorageError>) -> (decision: Result<
    SubscriberId,
    ConfirmSubscriberError,
>)
    ensures
        (match looked_up {
            Ok(Some(id)) => decision == Ok::<SubscriberId, ConfirmSubscriberError>(id),
            Ok(None) => decision == Err::<SubscriberId, ConfirmSubscriberError>(
                ConfirmSubscriberError::InvalidTokenError,
            ),
            Err(cause) => decision == Err::<SubscriberId, ConfirmSubscriberError>(
                ConfirmSubscriberError::UnexpectedError(ConfirmationStep::Lookup, cause),
            ),
        }),
{
    match looked_up {
        Ok(Some(id)) => Ok(id),
        Ok(None) => Err(ConfirmSubscriberError::InvalidTokenError),
        Err(cause) => Err(
            ConfirmSubscriberError::UnexpectedError(ConfirmationStep::Lookup, cause),
        ),
    }
}

/// The handler's decision on the committer's event: a fault is wrapped and
/// tagged as the commit step, success ends the attempt confirmed.
pub fn after_commit(committed: Result<(), StorageError>) -> (decision: Result<
    (),
    ConfirmSubscriberError,
>)
    ensures
        (match committed {
            Ok(()) => decision == Ok::<(), ConfirmSubscriberError>(()),
            Err(cause) => decision == Err::<(), ConfirmSubscriberError>(
                ConfirmSubscriberError::UnexpectedError(ConfirmationStep::Commit, cause),
            ),
        }),
{
    match committed {
        Ok(()) => Ok(()),
        Err(cause) => Err(
            ConfirmSubscriberError::UnexpectedError(ConfirmationStep::Commit, cause),
        ),
    }
}

/// One confirmation attempt: resolve the supplied token, reject it before any
/// mutation when it has no binding, otherwise commit the status transition.
/// The result is exactly the one owed to the reached terminal state, the
/// token table and the fault flags are never touched, and the subscribers
/// table becomes exactly the attempt's prescribed image of the old one.
pub fn handle_confirmation(store: &mut SubscriberStore, parameters: &Parameters) -> (result:
    Result<(), ConfirmSubscriberError>)
    requires
        old(store).wf(),
    ensures
        final(store).wf(),
        final(store).tokens@ == old(store).tokens@,
        final(store).lookup_fault == old(store).lookup_fault,
        final(store).commit_fault == old(store).commit_fault,
        final(store).subscribers@ == subscribers_after(
            *old(store),
            parameters.subscription_token@,
        ),
        result_matches_outcome(result, outcome_of(*old(store), parameters.subscription_token@)),
{
    let looked_up = store.get_subscriber_id_from_token(parameters.subscription_token.as_str());
    let subscriber_id = match after_lookup(looked_up) {
        Ok(id) => id,
        Err(rejection) => {
            return Err(rejection);
        },
    };
    let committed = store.confirm_subscriber(subscriber_id);
    after_commit(committed)
}

/// A token without a binding is rejected and no subscriber is touched.
pub proof fn lemma_unknown_token_rejected(store: SubscriberStore, token: Seq<char>)
    requires
        !store.lookup_fault,
        token_binding(store.tokens@, token) is None,
    ensures
        outcome_of(store, token) == ConfirmationOutcome::InvalidToken,
        subscribers_after(store, token) == store.subscribers@,
{
}

/// A token bound to a pending subscriber confirms, and that subscriber's
/// status becomes `Confirmed`.
pub proof fn lemma_bound_token_confirms(
    store: SubscriberStore,
    token: Seq<char>,
    id: SubscriberId,
)
    requires
        !store.lookup_fault,
        !store.commit_fault,
        token_binding(store.tokens@, token) == Some(id),
        status_of(store.subscribers@, id) == Some(SubscriberStatus::Pending),
    ensures
        outcome_of(store, token) == ConfirmationOutcome::Confirmed,
        status_of(subscribers_after(store, token), id) == Some(
            SubscriberStatus::Confirmed,
        ),
{
    lemma_confirm_in_same(store.subscribers@, id);
}

/// Confirmation is idempotent: with no fault raised, an attempt with a bound
/// token confirms, a second attempt with the same token against the resulting
/// store confirms again and changes nothing, and the bound subscriber's
/// status ends `Confirmed` exactly when a row for it exists at all.
pub proof fn lemma_confirmation_idempotent(
    store: SubscriberStore,
    rerun: SubscriberStore,
    token: Seq<char>,
)
    requires
        !store.lookup_fault,
        !store.commit_fault,
        token_binding(store.tokens@, token) is Some,
        rerun.tokens@ == store.tokens@,
        rerun.lookup_fault == store.lookup_fault,
        rerun.commit_fault == store.commit_fault,
        rerun.subscribers@ == subscribers_after(store, token),
    ensures
        outcome_of(store, token) == ConfirmationOutcome::Confirmed,
        outcome_of(rerun, token) == ConfirmationOutcome::Confirmed,
        subscribers_after(rerun, token) == rerun.subscribers@,
        status_of(rerun.subscribers@, token_binding(store.tokens@, token)->Some_0) == (
        if status_of(store.subscribers@, token_binding(store.tokens@, token)->Some_0) is Some {
            Some(SubscriberStatus::Confirmed)
        } else {
            None::<SubscriberStatus>
        }),
{
    let id = token_binding(store.tokens@, token)->Some_0;
    lemma_confirm_in_idempotent(store.subscribers@, id);
    lemma_confirm_in_same(store.subscribers@, id);
}

/// Isolation: an attempt whose token does not resolve to a given subscriber
/// never changes that subscriber's status, whatever the outcome.
pub proof fn lemma_confirmation_isolated(
    store: SubscriberStore,
    token: Seq<char>,
    other: SubscriberId,
)
    requires
        token_binding(store.tokens@, token) != Some(other),
    ensures
        status_of(subscribers_after(store, token), other) == status_of(store.subscribers@, other),
{
    if outcome_of(store, token) is Confirmed {
        lemma_confirm_in_other(store.subscribers@, token_binding(store.tokens@, token)->Some_0, other);
    }
}

/// A lookup fault ends the attempt as unexpected before any mutation.
pub proof fn lemma_lookup_fault_propagates(store: SubscriberStore, token: Seq<char>)
    requires
        store.lookup_fault,
    ensures
        outcome_of(store, token) == ConfirmationOutcome::LookupFailed,
        subscribers_after(store, token) == store.subscribers@,
{
}

/// A commit fault after a successful lookup ends the attempt as unexpected,
/// and the failed commit leaves the table untouched.
pub proof fn lemma_commit_fault_propagates(store: SubscriberStore, token: Seq<char>)
    requires
        !store.lookup_fault,
        store.commit_fault,
        token_binding(store.tokens@, token) is Some,
    ensures
        outcome_of(store, token) == ConfirmationOutcome::CommitFailed,
        subscribers_after(store, token) == store.subscribers@,
{
}

} // verus!
