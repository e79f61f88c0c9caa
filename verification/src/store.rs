//! An explicit storage capability for the confirmation workflow: an in-memory
//! image of the two persisted tables (subscribers and token bindings) with
//! injectable infrastructure faults, so that the workflow's state-machine and
//! failure semantics can be stated and proved over a concrete model.

use vstd::prelude::*;

use crate::domain::{StorageError, SubscriberId, SubscriberStatus};

verus! {

/// One row of the subscribers table: an identity and its lifecycle status.
#[derive(Clone, Copy, PartialEq, Eq, Structural, Debug)]
pub struct SubscriberRecord {
    pub id: SubscriberId,
    pub status: SubscriberStatus,
}

/// One row of the token table: an opaque token string bound to a subscriber.
#[derive(Debug)]
pub struct TokenRecord {
    pub subscription_token: String,
    pub subscriber_id: SubscriberId,
}

/// The storage handle the workflow runs against. The two fault flags model
/// the storage layer raising an infrastructure fault on the next lookup or
/// commit; they are never changed by the workflow itself.
#[derive(Debug)]
pub struct SubscriberStore {
    pub subscribers: Vec<SubscriberRecord>,
    pub tokens: Vec<TokenRecord>,
    pub lookup_fault: bool,
    pub commit_fault: bool,
}

/// The binding found for `token` when the search starts at row `k`:
/// the subscriber of the first row whose token string matches.
pub open spec fn token_binding_from(
    tokens: Seq<TokenRecord>,
    token: Seq<char>,
    k: int,
) -> Option<SubscriberId>
    decreases tokens.len() - k,
{
    if k < 0 || k >= tokens.len() {
        None
    } else if tokens[k].subscription_token@ == token {
        Some(tokens[k].subscriber_id)
    } else {
        token_binding_from(tokens, token, k + 1)
    }
}

/// The unique live binding for `token`, or `None` when no row holds it.
pub open spec fn token_binding(tokens: Seq<TokenRecord>, token: Seq<char>) -> Option<SubscriberId> {
    token_binding_from(tokens, token, 0)
}

/// The status recorded for `id` when the search starts at row `k`.
pub open spec fn status_of_from(
    subscribers: Seq<SubscriberRecord>,
    id: SubscriberId,
    k: int,
) -> Option<SubscriberStatus>
    decreases subscribers.len() - k,
{
    if k < 0 || k >= subscribers.len() {
        None
    } else if subscribers[k].id == id {
        Some(subscribers[k].status)
    } else {
        status_of_from(subscribers, id, k + 1)
    }
}

/// The status recorded for `id`, or `None` when no such subscriber exists.
pub open spec fn status_of(
    subscribers: Seq<SubscriberRecord>,
    id: SubscriberId,
) -> Option<SubscriberStatus> {
    status_of_from(subscribers, id, 0)
}

/// The subscribers table after the committer's update: every row carrying
/// `id` is set to `Confirmed`, every other row is left as it was.
pub open spec fn confirm_in(
    subscribers: Seq<SubscriberRecord>,
    id: SubscriberId,
) -> Seq<SubscriberRecord> {
    subscribers.map(
        |k: int, r: SubscriberRecord|
            if r.id == id {
                SubscriberRecord { id: r.id, status: SubscriberStatus::Confirmed }
            } else {
                r
            },
    )
}

impl SubscriberStore {
    /// Data-model invariant: each token has at most one live binding, and
    /// each subscriber identity names at most one row.
    pub open spec fn wf(self) -> bool {
        &&& forall|i: int, j: int|
            0 <= i < j < self.tokens@.len() ==> self.tokens@[i].subscription_token@
                != self.tokens@[j].subscription_token@
        &&& forall|i: int, j: int|
            0 <= i < j < self.subscribers@.len() ==> self.subscribers@[i].id
                != self.subscribers@[j].id
    }

    /// The resolver's storage operation: a read-only lookup of the binding
    /// for `subscription_token`, failing exactly when the storage layer is
    /// raising a lookup fault.
    pub fn get_subscriber_id_from_token(&self, subscription_token: &str) -> (result: Result<
        Option<SubscriberId>,
        StorageError,
    >)
        requires
            self.wf(),
        ensures
            self.lookup_fault ==> result is Err,
            !self.lookup_fault ==> result == Ok::<Option<SubscriberId>, StorageError>(
                token_binding(self.tokens@, subscription_token@),
            ),
    {
        if self.lookup_fault {
            return Err(StorageError { message: "subscription token lookup failed".to_string() });
        }
        let wanted: String = subscription_token.to_string();
        let mut i: usize = 0;
        while i < self.tokens.len()
            invariant
                i <= self.tokens@.len(),
                !self.lookup_fault,
                wanted@ == subscription_token@,
                token_binding(self.tokens@, subscription_token@) == token_binding_from(
                    self.tokens@,
                    subscription_token@,
                    i as int,
                ),
            decreases self.tokens@.len() - i,
        {
            if self.tokens[i].subscription_token == wanted {
                return Ok(Some(self.tokens[i].subscriber_id));
            }
            i = i + 1;
        }
        Ok(None)
    }

    /// The committer's storage operation: set every row carrying
    /// `subscriber_id` to `Confirmed`, failing exactly when the storage layer
    /// is raising a commit fault; a fault leaves the table untouched, and an
    /// identity matching no row still succeeds.
    pub fn confirm_subscriber(&mut self, subscriber_id: SubscriberId) -> (result: Result<
        (),
        StorageError,
    >)
        requires
            old(self).wf(),
        ensures
            final(self).wf(),
            final(self).tokens@ == old(self).tokens@,
            final(self).lookup_fault == old(self).lookup_fault,
            final(self).commit_fault == old(self).commit_fault,
            old(self).commit_fault ==> result is Err && final(self).subscribers@ == old(self).subscribers@,
            !old(self).commit_fault ==> result == Ok::<(), StorageError>(())
                && final(self).subscribers@ == confirm_in(old(self).subscribers@, subscriber_id),
    {
        if self.commit_fault {
            return Err(StorageError { message: "subscriber status update failed".to_string() });
        }
        let mut i: usize = 0;
        while i < self.subscribers.len()
            invariant
                i <= self.subscribers@.len(),
                !old(self).commit_fault,
                self.subscribers@.len() == old(self).subscribers@.len(),
                self.tokens@ == old(self).tokens@,
                self.lookup_fault == old(self).lookup_fault,
                self.commit_fault == old(self).commit_fault,
                forall|j: int|
                    0 <= j < i ==> self.subscribers@[j] == confirm_in(
                        old(self).subscribers@,
                        subscriber_id,
                    )[j],
                forall|j: int|
                    i <= j < self.subscribers@.len() ==> self.subscribers@[j]
                        == old(self).subscribers@[j],
            decreases self.subscribers@.len() - i,
        {
            if self.subscribers[i].id == subscriber_id {
                self.subscribers[i] = SubscriberRecord {
                    id: subscriber_id,
                    status: SubscriberStatus::Confirmed,
                };
            }
            i = i + 1;
        }
        proof {
            assert(self.subscribers@ =~= confirm_in(old(self).subscribers@, subscriber_id));
            lemma_confirm_in_preserves_ids(old(self).subscribers@, subscriber_id);
        }
        Ok(())
    }

    /// Read back the status recorded for a subscriber.
    pub fn status_of_subscriber(&self, subscriber_id: SubscriberId) -> (status: Option<
        SubscriberStatus,
    >)
        ensures
            status == status_of(self.subscribers@, subscriber_id),
    {
        let mut i: usize = 0;
        while i < self.subscribers.len()
            invariant
                i <= self.subscribers@.len(),
                status_of(self.subscribers@, subscriber_id) == status_of_from(
                    self.subscribers@,
                    subscriber_id,
                    i as int,
                ),
            decreases self.subscribers@.len() - i,
        {
            if self.subscribers[i].id == subscriber_id {
                return Some(self.subscribers[i].status);
            }
            i = i + 1;
        }
        None
    }
}

/// The committer's update keeps every row's identity: it only ever touches
/// the status field.
pub proof fn lemma_confirm_in_preserves_ids(subscribers: Seq<SubscriberRecord>, id: SubscriberId)
    ensures
        confirm_in(subscribers, id).len() == subscribers.len(),
        forall|j: int|
            0 <= j < subscribers.len() ==> #[trigger] confirm_in(subscribers, id)[j].id
                == subscribers[j].id,
{
}

/// Confirming `id` sets its recorded status to `Confirmed` exactly when a row
/// for `id` exists, and still records nothing when none does.
pub proof fn lemma_confirm_in_same(subscribers: Seq<SubscriberRecord>, id: SubscriberId)
    ensures
        status_of(confirm_in(subscribers, id), id) == (if status_of(subscribers, id) is Some {
            Some(SubscriberStatus::Confirmed)
        } else {
            None::<SubscriberStatus>
        }),
{
    lemma_confirm_in_same_from(subscribers, id, 0);
}

proof fn lemma_confirm_in_same_from(subscribers: Seq<SubscriberRecord>, id: SubscriberId, k: int)
    requires
        0 <= k <= subscribers.len(),
    ensures
        status_of_from(confirm_in(subscribers, id), id, k) == (if status_of_from(
            subscribers,
            id,
            k,
        ) is Some {
            Some(SubscriberStatus::Confirmed)
        } else {
            None::<SubscriberStatus>
        }),
    decreases subscribers.len() - k,
{
    if k < subscribers.len() && !(subscribers[k].id == id) {
        lemma_confirm_in_same_from(subscribers, id, k + 1);
    }
}

/// Confirming `id` leaves the recorded status of every other subscriber
/// exactly as it was.
pub proof fn lemma_confirm_in_other(
    subscribers: Seq<SubscriberRecord>,
    id: SubscriberId,
    other: SubscriberId,
)
    requires
        other != id,
    ensures
        status_of(confirm_in(subscribers, id), other) == status_of(subscribers, other),
{
    lemma_confirm_in_other_from(subscribers, id, other, 0);
}

proof fn lemma_confirm_in_other_from(
    subscribers: Seq<SubscriberRecord>,
    id: SubscriberId,
    other: SubscriberId,
    k: int,
)
    requires
        other != id,
        0 <= k <= subscribers.len(),
    ensures
        status_of_from(confirm_in(subscribers, id), other, k) == status_of_from(
            subscribers,
            other,
            k,
        ),
    decreases subscribers.len() - k,
{
    if k < subscribers.len() && !(subscribers[k].id == other) {
        lemma_confirm_in_other_from(subscribers, id, other, k + 1);
    }
}

/// The committer's update is idempotent: applying it a second time for the
/// same subscriber changes nothing.
pub proof fn lemma_confirm_in_idempotent(subscribers: Seq<SubscriberRecord>, id: SubscriberId)
    ensures
        confirm_in(confirm_in(subscribers, id), id) == confirm_in(subscribers, id),
{
    assert(confirm_in(confirm_in(subscribers, id), id) =~= confirm_in(subscribers, id));
}

} // verus!
