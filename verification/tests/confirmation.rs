use subscription_confirm::confirmation::{after_commit, after_lookup, handle_confirmation};
use subscription_confirm::domain::{
    ConfirmSubscriberError, ConfirmationStep, Parameters, StorageError, SubscriberId,
    SubscriberStatus,
};
use subscription_confirm::store::{SubscriberRecord, SubscriberStore, TokenRecord};

fn subscriber(value: u128, status: SubscriberStatus) -> SubscriberRecord {
    SubscriberRecord { id: SubscriberId { value }, status }
}

fn binding(token: &str, value: u128) -> TokenRecord {
    TokenRecord {
        subscription_token: token.to_string(),
        subscriber_id: SubscriberId { value },
    }
}

fn two_subscriber_store() -> SubscriberStore {
    SubscriberStore {
        subscribers: vec![
            subscriber(1, SubscriberStatus::Pending),
            subscriber(2, SubscriberStatus::Pending),
        ],
        tokens: vec![binding("abc123", 1), binding("def456", 2)],
        lookup_fault: false,
        commit_fault: false,
    }
}

fn parameters(token: &str) -> Parameters {
    Parameters {
        subscription_token: token.to_string(),
    }
}

#[test]
fn pending_subscriber_is_confirmed() {
    let mut store = two_subscriber_store();
    let result = handle_confirmation(&mut store, &parameters("abc123"));
    assert!(result.is_ok());
    assert_eq!(
        store.status_of_subscriber(SubscriberId { value: 1 }),
        Some(SubscriberStatus::Confirmed)
    );
}

#[test]
fn unknown_token_is_rejected_without_mutation() {
    let mut store = two_subscriber_store();
    let result = handle_confirmation(&mut store, &parameters("does-not-exist"));
    assert!(matches!(result, Err(ConfirmSubscriberError::InvalidTokenError)));
    assert_eq!(
        store.status_of_subscriber(SubscriberId { value: 1 }),
        Some(SubscriberStatus::Pending)
    );
    assert_eq!(
        store.status_of_subscriber(SubscriberId { value: 2 }),
        Some(SubscriberStatus::Pending)
    );
}

#[test]
fn already_confirmed_subscriber_confirms_again() {
    let mut store = SubscriberStore {
        subscribers: vec![subscriber(1, SubscriberStatus::Confirmed)],
        tokens: vec![binding("abc123", 1)],
        lookup_fault: false,
        commit_fault: false,
    };
    let result = handle_confirmation(&mut store, &parameters("abc123"));
    assert!(result.is_ok());
    assert_eq!(
        store.status_of_subscriber(SubscriberId { value: 1 }),
        Some(SubscriberStatus::Confirmed)
    );
}

#[test]
fn repeated_confirmation_is_idempotent() {
    let mut store = two_subscriber_store();
    let first = handle_confirmation(&mut store, &parameters("abc123"));
    let second = handle_confirmation(&mut store, &parameters("abc123"));
    assert!(first.is_ok());
    assert!(second.is_ok());
    assert_eq!(
        store.status_of_subscriber(SubscriberId { value: 1 }),
        Some(SubscriberStatus::Confirmed)
    );
}

#[test]
fn other_subscribers_are_untouched() {
    let mut store = two_subscriber_store();
    let result = handle_confirmation(&mut store, &parameters("abc123"));
    assert!(result.is_ok());
    assert_eq!(
        store.status_of_subscriber(SubscriberId { value: 2 }),
        Some(SubscriberStatus::Pending)
    );
}

#[test]
fn lookup_fault_yields_unexpected_error_without_mutation() {
    let mut store = two_subscriber_store();
    store.lookup_fault = true;
    let result = handle_confirmation(&mut store, &parameters("abc123"));
    assert!(matches!(
        result,
        Err(ConfirmSubscriberError::UnexpectedError(ConfirmationStep::Lookup, _))
    ));
    assert_eq!(
        store.status_of_subscriber(SubscriberId { value: 1 }),
        Some(SubscriberStatus::Pending)
    );
    assert_eq!(
        store.status_of_subscriber(SubscriberId { value: 2 }),
        Some(SubscriberStatus::Pending)
    );
}

#[test]
fn commit_fault_yields_unexpected_error() {
    let mut store = two_subscriber_store();
    store.commit_fault = true;
    let result = handle_confirmation(&mut store, &parameters("abc123"));
    assert!(matches!(
        result,
        Err(ConfirmSubscriberError::UnexpectedError(ConfirmationStep::Commit, _))
    ));
    assert_eq!(
        store.status_of_subscriber(SubscriberId { value: 1 }),
        Some(SubscriberStatus::Pending)
    );
}

#[test]
fn resolver_finds_bound_token() {
    let store = two_subscriber_store();
    let result = store.get_subscriber_id_from_token("def456");
    assert!(matches!(result, Ok(Some(SubscriberId { value: 2 }))));
}

#[test]
fn resolver_misses_unknown_token() {
    let store = two_subscriber_store();
    let result = store.get_subscriber_id_from_token("nope");
    assert!(matches!(result, Ok(None)));
}

#[test]
fn resolver_surfaces_lookup_fault() {
    let mut store = two_subscriber_store();
    store.lookup_fault = true;
    let result = store.get_subscriber_id_from_token("abc123");
    assert!(result.is_err());
}

#[test]
fn committer_confirms_existing_row() {
    let mut store = two_subscriber_store();
    let result = store.confirm_subscriber(SubscriberId { value: 2 });
    assert!(result.is_ok());
    assert_eq!(
        store.status_of_subscriber(SubscriberId { value: 2 }),
        Some(SubscriberStatus::Confirmed)
    );
    assert_eq!(
        store.status_of_subscriber(SubscriberId { value: 1 }),
        Some(SubscriberStatus::Pending)
    );
}

#[test]
fn committer_treats_stale_identifier_as_success() {
    let mut store = two_subscriber_store();
    let result = store.confirm_subscriber(SubscriberId { value: 99 });
    assert!(result.is_ok());
    assert_eq!(store.status_of_subscriber(SubscriberId { value: 99 }), None);
    assert_eq!(
        store.status_of_subscriber(SubscriberId { value: 1 }),
        Some(SubscriberStatus::Pending)
    );
}

#[test]
fn committer_surfaces_commit_fault() {
    let mut store = two_subscriber_store();
    store.commit_fault = true;
    let result = store.confirm_subscriber(SubscriberId { value: 1 });
    assert!(result.is_err());
    assert_eq!(
        store.status_of_subscriber(SubscriberId { value: 1 }),
        Some(SubscriberStatus::Pending)
    );
}

#[test]
fn after_lookup_proceeds_with_resolved_identity() {
    let decision = after_lookup(Ok(Some(SubscriberId { value: 7 })));
    assert!(matches!(decision, Ok(SubscriberId { value: 7 })));
}

#[test]
fn after_lookup_rejects_missing_binding() {
    let decision = after_lookup(Ok(None));
    assert!(matches!(decision, Err(ConfirmSubscriberError::InvalidTokenError)));
}

#[test]
fn after_lookup_tags_fault_with_lookup_step() {
    let decision = after_lookup(Err(StorageError {
        message: "connection reset".to_string(),
    }));
    assert!(matches!(
        decision,
        Err(ConfirmSubscriberError::UnexpectedError(ConfirmationStep::Lookup, _))
    ));
}

#[test]
fn after_commit_passes_success_through() {
    let decision = after_commit(Ok(()));
    assert!(decision.is_ok());
}

#[test]
fn after_commit_tags_fault_with_commit_step() {
    let decision = after_commit(Err(StorageError {
        message: "statement timeout".to_string(),
    }));
    assert!(matches!(
        decision,
        Err(ConfirmSubscriberError::UnexpectedError(ConfirmationStep::Commit, _))
    ));
}

#[test]
fn status_codes_match_error_classes() {
    assert_eq!(ConfirmSubscriberError::InvalidTokenError.status_code(), 401);
    let unexpected = ConfirmSubscriberError::UnexpectedError(
        ConfirmationStep::Commit,
        StorageError {
            message: "statement timeout".to_string(),
        },
    );
    assert_eq!(unexpected.status_code(), 500);
}
