use std::sync::Arc;
use yellowstone_filter::confirmed_block;
use yellowstone_filter::filter::FilterError;
use yellowstone_filter::geyser::{
    SubscribeRequest, SubscribeRequestFilterAccounts, SubscribeRequestFilterSlots,
    SubscribeRequestFilterTransactions, SubscribeRequestPing, SubscribeUpdate,
    SubscribeUpdatePong, UpdateOneof,
};
use yellowstone_filter::hub::{Hub, SessionQueue};
use yellowstone_filter::keys::{Pubkey, Signature};
use yellowstone_filter::limits::{FilterLimits, FilterLimitsCheckError};
use yellowstone_filter::message::{
    CommitmentLevel, Message, MessageAccount, MessageAccountInfo, MessageSlot,
    MessageTransaction, MessageTransactionInfo, Timestamp,
};
use yellowstone_filter::name::FilterNames;
use yellowstone_filter::session::{Session, SessionSignal, SessionState};

fn key(byte: u8) -> Pubkey {
    Pubkey::new_from_array([byte; 32])
}

fn text(key: &Pubkey) -> String {
    bs58::encode(key.to_bytes()).into_string()
}

fn session() -> Session {
    Session::new(FilterLimits::default(), FilterNames::new(64, 1024, 1000))
}

fn stamp() -> Timestamp {
    Timestamp {
        seconds: 0,
        nanos: 0,
    }
}

fn slot(number: u64, status: CommitmentLevel) -> Message {
    Message::Slot(MessageSlot {
        slot: number,
        parent: Some(number - 1),
        status,
        dead_error: None,
        created_at: stamp(),
    })
}

fn account(pubkey: Pubkey) -> Message {
    Message::Account(MessageAccount {
        account: Arc::new(MessageAccountInfo {
            pubkey,
            lamports: 1,
            owner: key(0),
            executable: false,
            rent_epoch: 0,
            data: vec![1, 2, 3],
            write_version: 0,
            txn_signature: None,
        }),
        slot: 1,
        is_startup: false,
        created_at: stamp(),
    })
}

fn transaction(keys: Vec<Pubkey>) -> Message {
    Message::Transaction(MessageTransaction {
        transaction: Arc::new(MessageTransactionInfo {
            signature: Signature::new_from_array([9; 64]),
            is_vote: false,
            transaction: Arc::new(confirmed_block::Transaction::default()),
            meta: Arc::new(confirmed_block::TransactionStatusMeta::default()),
            index: 4,
            account_keys: keys,
        }),
        slot: 8,
        created_at: stamp(),
    })
}

fn pong(id: i32) -> SubscribeUpdate {
    SubscribeUpdate {
        filters: vec![],
        update_oneof: Some(UpdateOneof::Pong(SubscribeUpdatePong { id })),
    }
}

fn slots_request(commitment: i32) -> SubscribeRequest {
    let mut request = SubscribeRequest::new();
    request.slots.insert(
        "s1".to_string(),
        SubscribeRequestFilterSlots {
            filter_by_commitment: Some(true),
        },
    );
    request.commitment = Some(commitment);
    request
}

fn accounts_request(name: &str, pubkey: &Pubkey) -> SubscribeRequest {
    let mut request = SubscribeRequest::new();
    request.accounts.insert(
        name.to_string(),
        SubscribeRequestFilterAccounts {
            account: vec![text(pubkey)],
            owner: vec![],
            filters: vec![],
            nonempty_txn_signature: None,
        },
    );
    request
}

#[test]
fn test_slot_updates_are_gated_by_commitment() {
    let mut session = session();
    let (pong, signal) = session.on_request(&slots_request(1));
    assert_eq!(pong, None);
    assert_eq!(signal, SessionSignal::Quiet);
    assert_eq!(session.state(), SessionState::Active);

    assert!(session.on_message(&slot(10, CommitmentLevel::Processed)).is_empty());
    let confirmed = session.on_message(&slot(10, CommitmentLevel::Confirmed));
    assert_eq!(confirmed.len(), 1);
    assert_eq!(confirmed[0].filters, vec!["s1".to_string()]);
    match &confirmed[0].update_oneof {
        Some(UpdateOneof::Slot(update)) => {
            assert_eq!(update.slot, 10);
            assert_eq!(update.parent, Some(9));
            assert_eq!(update.status, 1);
            assert_eq!(update.dead_error, None);
        }
        other => panic!("unexpected update {:?}", other),
    }
    assert!(session.on_message(&slot(10, CommitmentLevel::Finalized)).is_empty());
}

#[test]
fn test_slot_filter_without_gate_lets_every_status_through() {
    let mut request = SubscribeRequest::new();
    request.slots.insert("all".to_string(), SubscribeRequestFilterSlots::default());
    request.slots.insert(
        "open".to_string(),
        SubscribeRequestFilterSlots {
            filter_by_commitment: Some(false),
        },
    );
    request.slots.insert(
        "gated".to_string(),
        SubscribeRequestFilterSlots {
            filter_by_commitment: Some(true),
        },
    );
    let mut session = session();
    session.on_request(&request);
    let dead = session.on_message(&slot(3, CommitmentLevel::Dead));
    assert_eq!(dead[0].filters, vec!["all".to_string(), "open".to_string()]);
    let processed = session.on_message(&slot(3, CommitmentLevel::Processed));
    assert_eq!(
        processed[0].filters,
        vec!["all".to_string(), "open".to_string(), "gated".to_string()]
    );
}

#[test]
fn test_ping_is_answered_with_pong() {
    let mut request = SubscribeRequest::new();
    request.ping = Some(SubscribeRequestPing { id: 7 });
    let mut session = session();
    assert_eq!(session.on_upstream_ping(), None);
    assert_eq!(session.on_client_ping(3), None);
    let (answer, signal) = session.on_request(&request);
    assert_eq!(answer, Some(pong(7)));
    assert_eq!(signal, SessionSignal::Quiet);
    assert_eq!(session.on_upstream_ping(), Some(pong(1)));
    assert_eq!(session.on_upstream_ping(), Some(pong(1)));
    assert_eq!(session.on_client_ping(42), Some(pong(42)));
    assert_eq!(session.filter().get_pong_msg(), Some(pong(7)));
}

#[test]
fn test_transaction_is_sent_on_the_channels_that_match() {
    let a = key(1);
    let b = key(2);
    let mut request = SubscribeRequest::new();
    request.transactions.insert(
        "serum".to_string(),
        SubscribeRequestFilterTransactions {
            account_include: vec![text(&a)],
            ..SubscribeRequestFilterTransactions::default()
        },
    );
    let mut session = session();
    session.on_request(&request);
    let updates = session.on_message(&transaction(vec![b, a]));
    // the status channel has no filter: its empty list of names is not sent
    assert_eq!(updates.len(), 1);
    assert_eq!(updates[0].filters, vec!["serum".to_string()]);
    match &updates[0].update_oneof {
        Some(UpdateOneof::Transaction(update)) => {
            assert_eq!(update.slot, 8);
            let info = update.transaction.as_ref().unwrap();
            assert_eq!(info.signature, vec![9u8; 64]);
            assert_eq!(info.index, 4);
            assert!(!info.is_vote);
            assert!(info.transaction.is_some());
            assert!(info.meta.is_some());
        }
        other => panic!("unexpected update {:?}", other),
    }

    let mut both = SubscribeRequest::new();
    both.transactions.insert(
        "serum".to_string(),
        SubscribeRequestFilterTransactions {
            account_include: vec![text(&a)],
            ..SubscribeRequestFilterTransactions::default()
        },
    );
    both.transactions_status.insert(
        "status".to_string(),
        SubscribeRequestFilterTransactions {
            account_required: vec![text(&b)],
            ..SubscribeRequestFilterTransactions::default()
        },
    );
    session.on_request(&both);
    let updates = session.on_message(&transaction(vec![b, a]));
    assert_eq!(updates.len(), 2);
    assert_eq!(updates[0].filters, vec!["serum".to_string()]);
    assert!(matches!(updates[0].update_oneof, Some(UpdateOneof::Transaction(_))));
    assert_eq!(updates[1].filters, vec!["status".to_string()]);
    match &updates[1].update_oneof {
        Some(UpdateOneof::TransactionStatus(update)) => {
            assert_eq!(update.slot, 8);
            assert_eq!(update.signature, vec![9u8; 64]);
            assert_eq!(update.index, 4);
            assert_eq!(update.err, None);
        }
        other => panic!("unexpected update {:?}", other),
    }
    let only_status = session.on_message(&transaction(vec![b]));
    assert_eq!(only_status.len(), 1);
    assert!(matches!(
        only_status[0].update_oneof,
        Some(UpdateOneof::TransactionStatus(_))
    ));
}

#[test]
fn test_required_and_included_keys() {
    let x = key(1);
    let y = key(2);
    let z = key(3);
    let mut request = SubscribeRequest::new();
    request.transactions.insert(
        "serum".to_string(),
        SubscribeRequestFilterTransactions {
            account_include: vec![text(&x)],
            account_required: vec![text(&y), text(&z)],
            ..SubscribeRequestFilterTransactions::default()
        },
    );
    let mut session = session();
    session.on_request(&request);
    assert!(session.on_message(&transaction(vec![x, z])).is_empty());
    assert_eq!(session.on_message(&transaction(vec![x, z, y])).len(), 1);
}

#[test]
fn test_first_request_refused_closes_the_session() {
    let mut bad = SubscribeRequest::new();
    bad.commitment = Some(100);
    let mut session = session();
    let (answer, signal) = session.on_request(&bad);
    assert_eq!(answer, None);
    assert_eq!(
        signal,
        SessionSignal::ProtocolError(FilterError::InvalidCommitment { commitment: 100 })
    );
    assert_eq!(session.state(), SessionState::Closing);
    // a closing session takes nothing more
    let (answer, signal) = session.on_request(&slots_request(1));
    assert_eq!(answer, None);
    assert_eq!(signal, SessionSignal::Quiet);
    assert_eq!(session.state(), SessionState::Closing);
    assert!(session.on_message(&slot(1, CommitmentLevel::Confirmed)).is_empty());
    assert_eq!(session.on_upstream_ping(), None);
}

#[test]
fn test_later_request_refused_keeps_the_filter() {
    let p = key(1);
    let mut session = session();
    session.on_request(&accounts_request("a", &p));
    assert_eq!(session.on_message(&account(p)).len(), 1);

    let mut bad = SubscribeRequest::new();
    bad.accounts.insert("b".to_string(), SubscribeRequestFilterAccounts::default());
    let (answer, signal) = session.on_request(&bad);
    assert_eq!(answer, None);
    assert_eq!(
        signal,
        SessionSignal::RequestError(FilterError::LimitsCheck(
            FilterLimitsCheckError::AnyNotAllowed
        ))
    );
    assert_eq!(session.state(), SessionState::Active);
    let updates = session.on_message(&account(p));
    assert_eq!(updates.len(), 1);
    assert_eq!(updates[0].filters, vec!["a".to_string()]);
}

#[test]
fn test_request_replaces_the_filter() {
    let p = key(1);
    let q = key(2);
    let mut session = session();
    assert!(session.on_message(&account(p)).is_empty());
    session.on_request(&accounts_request("a", &p));
    assert_eq!(session.on_message(&account(p))[0].filters, vec!["a".to_string()]);
    assert!(session.on_message(&account(q)).is_empty());
    session.on_request(&accounts_request("b", &q));
    assert!(session.on_message(&account(p)).is_empty());
    assert_eq!(session.on_message(&account(q))[0].filters, vec!["b".to_string()]);
}

#[test]
fn test_installing_the_same_request_twice() {
    let p = key(1);
    let mut request = accounts_request("a", &p);
    request.slots.insert("s".to_string(), SubscribeRequestFilterSlots::default());
    request.ping = Some(SubscribeRequestPing { id: 5 });
    let mut once = session();
    once.on_request(&request);
    let mut twice = session();
    twice.on_request(&request);
    let (answer, signal) = twice.on_request(&request);
    assert_eq!(answer, Some(pong(5)));
    assert_eq!(signal, SessionSignal::Quiet);
    assert_eq!(twice.state(), SessionState::Active);
    for message in [
        account(p),
        account(key(2)),
        slot(3, CommitmentLevel::Processed),
        transaction(vec![p]),
    ] {
        assert_eq!(once.on_message(&message), twice.on_message(&message));
    }
    assert_eq!(once.filter().get_metrics(), twice.filter().get_metrics());
}

#[test]
fn test_installing_twice_with_a_full_registry() {
    let p = key(1);
    let request = accounts_request("a", &p);
    let mut session = Session::new(FilterLimits::default(), FilterNames::new(64, 1, 1000));
    assert_eq!(session.on_request(&request).1, SessionSignal::Quiet);
    assert_eq!(session.on_request(&request).1, SessionSignal::Quiet);
    assert_eq!(session.on_message(&account(p)).len(), 1);
    // after the retention window the name can be interned anew
    session.on_tick(5000);
    assert_eq!(
        session.on_request(&accounts_request("b", &p)).1,
        SessionSignal::Quiet
    );
}

#[test]
fn test_backpressure_and_disconnect() {
    let mut session = session();
    assert_eq!(session.on_backpressure(), SessionSignal::Quiet);
    assert_eq!(session.state(), SessionState::AwaitingInitial);
    session.on_request(&slots_request(0));
    assert_eq!(session.on_backpressure(), SessionSignal::Overflow);
    assert_eq!(session.state(), SessionState::Closing);
    assert_eq!(session.on_backpressure(), SessionSignal::Quiet);

    let mut other = self::session();
    other.on_request(&slots_request(0));
    other.on_disconnect();
    assert_eq!(other.state(), SessionState::Closing);
    assert!(other.on_message(&slot(1, CommitmentLevel::Processed)).is_empty());
}

#[test]
fn test_queue_is_bounded() {
    let message = Arc::new(slot(1, CommitmentLevel::Processed));
    let mut queue = SessionQueue::new(2);
    queue.offer(&message);
    queue.offer(&message);
    assert_eq!(queue.len(), 2);
    assert!(!queue.is_lagging());
    queue.offer(&message);
    assert_eq!(queue.len(), 2);
    assert!(queue.is_lagging());
    // a queue that fell behind takes nothing more, even with room
    assert_eq!(queue.take(), Some(message.clone()));
    queue.offer(&message);
    assert_eq!(queue.len(), 1);
    assert_eq!(queue.take(), Some(message.clone()));
    assert_eq!(queue.take(), None);
}

#[test]
fn test_queue_keeps_the_order() {
    let first = Arc::new(slot(1, CommitmentLevel::Processed));
    let second = Arc::new(slot(2, CommitmentLevel::Processed));
    let mut queue = SessionQueue::new(4);
    queue.offer(&first);
    queue.offer(&second);
    assert_eq!(queue.take(), Some(first));
    assert_eq!(queue.take(), Some(second));
}

#[test]
fn test_hub_serves_every_session() {
    let message = Arc::new(slot(1, CommitmentLevel::Processed));
    let mut hub = Hub::new();
    let slow = hub.attach(1);
    let fast = hub.attach(3);
    let none = hub.attach(0);
    assert_eq!((slow, fast, none), (0, 1, 2));
    hub.publish(&message);
    assert!(!hub.is_lagging(slow));
    assert!(!hub.is_lagging(fast));
    assert!(hub.is_lagging(none));
    hub.publish(&message);
    // the slow session falls behind and the fast one is still served
    assert!(hub.is_lagging(slow));
    assert!(!hub.is_lagging(fast));
    hub.publish(&message);
    assert!(!hub.is_lagging(fast));
    hub.publish(&message);
    assert!(hub.is_lagging(fast));
}
