use bridge_sim::blockchain::{AbstractBlockchain, AbstractBlockchainEvent, Transaction};
use bridge_sim::client::{AbstractBlockchainClient, FaultDecision};
use bridge_sim::counterparty::CounterpartyCall;
use bridge_sim::digest::hash_lock_of;
use bridge_sim::initiator::InitiatorCall;
use bridge_sim::rng::SeedRng;
use bridge_sim::types::BridgeError;

fn new_chain(seed: u64) -> AbstractBlockchain {
    AbstractBlockchain::new(SeedRng::new(seed), "L1".to_string())
}

fn initiated_details(
    event: AbstractBlockchainEvent,
) -> bridge_sim::types::BridgeTransferDetails {
    match event {
        AbstractBlockchainEvent::BridgeTransferInitiated(details) => details,
        other => panic!("expected an initiation event, got {:?}", other),
    }
}

#[test]
fn test_transfer_ids_unique() {
    let mut chain = new_chain(1);
    let lock = hash_lock_of(b"s");
    let mut ids = Vec::new();
    for _ in 0..3 {
        chain.submit_transaction(Transaction::Initiator(
            InitiatorCall::InitiateBridgeTransfer(1, 2, 10, 100, lock),
        ));
        let event = chain.poll_next().expect("an initiation must emit an event");
        ids.push(initiated_details(event).bridge_transfer_id);
    }
    assert_eq!(ids, vec![0, 1, 2]);
    for i in 0..ids.len() {
        for j in 0..ids.len() {
            if i != j {
                assert_ne!(ids[i], ids[j]);
            }
        }
    }
}

#[test]
fn test_complete_credits_recipient() {
    // Initiate 100 from address 1 to address 2, locked over secret `s`,
    // expiring at tick 100; advance to 50; complete with `s`.
    let mut chain = new_chain(2);
    chain.add_account(1, 1000);
    let secret = b"s".to_vec();
    let lock = hash_lock_of(&secret);
    chain.submit_transaction(Transaction::Initiator(
        InitiatorCall::InitiateBridgeTransfer(1, 2, 100, 100, lock),
    ));
    let event = chain.poll_next().expect("an initiation must emit an event");
    let id = initiated_details(event).bridge_transfer_id;

    chain.forward_time(50);
    chain.submit_transaction(Transaction::Initiator(
        InitiatorCall::CompleteBridgeTransfer(id, secret.clone()),
    ));
    // A completion logs no event, so this poll cycle yields nothing.
    assert_eq!(chain.poll_next(), None);

    assert_eq!(chain.get_balance(2), Some(100));
    assert_eq!(chain.get_balance(1), Some(1000)); // initiation does not debit

    // A second completion attempt with the same id, at tick 150, fails with
    // UnknownTransfer and changes no balance.
    chain.forward_time(100);
    let verdict = chain.initiator_contract.complete_bridge_transfer(
        &mut chain.accounts,
        chain.time,
        id,
        &secret,
    );
    assert_eq!(verdict, Err(BridgeError::UnknownTransfer));
    assert_eq!(chain.get_balance(2), Some(100));
    assert_eq!(chain.get_balance(1), Some(1000));
}

#[test]
fn test_wrong_secret_rejected() {
    let mut chain = new_chain(3);
    chain.add_account(2, 7);
    let lock = hash_lock_of(b"right");
    chain.submit_transaction(Transaction::Initiator(
        InitiatorCall::InitiateBridgeTransfer(1, 2, 50, 100, lock),
    ));
    let id = initiated_details(chain.poll_next().unwrap()).bridge_transfer_id;

    let verdict = chain.initiator_contract.complete_bridge_transfer(
        &mut chain.accounts,
        chain.time,
        id,
        b"wrong",
    );
    assert_eq!(verdict, Err(BridgeError::InvalidSecret));
    assert_eq!(chain.get_balance(2), Some(7));

    // The transfer is still pending: the right secret succeeds afterwards.
    let verdict = chain.initiator_contract.complete_bridge_transfer(
        &mut chain.accounts,
        chain.time,
        id,
        b"right",
    );
    assert_eq!(verdict, Ok(()));
    assert_eq!(chain.get_balance(2), Some(57));
}

#[test]
fn test_expired_rejected() {
    // Initiate with a 100-tick lock, advance past it, and attempt completion
    // with the correct secret: it fails with Expired and credits nothing.
    let mut chain = new_chain(4);
    chain.add_account(2, 11);
    let secret = b"s".to_vec();
    let lock = hash_lock_of(&secret);
    chain.submit_transaction(Transaction::Initiator(
        InitiatorCall::InitiateBridgeTransfer(1, 2, 100, 100, lock),
    ));
    let id = initiated_details(chain.poll_next().unwrap()).bridge_transfer_id;

    chain.forward_time(150);
    chain.submit_transaction(Transaction::Initiator(
        InitiatorCall::CompleteBridgeTransfer(id, secret.clone()),
    ));
    assert_eq!(chain.poll_next(), None);
    assert_eq!(chain.get_balance(2), Some(11));

    let verdict = chain.initiator_contract.complete_bridge_transfer(
        &mut chain.accounts,
        chain.time,
        id,
        &secret,
    );
    assert_eq!(verdict, Err(BridgeError::Expired));
    assert_eq!(chain.get_balance(2), Some(11));
}

#[test]
fn test_completion_exactly_at_time_lock_succeeds() {
    let mut chain = new_chain(5);
    let secret = b"edge".to_vec();
    let lock = hash_lock_of(&secret);
    chain.submit_transaction(Transaction::Initiator(
        InitiatorCall::InitiateBridgeTransfer(1, 2, 5, 100, lock),
    ));
    let id = initiated_details(chain.poll_next().unwrap()).bridge_transfer_id;
    chain.forward_time(100); // at the lock, not past it
    let verdict = chain.initiator_contract.complete_bridge_transfer(
        &mut chain.accounts,
        chain.time,
        id,
        &secret,
    );
    assert_eq!(verdict, Ok(()));
    assert_eq!(chain.get_balance(2), Some(5));
}

#[test]
fn test_balance_overflow_rejected() {
    let mut chain = new_chain(6);
    chain.add_account(2, u64::MAX);
    let secret = b"s".to_vec();
    let lock = hash_lock_of(&secret);
    chain.submit_transaction(Transaction::Initiator(
        InitiatorCall::InitiateBridgeTransfer(1, 2, 1, 100, lock),
    ));
    let id = initiated_details(chain.poll_next().unwrap()).bridge_transfer_id;
    let verdict = chain.initiator_contract.complete_bridge_transfer(
        &mut chain.accounts,
        chain.time,
        id,
        &secret,
    );
    assert_eq!(verdict, Err(BridgeError::BalanceOverflow));
    assert_eq!(chain.get_balance(2), Some(u64::MAX));
}

#[test]
fn test_forward_time_is_exact() {
    let mut chain = new_chain(7);
    assert_eq!(chain.time, 0);
    chain.forward_time(50);
    assert_eq!(chain.time, 50);
    chain.forward_time(0);
    assert_eq!(chain.time, 50);
    chain.forward_time(150);
    assert_eq!(chain.time, 200);
}

#[test]
fn test_lock_emits_event() {
    let mut chain = new_chain(8);
    let lock = hash_lock_of(b"x");
    chain.submit_transaction(Transaction::Counterparty(
        CounterpartyCall::LockBridgeTransfer(9, lock, 77, 2, 40),
    ));
    let event = chain.poll_next().expect("a lock must emit an event");
    match event {
        AbstractBlockchainEvent::BridgeTransferAssetsLocked(details) => {
            assert_eq!(details.bridge_transfer_id, 9);
            assert_eq!(details.hash_lock, lock);
            assert_eq!(details.time_lock, 77);
            assert_eq!(details.recipient_address, 2);
            assert_eq!(details.amount, 40);
        },
        other => panic!("expected a lock event, got {:?}", other),
    }
}

#[test]
fn test_event_listener_ordering() {
    let mut chain = new_chain(9);
    let lock = hash_lock_of(b"x");
    let first = chain.add_event_listener();

    chain.submit_transaction(Transaction::Initiator(
        InitiatorCall::InitiateBridgeTransfer(1, 2, 10, 100, lock),
    ));
    let event_one = chain.poll_next().unwrap();

    // A listener registered after an event never receives it.
    let second = chain.add_event_listener();

    chain.submit_transaction(Transaction::Counterparty(
        CounterpartyCall::LockBridgeTransfer(0, lock, 100, 2, 10),
    ));
    let event_two = chain.poll_next().unwrap();

    assert_eq!(chain.listener_received(first).unwrap(), vec![event_one, event_two]);
    assert_eq!(chain.listener_received(second).unwrap(), vec![event_two]);
}

#[test]
fn test_closed_listener_never_blocks_polling() {
    let mut chain = new_chain(10);
    let lock = hash_lock_of(b"x");
    let listener = chain.add_event_listener();
    chain.close_listener(listener).unwrap();

    chain.submit_transaction(Transaction::Initiator(
        InitiatorCall::InitiateBridgeTransfer(1, 2, 10, 100, lock),
    ));
    let event = chain.poll_next();
    assert!(event.is_some());
    // The closed listener was skipped, not delivered to.
    assert!(chain.event_listeners[listener].received.is_empty());
    assert_eq!(chain.listener_received(listener), Err(BridgeError::ListenerUnavailable));
}

#[test]
fn test_unknown_listener_reports_unavailable() {
    let mut chain = new_chain(11);
    assert_eq!(chain.listener_received(5), Err(BridgeError::ListenerUnavailable));
    assert_eq!(chain.close_listener(5), Err(BridgeError::ListenerUnavailable));
}

#[test]
fn test_log_drains_most_recent_first() {
    // The log is drained last-in first-out: with two undrained entries, the
    // most recently appended one is emitted first.
    let mut chain = new_chain(12);
    let lock = hash_lock_of(b"x");
    let older = AbstractBlockchainEvent::Noop;
    let newer = AbstractBlockchainEvent::BridgeTransferAssetsLocked(
        bridge_sim::types::LockDetails {
            bridge_transfer_id: 1,
            hash_lock: lock,
            time_lock: 10,
            recipient_address: 2,
            amount: 3,
        },
    );
    chain.events.push(older);
    chain.events.push(newer);
    assert_eq!(chain.poll_next(), Some(newer));
    assert_eq!(chain.poll_next(), Some(older));
    assert_eq!(chain.poll_next(), None);
}

#[test]
fn test_empty_poll_yields_nothing() {
    let mut chain = new_chain(13);
    assert_eq!(chain.poll_next(), None);
    assert_eq!(chain.get_balance(1), None);
}

#[test]
fn test_id_counter_exhaustion_logs_noop() {
    let mut chain = new_chain(14);
    chain.initiator_contract.next_transfer_id = u64::MAX;
    let lock = hash_lock_of(b"x");
    chain.submit_transaction(Transaction::Initiator(
        InitiatorCall::InitiateBridgeTransfer(1, 2, 10, 100, lock),
    ));
    assert_eq!(chain.poll_next(), Some(AbstractBlockchainEvent::Noop));
}

#[test]
fn test_fault_decisions_reproducible() {
    // Two clients built from equal generator states and rates make
    // bit-identical decision sequences.
    let mut a = AbstractBlockchainClient::new(SeedRng::new(42), 300000, 300000);
    let mut b = AbstractBlockchainClient::new(SeedRng::new(42), 300000, 300000);
    for _ in 0..50 {
        assert_eq!(a.decide(), b.decide());
    }
    assert_eq!(a, b);
}

#[test]
fn test_fault_rates_at_certainty() {
    let mut chain = new_chain(15);
    let lock = hash_lock_of(b"x");
    let transaction = || {
        Transaction::Initiator(InitiatorCall::InitiateBridgeTransfer(1, 2, 10, 100, lock))
    };

    // Certain failure: every submission is dropped.
    let mut dropper = chain.client(1000000, 0);
    dropper.publish_transaction(&mut chain, transaction());
    assert_eq!(chain.transaction_queue.len(), 0);
    assert_eq!(dropper.decide(), FaultDecision::Drop);

    // No faults at all: every submission is forwarded once.
    let mut honest = chain.client(0, 0);
    honest.publish_transaction(&mut chain, transaction());
    assert_eq!(chain.transaction_queue.len(), 1);
    assert_eq!(honest.decide(), FaultDecision::Forward);

    // Certain false positive: every submission is delivered twice.
    let mut duplicator = chain.client(0, 1000000);
    duplicator.publish_transaction(&mut chain, transaction());
    assert_eq!(chain.transaction_queue.len(), 3);
    assert_eq!(duplicator.decide(), FaultDecision::Duplicate);
}

#[test]
fn test_seeded_clone_is_deterministic() {
    let mut parent_one = SeedRng::new(7);
    let mut parent_two = SeedRng::new(7);
    let mut child_one = parent_one.seeded_clone();
    let mut child_two = parent_two.seeded_clone();
    assert_eq!(child_one, child_two);
    for _ in 0..10 {
        assert_eq!(child_one.next_u64(), child_two.next_u64());
        assert_eq!(parent_one.next_u64(), parent_two.next_u64());
    }
    // A child's stream is independent of later parent draws.
    let mut parent_three = SeedRng::new(7);
    let child_three = parent_three.seeded_clone();
    parent_three.next_u64();
    assert_eq!(child_three, child_one_reset(7));
}

fn child_one_reset(seed: u64) -> SeedRng {
    let mut parent = SeedRng::new(seed);
    parent.seeded_clone()
}

#[test]
fn test_hash_lock_is_not_the_secret() {
    let secret: Vec<u8> = (0u8..32).collect();
    let lock = hash_lock_of(&secret);
    assert_eq!(lock.len(), 32);
    assert_ne!(lock.to_vec(), secret);
    assert_eq!(lock, hash_lock_of(&secret));
    assert_ne!(lock, hash_lock_of(b"other"));
}
