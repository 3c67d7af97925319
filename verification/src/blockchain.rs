//! The simulated ledger: the single authority over balances, the logical
//! clock, the two contract state machines, the inbound transaction queue, the
//! append-only event log and the registered event listeners.
//!
//! All state transitions go through [`AbstractBlockchain::poll_next`]. One
//! poll cycle drains at most one queued transaction, dispatches it to the
//! matching contract, and then — whether or not a transaction was dispatched —
//! removes the *most recently appended* event from the log (the log is
//! deliberately drained last-in first-out, not as a FIFO queue), hands a
//! copy to every open listener, and yields it; with no event available it
//! reports nothing. The whole cycle is a pure function of the ledger state,
//! written out as [`spec_poll`].

use vstd::prelude::*;
use std::collections::HashMap;
use crate::counterparty::{CounterpartyCall, SmartContractCounterparty};
use crate::initiator::{
    initiator_wf, spec_balance, spec_complete_outcome, InitiatorCall, SmartContractInitiator,
};
use crate::rng::SeedRng;
use crate::types::{Address, Amount, BridgeTransferDetails, BridgeTransferId, LockDetails, TimeLock};

verus! {

broadcast use vstd::std_specs::hash::group_hash_axioms;

/// An entry of the ledger's append-only event log.
#[derive(Clone, Copy, Debug, PartialEq, Eq)]
pub enum AbstractBlockchainEvent {
    Noop,
    BridgeTransferInitiated(BridgeTransferDetails),
    BridgeTransferAssetsLocked(LockDetails),
}

/// The unit of work submitted to the ledger's inbound queue.
#[derive(Clone, Debug, PartialEq, Eq)]
pub enum Transaction {
    Initiator(InitiatorCall),
    Counterparty(CounterpartyCall),
}

/// The mathematical content of one queued transaction, with the secret as a
/// byte sequence.
#[verifier::ext_equal]
pub ghost enum TransactionModel {
    /// `(initiator, recipient, amount, time_lock, hash_lock)`
    Initiate(Address, Address, Amount, TimeLock, [u8; 32]),
    /// `(bridge_transfer_id, secret)`
    Complete(BridgeTransferId, Seq<u8>),
    /// `(bridge_transfer_id, hash_lock, time_lock, recipient, amount)`
    Lock(BridgeTransferId, [u8; 32], TimeLock, Address, Amount),
}

impl View for Transaction {
    type V = TransactionModel;

    open spec fn view(&self) -> TransactionModel {
        match self {
            Transaction::Initiator(call) => match call {
                InitiatorCall::InitiateBridgeTransfer(
                    initiator_address,
                    recipient_address,
                    amount,
                    time_lock,
                    hash_lock,
                ) => TransactionModel::Initiate(
                    *initiator_address,
                    *recipient_address,
                    *amount,
                    *time_lock,
                    *hash_lock,
                ),
                InitiatorCall::CompleteBridgeTransfer(bridge_transfer_id, secret) => TransactionModel::Complete(
                    *bridge_transfer_id,
                    secret@,
                ),
            },
            Transaction::Counterparty(call) => match call {
                CounterpartyCall::LockBridgeTransfer(
                    bridge_transfer_id,
                    hash_lock,
                    time_lock,
                    recipient_address,
                    amount,
                ) => TransactionModel::Lock(
                    *bridge_transfer_id,
                    *hash_lock,
                    *time_lock,
                    *recipient_address,
                    *amount,
                ),
            },
        }
    }
}

/// One registered event listener. Each listener owns an independent delivery
/// buffer, so one listener's state never affects another's; a closed listener
/// is skipped at delivery time and never blocks or aborts a poll cycle.
pub struct EventListener {
    pub is_open: bool,
    pub received: Vec<AbstractBlockchainEvent>,
    pub registered_at: Ghost<int>,
}

/// The mathematical state of one listener.
#[verifier::ext_equal]
pub ghost struct ListenerModel {
    pub is_open: bool,
    pub received: Seq<AbstractBlockchainEvent>,
    /// How many events had been emitted when the listener registered.
    pub registered_at: int,
}

impl View for EventListener {
    type V = ListenerModel;

    open spec fn view(&self) -> ListenerModel {
        ListenerModel {
            is_open: self.is_open,
            received: self.received@,
            registered_at: self.registered_at@,
        }
    }
}

/// The mathematical state of the whole ledger.
#[verifier::ext_equal]
pub ghost struct ChainModel {
    pub name: Seq<char>,
    /// The logical clock; it advances only through `forward_time`.
    pub time: u64,
    pub accounts: Map<Address, Amount>,
    /// The event log still awaiting emission, oldest first.
    pub log: Seq<AbstractBlockchainEvent>,
    pub rng_state: u64,
    pub pending: Map<BridgeTransferId, BridgeTransferDetails>,
    pub next_transfer_id: u64,
    pub issued: Seq<BridgeTransferId>,
    pub locked: Map<BridgeTransferId, LockDetails>,
    /// The inbound transaction queue, oldest first.
    pub queue: Seq<TransactionModel>,
    pub listeners: Seq<ListenerModel>,
    /// Every event ever yielded by a poll cycle, in order of emission.
    pub emitted: Seq<AbstractBlockchainEvent>,
}

/// A listener agrees with the emission history: it registered at a point of
/// the history, and while open it has received exactly the events emitted
/// from that point on, in order.
pub open spec fn listener_wf(l: ListenerModel, emitted: Seq<AbstractBlockchainEvent>) -> bool {
    &&& 0 <= l.registered_at <= emitted.len()
    &&& l.is_open ==> l.received == emitted.skip(l.registered_at)
}

/// Well-formedness of a ledger state.
pub open spec fn model_wf(m: ChainModel) -> bool {
    &&& initiator_wf(m.pending, m.next_transfer_id, m.issued)
    &&& forall|j: int| 0 <= j < m.listeners.len() ==> listener_wf(#[trigger] m.listeners[j], m.emitted)
}

/// The effect of dispatching one transaction to the matching contract.
/// Initiation registers a fresh pending transfer and logs its details (or
/// logs `Noop` at the machine limit of the id counter); completion applies
/// the initiator contract's validation and credit, returning nothing to the
/// queue-side caller and logging nothing; a lock registers a record and logs
/// it.
pub open spec fn spec_dispatch(m: ChainModel, transaction: TransactionModel) -> ChainModel {
    match transaction {
        TransactionModel::Initiate(
            initiator_address,
            recipient_address,
            amount,
            time_lock,
            hash_lock,
        ) => {
            if m.next_transfer_id < u64::MAX {
                let details = BridgeTransferDetails {
                    bridge_transfer_id: m.next_transfer_id,
                    initiator_address,
                    recipient_address,
                    hash_lock,
                    time_lock,
                    amount,
                };
                ChainModel {
                    pending: m.pending.insert(details.bridge_transfer_id, details),
                    next_transfer_id: (m.next_transfer_id + 1) as u64,
                    issued: m.issued.push(details.bridge_transfer_id),
                    log: m.log.push(AbstractBlockchainEvent::BridgeTransferInitiated(details)),
                    ..m
                }
            } else {
                ChainModel { log: m.log.push(AbstractBlockchainEvent::Noop), ..m }
            }
        },
        TransactionModel::Complete(bridge_transfer_id, secret) => {
            if spec_complete_outcome(m.pending, m.accounts, m.time, bridge_transfer_id, secret)
                is Ok {
                let details = m.pending[bridge_transfer_id];
                ChainModel {
                    accounts: m.accounts.insert(
                        details.recipient_address,
                        (spec_balance(m.accounts, details.recipient_address)
                            + details.amount) as u64,
                    ),
                    pending: m.pending.remove(bridge_transfer_id),
                    ..m
                }
            } else {
                m
            }
        },
        TransactionModel::Lock(
            bridge_transfer_id,
            hash_lock,
            time_lock,
            recipient_address,
            amount,
        ) => {
            let details = LockDetails {
                bridge_transfer_id,
                hash_lock,
                time_lock,
                recipient_address,
                amount,
            };
            ChainModel {
                locked: m.locked.insert(bridge_transfer_id, details),
                log: m.log.push(AbstractBlockchainEvent::BridgeTransferAssetsLocked(details)),
                ..m
            }
        },
    }
}

/// The ledger state after the dispatch half of one poll cycle: the oldest
/// queued transaction, if any, leaves the queue and is dispatched.
pub open spec fn spec_after_dispatch(m: ChainModel) -> ChainModel {
    if m.queue.len() > 0 {
        let md = spec_dispatch(m, m.queue.first());
        ChainModel { queue: m.queue.drop_first(), ..md }
    } else {
        m
    }
}

/// One listener's state after an event is offered to it: an open listener
/// appends it to its buffer, a closed one is skipped.
pub open spec fn spec_deliver_one(
    l: ListenerModel,
    event: AbstractBlockchainEvent,
) -> ListenerModel {
    if l.is_open {
        ListenerModel { received: l.received.push(event), ..l }
    } else {
        l
    }
}

/// Every listener's state after an event is offered to all of them.
pub open spec fn spec_deliver(
    listeners: Seq<ListenerModel>,
    event: AbstractBlockchainEvent,
) -> Seq<ListenerModel> {
    listeners.map_values(|l: ListenerModel| spec_deliver_one(l, event))
}

/// The emission half of one poll cycle: if the log is non-empty, its most
/// recently appended event is removed, recorded as emitted, delivered to
/// every open listener and yielded; otherwise nothing happens.
pub open spec fn spec_emit(m: ChainModel) -> (ChainModel, Option<AbstractBlockchainEvent>) {
    if m.log.len() > 0 {
        let event = m.log.last();
        (
            ChainModel {
                log: m.log.drop_last(),
                emitted: m.emitted.push(event),
                listeners: spec_deliver(m.listeners, event),
                ..m
            },
            Some(event),
        )
    } else {
        (m, None)
    }
}

/// One full poll cycle: dispatch at most one queued transaction, then emit at
/// most one logged event.
pub open spec fn spec_poll(m: ChainModel) -> (ChainModel, Option<AbstractBlockchainEvent>) {
    spec_emit(spec_after_dispatch(m))
}

/// Pushing onto a sequence and then dropping a prefix is the same as dropping
/// the prefix and then pushing.
pub proof fn lemma_skip_push<T>(s: Seq<T>, v: T, n: int)
    requires
        0 <= n <= s.len(),
    ensures
        s.push(v).skip(n) == s.skip(n).push(v),
{
    assert(s.push(v).skip(n) =~= s.skip(n).push(v));
}

/// A poll cycle preserves well-formedness of the ledger state.
pub proof fn lemma_spec_poll_preserves_wf(m: ChainModel)
    requires
        model_wf(m),
    ensures
        model_wf(spec_poll(m).0),
{
    let md = spec_after_dispatch(m);
    assert(initiator_wf(md.pending, md.next_transfer_id, md.issued)) by {
        if m.queue.len() > 0 {
            match m.queue.first() {
                TransactionModel::Initiate(ia, ra, amount, tl, hl) => {},
                TransactionModel::Complete(id, secret) => {},
                TransactionModel::Lock(id, hl, tl, ra, amount) => {},
            }
        }
    }
    assert(md.listeners == m.listeners && md.emitted == m.emitted);
    let (me, yielded) = spec_emit(md);
    if md.log.len() > 0 {
        let event = md.log.last();
        assert forall|j: int| 0 <= j < me.listeners.len() implies listener_wf(
            #[trigger] me.listeners[j],
            me.emitted,
        ) by {
            let l = md.listeners[j];
            assert(me.listeners[j] == spec_deliver_one(l, event));
            if l.is_open {
                lemma_skip_push(md.emitted, event, l.registered_at);
            }
        }
    }
}

/// The simulated ledger.
pub struct AbstractBlockchain {
    pub name: String,
    pub time: u64,
    pub accounts: HashMap<Address, Amount>,
    pub events: Vec<AbstractBlockchainEvent>,
    pub rng: SeedRng,
    pub initiator_contract: SmartContractInitiator,
    pub counterparty_contract: SmartContractCounterparty,
    pub transaction_queue: Vec<Transaction>,
    pub event_listeners: Vec<EventListener>,
    pub emitted: Ghost<Seq<AbstractBlockchainEvent>>,
}

impl View for AbstractBlockchain {
    type V = ChainModel;

    open spec fn view(&self) -> ChainModel {
        ChainModel {
            name: self.name@,
            time: self.time,
            accounts: self.accounts@,
            log: self.events@,
            rng_state: self.rng.state,
            pending: self.initiator_contract.pending_transfers@,
            next_transfer_id: self.initiator_contract.next_transfer_id,
            issued: self.initiator_contract.issued_ids@,
            locked: self.counterparty_contract.locked_transfers@,
            queue: self.transaction_queue@.map_values(|t: Transaction| t@),
            listeners: self.event_listeners@.map_values(|l: EventListener| l@),
            emitted: self.emitted@,
        }
    }
}

impl AbstractBlockchain {
    pub open spec fn wf(self) -> bool {
        model_wf(self@)
    }

    /// A fresh ledger: time zero, no accounts, no pending transfers, no
    /// queued transactions, no listeners, and an empty history.
    pub fn new(rng: SeedRng, name: String) -> (r: Self)
        ensures
            r.wf(),
            r@ == (ChainModel {
                name: name@,
                time: 0,
                accounts: Map::<Address, Amount>::empty(),
                log: Seq::<AbstractBlockchainEvent>::empty(),
                rng_state: rng.state,
                pending: Map::<BridgeTransferId, BridgeTransferDetails>::empty(),
                next_transfer_id: 0,
                issued: Seq::<BridgeTransferId>::empty(),
                locked: Map::<BridgeTransferId, LockDetails>::empty(),
                queue: Seq::<TransactionModel>::empty(),
                listeners: Seq::<ListenerModel>::empty(),
                emitted: Seq::<AbstractBlockchainEvent>::empty(),
            }),
    {
        let chain = AbstractBlockchain {
            name,
            time: 0,
            accounts: HashMap::new(),
            events: Vec::new(),
            rng,
            initiator_contract: SmartContractInitiator::new(),
            counterparty_contract: SmartContractCounterparty::new(),
            transaction_queue: Vec::new(),
            event_listeners: Vec::new(),
            emitted: Ghost(Seq::empty()),
        };
        proof {
            assert(chain@.listeners =~= Seq::<ListenerModel>::empty());
            assert(chain@.queue =~= Seq::<TransactionModel>::empty());
            assert(chain@ =~~= (ChainModel {
                name: chain.name@,
                time: 0,
                accounts: Map::<Address, Amount>::empty(),
                log: Seq::<AbstractBlockchainEvent>::empty(),
                rng_state: chain.rng.state,
                pending: Map::<BridgeTransferId, BridgeTransferDetails>::empty(),
                next_transfer_id: 0,
                issued: Seq::<BridgeTransferId>::empty(),
                locked: Map::<BridgeTransferId, LockDetails>::empty(),
                queue: Seq::<TransactionModel>::empty(),
                listeners: Seq::<ListenerModel>::empty(),
                emitted: Seq::<AbstractBlockchainEvent>::empty(),
            }));
        }
        chain
    }

    /// Appends a transaction to the inbound queue. This stands for a producer
    /// handle sending into the ledger's queue; it changes nothing else.
    pub fn submit_transaction(&mut self, transaction: Transaction)
        ensures
            final(self)@ == (ChainModel {
                queue: old(self)@.queue.push(transaction@),
                ..old(self)@
            }),
            old(self).wf() ==> final(self).wf(),
    {
        self.transaction_queue.push(transaction);
        proof {
            assert(self@.queue =~= old(self)@.queue.push(self.transaction_queue@.last()@));
            assert(self@ =~~= (ChainModel {
                queue: old(self)@.queue.push(self.transaction_queue@.last()@),
                ..old(self)@
            }));
        }
    }

    /// Advances the logical clock by exactly `duration`. No other operation
    /// changes the clock, and the clock never decreases.
    pub fn forward_time(&mut self, duration: u64)
        requires
            old(self).time + duration <= u64::MAX,
        ensures
            final(self)@ == (ChainModel {
                time: (old(self)@.time + duration) as u64,
                ..old(self)@
            }),
            final(self).time == old(self).time + duration,
            old(self).wf() ==> final(self).wf(),
    {
        self.time = self.time + duration;
        proof {
            assert(self@ =~~= (ChainModel { time: self.time, ..old(self)@ }));
        }
    }

    /// Funds (or refunds) an account, setting its balance to `amount`.
    pub fn add_account(&mut self, address: Address, amount: Amount)
        ensures
            final(self)@ == (ChainModel {
                accounts: old(self)@.accounts.insert(address, amount),
                ..old(self)@
            }),
            old(self).wf() ==> final(self).wf(),
    {
        self.accounts.insert(address, amount);
        proof {
            assert(self@ =~~= (ChainModel {
                accounts: old(self)@.accounts.insert(address, amount),
                ..old(self)@
            }));
        }
    }

    /// The balance of `address`, or nothing for an address never funded or
    /// credited.
    pub fn get_balance(&self, address: Address) -> (r: Option<Amount>)
        ensures
            r == (if self@.accounts.contains_key(address) {
                Some(self@.accounts[address])
            } else {
                None::<Amount>
            }),
    {
        match self.accounts.get(&address) {
            Some(balance) => Some(*balance),
            None => None,
        }
    }

    /// Registers a new event listener and returns its handle. The listener
    /// will receive every event emitted from this point on, and none emitted
    /// earlier.
    pub fn add_event_listener(&mut self) -> (listener: usize)
        ensures
            listener == old(self)@.listeners.len(),
            final(self)@ == (ChainModel {
                listeners: old(self)@.listeners.push(
                    ListenerModel {
                        is_open: true,
                        received: Seq::empty(),
                        registered_at: old(self)@.emitted.len() as int,
                    },
                ),
                ..old(self)@
            }),
            old(self).wf() ==> final(self).wf(),
    {
        let handle = self.event_listeners.len();
        let listener = EventListener {
            is_open: true,
            received: Vec::new(),
            registered_at: Ghost(self.emitted@.len() as int),
        };
        self.event_listeners.push(listener);
        proof {
            assert(self@.listeners =~= old(self)@.listeners.push(
                ListenerModel {
                    is_open: true,
                    received: Seq::empty(),
                    registered_at: old(self)@.emitted.len() as int,
                },
            ));
            assert(self@ =~~= (ChainModel { listeners: self@.listeners, ..old(self)@ }));
            assert(old(self)@.emitted.skip(old(self)@.emitted.len() as int)
                =~= Seq::<AbstractBlockchainEvent>::empty());
        }
        handle
    }

    /// Closes a listener, standing for the listener's receiving end having
    /// been dropped. A closed listener is skipped at delivery time; closing
    /// an unknown listener reports `ListenerUnavailable`.
    pub fn close_listener(&mut self, listener: usize) -> (r: Result<(), crate::types::BridgeError>)
        ensures
            r is Ok <==> listener < old(self)@.listeners.len(),
            r is Ok ==> final(self)@ == (ChainModel {
                listeners: old(self)@.listeners.update(
                    listener as int,
                    (ListenerModel { is_open: false, ..old(self)@.listeners[listener as int] }),
                ),
                ..old(self)@
            }),
            r is Err ==> final(self)@ == old(self)@ && r == Err::<(), crate::types::BridgeError>(
                crate::types::BridgeError::ListenerUnavailable,
            ),
            old(self).wf() ==> final(self).wf(),
    {
        if listener >= self.event_listeners.len() {
            return Err(crate::types::BridgeError::ListenerUnavailable);
        }
        let entry = &mut self.event_listeners[listener];
        entry.is_open = false;
        proof {
            assert(self@.listeners =~= old(self)@.listeners.update(
                listener as int,
                (ListenerModel { is_open: false, ..old(self)@.listeners[listener as int] }),
            ));
            assert(self@ =~~= (ChainModel { listeners: self@.listeners, ..old(self)@ }));
        }
        Ok(())
    }

    /// The events delivered so far to an open listener, in delivery order;
    /// `ListenerUnavailable` for an unknown or closed listener.
    pub fn listener_received(&self, listener: usize) -> (r: Result<
        Vec<AbstractBlockchainEvent>,
        crate::types::BridgeError,
    >)
        ensures
            r is Ok <==> listener < self@.listeners.len() && self@.listeners[listener as int].is_open,
            r is Ok ==> r->Ok_0@ == self@.listeners[listener as int].received,
            r is Err ==> r == Err::<Vec<AbstractBlockchainEvent>, crate::types::BridgeError>(
                crate::types::BridgeError::ListenerUnavailable,
            ),
    {
        if listener >= self.event_listeners.len() {
            return Err(crate::types::BridgeError::ListenerUnavailable);
        }
        let entry = &self.event_listeners[listener];
        if !entry.is_open {
            return Err(crate::types::BridgeError::ListenerUnavailable);
        }
        let mut out: Vec<AbstractBlockchainEvent> = Vec::new();
        let mut i: usize = 0;
        while i < entry.received.len()
            invariant
                0 <= i <= entry.received.len(),
                out@ == entry.received@.take(i as int),
            decreases entry.received.len() - i,
        {
            out.push(entry.received[i]);
            proof {
                assert(out@ =~= entry.received@.take(i + 1 as int));
            }
            i += 1;
        }
        proof {
            assert(entry.received@.take(entry.received@.len() as int) =~= entry.received@);
        }
        Ok(out)
    }

    /// Builds a fault-injecting client for this ledger. The client draws
    /// from a child generator split off the ledger's own, so every client
    /// gets an independent, reproducible randomness stream. Rates are in
    /// parts per million.
    pub fn client(&mut self, failure_rate_ppm: u32, false_positive_rate_ppm: u32) -> (r:
        crate::client::AbstractBlockchainClient)
        requires
            failure_rate_ppm <= crate::client::PPM_SCALE,
            false_positive_rate_ppm <= crate::client::PPM_SCALE,
        ensures
            r == (crate::client::AbstractBlockchainClient {
                rng: SeedRng { state: old(self).rng.spec_output() },
                failure_rate_ppm,
                false_positive_rate_ppm,
            }),
            final(self)@ == (ChainModel {
                rng_state: old(self).rng.spec_next_state(),
                ..old(self)@
            }),
            old(self).wf() ==> final(self).wf(),
    {
        let child = self.rng.seeded_clone();
        proof {
            assert(self@ =~~= (ChainModel { rng_state: self.rng.state, ..old(self)@ }));
        }
        crate::client::AbstractBlockchainClient::new(child, failure_rate_ppm, false_positive_rate_ppm)
    }

    /// One poll cycle; see [`spec_poll`]. Yields the emitted event, or
    /// nothing when no work is available (upon which a driver would register
    /// a wake signal and try again later).
    pub fn poll_next(&mut self) -> (r: Option<AbstractBlockchainEvent>)
        requires
            old(self).wf(),
        ensures
            final(self).wf(),
            final(self)@ == spec_poll(old(self)@).0,
            r == spec_poll(old(self)@).1,
    {
        let ghost pre = *old(self);
        if self.transaction_queue.len() > 0 {
            let transaction = self.transaction_queue.remove(0);
            proof {
                assert(transaction@ == pre@.queue.first());
                assert(self@.queue =~= pre@.queue.drop_first());
            }
            match transaction {
                Transaction::Initiator(call) => match call {
                    InitiatorCall::InitiateBridgeTransfer(
                        initiator_address,
                        recipient_address,
                        amount,
                        time_lock,
                        hash_lock,
                    ) => {
                        if self.initiator_contract.next_transfer_id < u64::MAX {
                            let details = self.initiator_contract.initiate_bridge_transfer(
                                initiator_address,
                                recipient_address,
                                amount,
                                time_lock,
                                hash_lock,
                            );
                            self.events.push(
                                AbstractBlockchainEvent::BridgeTransferInitiated(details),
                            );
                        } else {
                            self.events.push(AbstractBlockchainEvent::Noop);
                        }
                    },
                    InitiatorCall::CompleteBridgeTransfer(bridge_transfer_id, secret) => {
                        // The queued path has no caller to hand the contract's
                        // verdict back to; the state effect is fully captured
                        // by the dispatch specification.
                        let _ = self.initiator_contract.complete_bridge_transfer(
                            &mut self.accounts,
                            self.time,
                            bridge_transfer_id,
                            secret.as_slice(),
                        );
                    },
                },
                Transaction::Counterparty(call) => match call {
                    CounterpartyCall::LockBridgeTransfer(
                        bridge_transfer_id,
                        hash_lock,
                        time_lock,
                        recipient_address,
                        amount,
                    ) => {
                        let details = self.counterparty_contract.lock_bridge_transfer(
                            bridge_transfer_id,
                            hash_lock,
                            time_lock,
                            recipient_address,
                            amount,
                        );
                        self.events.push(
                            AbstractBlockchainEvent::BridgeTransferAssetsLocked(details),
                        );
                    },
                },
            }
        }
        proof {
            assert(self@ =~~= spec_after_dispatch(pre@));
            lemma_spec_poll_preserves_wf(pre@);
        }
        let ghost mid = spec_after_dispatch(pre@);
        let popped = self.events.pop();
        match popped {
            Some(event) => {
                proof {
                    assert(event == mid.log.last());
                    assert(self.events@ =~= mid.log.drop_last());
                }
                self.emitted = Ghost(self.emitted@.push(event));
                let ghost before_deliver = *self;
                let mut i: usize = 0;
                while i < self.event_listeners.len()
                    invariant
                        0 <= i <= self.event_listeners.len(),
                        self.event_listeners@.len() == before_deliver.event_listeners@.len(),
                        forall|j: int|
                            0 <= j < i ==> (#[trigger] self.event_listeners@[j])@
                                == spec_deliver_one(before_deliver.event_listeners@[j]@, event),
                        forall|j: int|
                            i <= j < self.event_listeners@.len()
                                ==> #[trigger] self.event_listeners@[j]
                                == before_deliver.event_listeners@[j],
                        self.name == before_deliver.name,
                        self.time == before_deliver.time,
                        self.accounts == before_deliver.accounts,
                        self.events == before_deliver.events,
                        self.rng == before_deliver.rng,
                        self.initiator_contract == before_deliver.initiator_contract,
                        self.counterparty_contract == before_deliver.counterparty_contract,
                        self.transaction_queue == before_deliver.transaction_queue,
                        self.emitted == before_deliver.emitted,
                    decreases self.event_listeners@.len() - i,
                {
                    let entry = &mut self.event_listeners[i];
                    if entry.is_open {
                        entry.received.push(event);
                    }
                    i += 1;
                }
                proof {
                    assert(self@.listeners =~= spec_deliver(mid.listeners, event));
                    assert(self@ =~~= spec_emit(mid).0);
                }
                Some(event)
            },
            None => {
                proof {
                    assert(self@ =~~= mid);
                }
                None
            },
        }
    }
}

/// Transfer-id uniqueness at the ledger level: every id issued by initiation
/// within one run of a well-formed ledger is distinct.
pub proof fn lemma_chain_transfer_ids_distinct(chain: AbstractBlockchain)
    requires
        chain.wf(),
    ensures
        forall|i: int, j: int|
            0 <= i < j < chain@.issued.len() ==> chain@.issued[i] != chain@.issued[j],
{
}

/// Event delivery ordering: an open listener of a well-formed ledger has
/// received exactly the events emitted since it registered, in emission
/// order; events emitted before its registration were never delivered to it.
pub proof fn lemma_event_delivery_order(chain: AbstractBlockchain, listener: int)
    requires
        chain.wf(),
        0 <= listener < chain@.listeners.len(),
        chain@.listeners[listener].is_open,
    ensures
        chain@.listeners[listener].received == chain@.emitted.skip(
            chain@.listeners[listener].registered_at,
        ),
{
}

} // verus!
