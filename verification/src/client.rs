//! The fault-injecting client: a relayer handle bound to the ledger's inbound
//! queue and to its own seeded child generator.
//!
//! For each submitted transaction the client makes two independent draws from
//! its own stream: first the failure draw, then the false-positive draw. If
//! the failure draw hits, the transaction is dropped (the drop takes
//! precedence, but the second draw is still consumed, so the stream position
//! is the same whatever the outcome); otherwise, if the false-positive draw
//! hits, the transaction is delivered twice (a duplicated delivery stands for
//! the byzantine-relayer case); otherwise it is forwarded unchanged. Rates
//! are given in parts per million of certainty, so the decisions are pure
//! integer functions of the generator state and perfectly reproducible.

use vstd::prelude::*;
use crate::blockchain::{AbstractBlockchain, ChainModel, Transaction, TransactionModel};
use crate::counterparty::CounterpartyCall;
use crate::initiator::InitiatorCall;
use crate::rng::SeedRng;

verus! {

/// Rates are expressed as parts per million: a rate of `PPM_SCALE` means
/// certainty.
pub const PPM_SCALE: u32 = 1000000;

/// What the client decided to do with one submitted transaction.
#[derive(Clone, Copy, Debug, PartialEq, Eq, Structural)]
pub enum FaultDecision {
    /// The transaction was silently dropped (an unreliable relayer).
    Drop,
    /// The transaction was delivered twice (a byzantine relayer).
    Duplicate,
    /// The transaction was forwarded unchanged.
    Forward,
}

/// The fault-injecting client.
#[derive(Clone, Copy, Debug, PartialEq, Eq, Structural)]
pub struct AbstractBlockchainClient {
    pub rng: SeedRng,
    pub failure_rate_ppm: u32,
    pub false_positive_rate_ppm: u32,
}

impl AbstractBlockchainClient {
    /// The decision for the next submitted transaction and the client state
    /// after it: a pure function of the current state.
    pub open spec fn spec_decide(self) -> (FaultDecision, AbstractBlockchainClient) {
        let failure_draw = self.rng.spec_output();
        let rng1 = SeedRng { state: self.rng.spec_next_state() };
        let false_positive_draw = rng1.spec_output();
        let rng2 = SeedRng { state: rng1.spec_next_state() };
        let decision = if failure_draw % (PPM_SCALE as u64) < self.failure_rate_ppm as u64 {
            FaultDecision::Drop
        } else if false_positive_draw % (PPM_SCALE as u64) < self.false_positive_rate_ppm as u64 {
            FaultDecision::Duplicate
        } else {
            FaultDecision::Forward
        };
        (decision, AbstractBlockchainClient { rng: rng2, ..self })
    }

    /// The decisions the client would make for the next `n` submitted
    /// transactions, in order.
    pub open spec fn spec_decision_trace(self, n: nat) -> Seq<FaultDecision>
        decreases n,
    {
        if n == 0 {
            Seq::empty()
        } else {
            let (decision, next) = self.spec_decide();
            seq![decision] + next.spec_decision_trace((n - 1) as nat)
        }
    }

    pub fn new(rng: SeedRng, failure_rate_ppm: u32, false_positive_rate_ppm: u32) -> (r: Self)
        requires
            failure_rate_ppm <= PPM_SCALE,
            false_positive_rate_ppm <= PPM_SCALE,
        ensures
            r == (AbstractBlockchainClient { rng, failure_rate_ppm, false_positive_rate_ppm }),
    {
        AbstractBlockchainClient { rng, failure_rate_ppm, false_positive_rate_ppm }
    }

    /// Draws the fault decision for one submitted transaction and advances
    /// the client's generator by exactly two draws.
    pub fn decide(&mut self) -> (decision: FaultDecision)
        ensures
            (decision, *final(self)) == old(self).spec_decide(),
    {
        let failure_draw = self.rng.next_u64();
        let false_positive_draw = self.rng.next_u64();
        if failure_draw % (PPM_SCALE as u64) < self.failure_rate_ppm as u64 {
            FaultDecision::Drop
        } else if false_positive_draw % (PPM_SCALE as u64)
            < self.false_positive_rate_ppm as u64 {
            FaultDecision::Duplicate
        } else {
            FaultDecision::Forward
        }
    }

    /// Submits `transaction` through the fault-injecting relay: depending on
    /// the decision drawn, the ledger's queue receives the transaction zero,
    /// one or two times. Nothing else of the ledger changes, and the caller
    /// is told nothing of the fate of its transaction — a dropped submission
    /// looks exactly like a forwarded one.
    pub fn publish_transaction(&mut self, chain: &mut AbstractBlockchain, transaction: Transaction)
        ensures
            *final(self) == old(self).spec_decide().1,
            final(chain)@ == (ChainModel {
                queue: spec_apply_decision(
                    old(chain)@.queue,
                    old(self).spec_decide().0,
                    transaction@,
                ),
                ..old(chain)@
            }),
            old(chain).wf() ==> final(chain).wf(),
    {
        let decision = self.decide();
        match decision {
            FaultDecision::Drop => {},
            FaultDecision::Duplicate => {
                let copy = duplicate_transaction(&transaction);
                chain.submit_transaction(transaction);
                chain.submit_transaction(copy);
            },
            FaultDecision::Forward => {
                chain.submit_transaction(transaction);
            },
        }
    }
}

/// The ledger queue after one fault decision is applied to a submission.
pub open spec fn spec_apply_decision(
    queue: Seq<TransactionModel>,
    decision: FaultDecision,
    transaction: TransactionModel,
) -> Seq<TransactionModel> {
    match decision {
        FaultDecision::Drop => queue,
        FaultDecision::Duplicate => queue.push(transaction).push(transaction),
        FaultDecision::Forward => queue.push(transaction),
    }
}

/// An exact copy of a byte vector.
fn clone_bytes(bytes: &Vec<u8>) -> (r: Vec<u8>)
    ensures
        r@ == bytes@,
{
    let r = bytes.clone();
    proof {
        assert(r@ =~= bytes@);
    }
    r
}

/// A copy of a transaction with the same mathematical content.
pub fn duplicate_transaction(transaction: &Transaction) -> (r: Transaction)
    ensures
        r@ == transaction@,
{
    match transaction {
        Transaction::Initiator(call) => Transaction::Initiator(
            match call {
                InitiatorCall::InitiateBridgeTransfer(
                    initiator_address,
                    recipient_address,
                    amount,
                    time_lock,
                    hash_lock,
                ) => InitiatorCall::InitiateBridgeTransfer(
                    *initiator_address,
                    *recipient_address,
                    *amount,
                    *time_lock,
                    *hash_lock,
                ),
                InitiatorCall::CompleteBridgeTransfer(bridge_transfer_id, secret) => InitiatorCall::CompleteBridgeTransfer(
                    *bridge_transfer_id,
                    clone_bytes(secret),
                ),
            },
        ),
        Transaction::Counterparty(call) => Transaction::Counterparty(
            match call {
                CounterpartyCall::LockBridgeTransfer(
                    bridge_transfer_id,
                    hash_lock,
                    time_lock,
                    recipient_address,
                    amount,
                ) => CounterpartyCall::LockBridgeTransfer(
                    *bridge_transfer_id,
                    *hash_lock,
                    *time_lock,
                    *recipient_address,
                    *amount,
                ),
            },
        ),
    }
}

/// Fault-injection reproducibility: two clients built from equal generator
/// states with equal rates make identical decisions for any number of
/// submitted transactions.
pub proof fn lemma_fault_decisions_reproducible(
    a: AbstractBlockchainClient,
    b: AbstractBlockchainClient,
    n: nat,
)
    requires
        a.rng == b.rng,
        a.failure_rate_ppm == b.failure_rate_ppm,
        a.false_positive_rate_ppm == b.false_positive_rate_ppm,
    ensures
        a.spec_decision_trace(n) == b.spec_decision_trace(n),
{
    assert(a == b);
}

} // verus!
