//! The counterparty-side contract state machine.
//!
//! It holds the lock records of the destination chain. A lock is registered
//! under the caller-supplied transfer id, which originates from the matching
//! initiator-side event and mirrors the commitment across the two chains.
//! The protocol modeled here defines no claim or refund transition for a
//! lock, so none is offered.

use vstd::prelude::*;
use std::collections::HashMap;
use crate::types::{Address, Amount, BridgeTransferId, HashLock, LockDetails, TimeLock};

verus! {

broadcast use vstd::std_specs::hash::group_hash_axioms;

/// A call submitted to the counterparty contract.
#[derive(Clone, Debug, PartialEq, Eq)]
pub enum CounterpartyCall {
    /// `(bridge_transfer_id, hash_lock, time_lock, recipient, amount)`
    LockBridgeTransfer(BridgeTransferId, HashLock, TimeLock, Address, Amount),
}

/// The counterparty contract: the lock records, keyed by transfer id.
pub struct SmartContractCounterparty {
    pub locked_transfers: HashMap<BridgeTransferId, LockDetails>,
}

impl SmartContractCounterparty {
    pub fn new() -> (r: Self)
        ensures
            r.locked_transfers@ == Map::<BridgeTransferId, LockDetails>::empty(),
    {
        SmartContractCounterparty { locked_transfers: HashMap::new() }
    }

    /// Registers a lock record under `bridge_transfer_id`, overwriting any
    /// earlier record with the same id, and returns the stored details. It
    /// always succeeds.
    pub fn lock_bridge_transfer(
        &mut self,
        bridge_transfer_id: BridgeTransferId,
        hash_lock: HashLock,
        time_lock: TimeLock,
        recipient_address: Address,
        amount: Amount,
    ) -> (details: LockDetails)
        ensures
            details == (LockDetails {
                bridge_transfer_id,
                hash_lock,
                time_lock,
                recipient_address,
                amount,
            }),
            final(self).locked_transfers@ == old(self).locked_transfers@.insert(
                bridge_transfer_id,
                details,
            ),
    {
        let details = LockDetails {
            bridge_transfer_id,
            hash_lock,
            time_lock,
            recipient_address,
            amount,
        };
        self.locked_transfers.insert(bridge_transfer_id, details);
        details
    }
}

} // verus!
