//! The initiator-side contract state machine.
//!
//! It holds the pending bridge transfers of the source chain. Initiation
//! registers a new pending transfer under a fresh id drawn from a monotone
//! counter; completion validates the revealed secret and the time lock, and
//! on success credits the recipient and removes the transfer from the pending
//! set, so a second completion of the same id deterministically fails with
//! `UnknownTransfer`.

use vstd::prelude::*;
use std::collections::HashMap;
use crate::digest::{bytes32_equal, sha256, sha256_of};
use crate::types::{Address, Amount, BridgeError, BridgeTransferDetails, BridgeTransferId, HashLock, TimeLock};

verus! {

broadcast use vstd::std_specs::hash::group_hash_axioms;

/// A call submitted to the initiator contract.
#[derive(Clone, Debug, PartialEq, Eq)]
pub enum InitiatorCall {
    /// `(initiator, recipient, amount, time_lock, hash_lock)`
    InitiateBridgeTransfer(Address, Address, Amount, TimeLock, HashLock),
    /// `(bridge_transfer_id, secret)`
    CompleteBridgeTransfer(BridgeTransferId, Vec<u8>),
}

/// The balance of `address`, taking an account that was never funded as zero.
pub open spec fn spec_balance(accounts: Map<Address, Amount>, address: Address) -> Amount {
    if accounts.contains_key(address) {
        accounts[address]
    } else {
        0
    }
}

/// The outcome of completing transfer `id` with `secret` at `current_time`
/// against the given pending set and balances, checked in this order:
/// unknown id, secret mismatch, expiry, then the machine limit on the credit.
pub open spec fn spec_complete_outcome(
    pending: Map<BridgeTransferId, BridgeTransferDetails>,
    accounts: Map<Address, Amount>,
    current_time: u64,
    id: BridgeTransferId,
    secret: Seq<u8>,
) -> Result<(), BridgeError> {
    if !pending.contains_key(id) {
        Err(BridgeError::UnknownTransfer)
    } else if sha256_of(secret) != pending[id].hash_lock@ {
        Err(BridgeError::InvalidSecret)
    } else if current_time > pending[id].time_lock {
        Err(BridgeError::Expired)
    } else if spec_balance(accounts, pending[id].recipient_address) + pending[id].amount > u64::MAX {
        Err(BridgeError::BalanceOverflow)
    } else {
        Ok(())
    }
}

/// Well-formedness of an initiator contract's state: issued ids are strictly
/// increasing (hence pairwise distinct) and below the counter, and every
/// pending record sits under its own, already-issued id.
pub open spec fn initiator_wf(
    pending: Map<BridgeTransferId, BridgeTransferDetails>,
    next_transfer_id: u64,
    issued: Seq<BridgeTransferId>,
) -> bool {
    &&& forall|i: int| 0 <= i < issued.len() ==> #[trigger] issued[i] < next_transfer_id
    &&& forall|i: int, j: int| 0 <= i < j < issued.len() ==> issued[i] < issued[j]
    &&& forall|id: BridgeTransferId| #[trigger]
        pending.contains_key(id) ==> pending[id].bridge_transfer_id == id && id < next_transfer_id
}

/// The initiator contract: the pending transfers, the id counter, and (as
/// ghost history) every id ever issued, in order of issue.
pub struct SmartContractInitiator {
    pub pending_transfers: HashMap<BridgeTransferId, BridgeTransferDetails>,
    pub next_transfer_id: u64,
    pub issued_ids: Ghost<Seq<BridgeTransferId>>,
}

impl SmartContractInitiator {
    pub open spec fn wf(self) -> bool {
        initiator_wf(self.pending_transfers@, self.next_transfer_id, self.issued_ids@)
    }

    pub fn new() -> (r: Self)
        ensures
            r.wf(),
            r.pending_transfers@ == Map::<BridgeTransferId, BridgeTransferDetails>::empty(),
            r.next_transfer_id == 0,
            r.issued_ids@ == Seq::<BridgeTransferId>::empty(),
    {
        SmartContractInitiator {
            pending_transfers: HashMap::new(),
            next_transfer_id: 0,
            issued_ids: Ghost(Seq::empty()),
        }
    }

    /// Registers a new pending transfer under a fresh id and returns its full
    /// details. The id was never issued before and was not pending.
    pub fn initiate_bridge_transfer(
        &mut self,
        initiator_address: Address,
        recipient_address: Address,
        amount: Amount,
        time_lock: TimeLock,
        hash_lock: HashLock,
    ) -> (details: BridgeTransferDetails)
        requires
            old(self).wf(),
            old(self).next_transfer_id < u64::MAX,
        ensures
            final(self).wf(),
            details == (BridgeTransferDetails {
                bridge_transfer_id: old(self).next_transfer_id,
                initiator_address,
                recipient_address,
                hash_lock,
                time_lock,
                amount,
            }),
            !old(self).issued_ids@.contains(details.bridge_transfer_id),
            !old(self).pending_transfers@.contains_key(details.bridge_transfer_id),
            final(self).pending_transfers@ == old(self).pending_transfers@.insert(
                details.bridge_transfer_id,
                details,
            ),
            final(self).next_transfer_id == old(self).next_transfer_id + 1,
            final(self).issued_ids@ == old(self).issued_ids@.push(details.bridge_transfer_id),
    {
        let id = self.next_transfer_id;
        let details = BridgeTransferDetails {
            bridge_transfer_id: id,
            initiator_address,
            recipient_address,
            hash_lock,
            time_lock,
            amount,
        };
        self.pending_transfers.insert(id, details);
        self.next_transfer_id = id + 1;
        proof {
            self.issued_ids@ = self.issued_ids@.push(id);
        }
        details
    }

    /// Completes pending transfer `id` by revealing `secret`. On success the
    /// recipient is credited by exactly the transfer's amount and the
    /// transfer leaves the pending set; on any failure nothing is mutated.
    pub fn complete_bridge_transfer(
        &mut self,
        accounts: &mut HashMap<Address, Amount>,
        current_time: u64,
        bridge_transfer_id: BridgeTransferId,
        secret: &[u8],
    ) -> (r: Result<(), BridgeError>)
        requires
            old(self).wf(),
        ensures
            final(self).wf(),
            final(self).next_transfer_id == old(self).next_transfer_id,
            final(self).issued_ids@ == old(self).issued_ids@,
            r == spec_complete_outcome(
                old(self).pending_transfers@,
                old(accounts)@,
                current_time,
                bridge_transfer_id,
                secret@,
            ),
            r is Ok ==> {
                let details = old(self).pending_transfers@[bridge_transfer_id];
                &&& final(accounts)@ == old(accounts)@.insert(
                    details.recipient_address,
                    (spec_balance(old(accounts)@, details.recipient_address) + details.amount) as u64,
                )
                &&& final(self).pending_transfers@ == old(self).pending_transfers@.remove(
                    bridge_transfer_id,
                )
            },
            r is Err ==> {
                &&& final(accounts)@ == old(accounts)@
                &&& final(self).pending_transfers@ == old(self).pending_transfers@
            },
    {
        let details = match self.pending_transfers.get(&bridge_transfer_id) {
            Some(d) => *d,
            None => {
                return Err(BridgeError::UnknownTransfer);
            },
        };
        let revealed = sha256(secret);
        if !bytes32_equal(&revealed, &details.hash_lock) {
            return Err(BridgeError::InvalidSecret);
        }
        if current_time > details.time_lock {
            return Err(BridgeError::Expired);
        }
        let balance = match accounts.get(&details.recipient_address) {
            Some(b) => *b,
            None => 0,
        };
        if details.amount > u64::MAX - balance {
            return Err(BridgeError::BalanceOverflow);
        }
        accounts.insert(details.recipient_address, balance + details.amount);
        self.pending_transfers.remove(&bridge_transfer_id);
        Ok(())
    }
}

/// Every transfer id generated within one run is distinct: the issued-id
/// history of a well-formed initiator contract holds no id twice.
pub proof fn lemma_transfer_ids_distinct(contract: SmartContractInitiator)
    requires
        contract.wf(),
    ensures
        forall|i: int, j: int|
            0 <= i < j < contract.issued_ids@.len() ==> contract.issued_ids@[i]
                != contract.issued_ids@[j],
{
}

/// A transfer can be completed at most once: after a successful completion
/// removes `id` from the pending set, any further completion attempt for the
/// same id fails with `UnknownTransfer`, whatever the secret and the time.
pub proof fn lemma_recompletion_fails(
    pending: Map<BridgeTransferId, BridgeTransferDetails>,
    accounts: Map<Address, Amount>,
    current_time: u64,
    id: BridgeTransferId,
    secret: Seq<u8>,
)
    ensures
        spec_complete_outcome(pending.remove(id), accounts, current_time, id, secret) == Err::<
            (),
            BridgeError,
        >(BridgeError::UnknownTransfer),
{
}

} // verus!
