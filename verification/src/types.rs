//! Shared data types of the simulated two-chain bridge.
//!
//! Addresses, amounts, transfer ids and logical timestamps are plain 64-bit
//! integers; a hash lock is a 32-byte SHA-256 digest. A transfer id is drawn
//! from a per-contract monotone counter, which makes it collision-free by
//! construction.

use vstd::prelude::*;

verus! {

/// An account address on a simulated chain.
pub type Address = u64;

/// A non-negative account balance or transfer amount.
pub type Amount = u64;

/// A logical timestamp on the simulated clock.
pub type TimeLock = u64;

/// The unique identifier of one bridge transfer.
pub type BridgeTransferId = u64;

/// The SHA-256 digest committing to a transfer's secret.
pub type HashLock = [u8; 32];

/// A pending bridge transfer on the source ("initiator") side.
#[derive(Clone, Copy, Debug, PartialEq, Eq)]
pub struct BridgeTransferDetails {
    pub bridge_transfer_id: BridgeTransferId,
    pub initiator_address: Address,
    pub recipient_address: Address,
    pub hash_lock: HashLock,
    pub time_lock: TimeLock,
    pub amount: Amount,
}

/// A lock record on the destination ("counterparty") side, mirroring the
/// commitment of the corresponding initiator-side transfer.
#[derive(Clone, Copy, Debug, PartialEq, Eq)]
pub struct LockDetails {
    pub bridge_transfer_id: BridgeTransferId,
    pub hash_lock: HashLock,
    pub time_lock: TimeLock,
    pub recipient_address: Address,
    pub amount: Amount,
}

/// Why a bridge operation was rejected. Balances are never mutated on any of
/// these failure paths.
#[derive(Clone, Copy, Debug, PartialEq, Eq, Structural)]
pub enum BridgeError {
    /// The transfer id is not pending (never initiated, or already completed).
    UnknownTransfer,
    /// The revealed secret does not hash to the stored hash lock.
    InvalidSecret,
    /// The current logical time is strictly past the stored time lock.
    Expired,
    /// The recipient's balance cannot take the credit without exceeding the
    /// largest representable amount.
    BalanceOverflow,
    /// The addressed event listener does not exist or has been closed.
    ListenerUnavailable,
}

} // verus!
