//! The core data types exchanged by the surrounding system: transactions,
//! blocks, commitments, and their SHA-256-derived identifiers.

use vstd::prelude::*;
use crate::digest::{sha256, sha256_of};

verus! {

/// Thirty-two zero bytes, the test and genesis identifier value.
pub open spec fn spec_zero32() -> Seq<u8> {
    Seq::new(32, |i: int| 0u8)
}

/// Appends `src` to `dst`.
fn append_bytes(dst: &mut Vec<u8>, src: &[u8])
    ensures
        final(dst)@ == old(dst)@ + src@,
{
    dst.extend_from_slice(src);
    proof {
        assert(dst@ =~= old(dst)@ + src@);
    }
}

/// A 32-byte identifier.
#[derive(Clone, Copy, Default, Debug, PartialEq, Eq, Hash, PartialOrd, Ord)]
pub struct Id(pub [u8; 32]);

impl Id {
    pub fn test() -> (r: Self)
        ensures
            r.0@ == spec_zero32(),
    {
        let r = Id([0u8; 32]);
        proof {
            assert(r.0@ =~= spec_zero32());
        }
        r
    }

    pub fn to_vec(&self) -> (r: Vec<u8>)
        ensures
            r@ == self.0@,
    {
        vstd::slice::slice_to_vec(self.0.as_slice())
    }

    pub fn genesis_block() -> (r: Self)
        ensures
            r.0@ == spec_zero32(),
    {
        let r = Id([0u8; 32]);
        proof {
            assert(r.0@ =~= spec_zero32());
        }
        r
    }
}

/// The bytes hashed to form a transaction's id: the payload followed by the
/// sequence number in little-endian order.
pub open spec fn spec_transaction_id_input(data: Seq<u8>, sequence_number: u64) -> Seq<u8> {
    data + vstd::bytes::spec_u64_to_le_bytes(sequence_number)
}

/// An opaque transaction: a byte payload and a sequence number.
#[derive(Clone, Default, Debug, PartialEq, Eq, Hash, PartialOrd, Ord)]
pub struct Transaction {
    pub data: Vec<u8>,
    pub sequence_number: u64,
}

impl Transaction {
    pub fn new(data: Vec<u8>, sequence_number: u64) -> (r: Self)
        ensures
            r.data@ == data@,
            r.sequence_number == sequence_number,
    {
        Transaction { data, sequence_number }
    }

    /// The transaction's identifier: the SHA-256 digest of the payload
    /// followed by the little-endian sequence number.
    pub fn id(&self) -> (r: Id)
        ensures
            r.0@ == sha256_of(spec_transaction_id_input(self.data@, self.sequence_number)),
    {
        let mut bytes: Vec<u8> = Vec::new();
        append_bytes(&mut bytes, self.data.as_slice());
        let mut tail = vstd::bytes::u64_to_le_bytes(self.sequence_number);
        bytes.append(&mut tail);
        proof {
            assert(bytes@ =~= spec_transaction_id_input(self.data@, self.sequence_number));
        }
        Id(sha256(bytes.as_slice()))
    }

    pub fn test() -> (r: Self)
        ensures
            r.data@ == seq![0u8],
            r.sequence_number == 0,
    {
        let r = Transaction { data: vec![0u8], sequence_number: 0 };
        proof {
            assert(r.data@ =~= seq![0u8]);
        }
        r
    }
}

/// A transaction tagged with the id of the consumer that submitted it.
#[derive(Clone, Default, Debug, PartialEq, Eq, Hash, PartialOrd, Ord)]
pub struct TransactionEntry {
    pub consumer_id: Id,
    pub data: Transaction,
}

/// A bundle of transactions attributed to one sequencer.
#[derive(Clone, Default, Debug, PartialEq, Eq, Hash, PartialOrd, Ord)]
pub struct AtomicTransactionBundle {
    pub sequencer_id: Id,
    pub transactions: Vec<TransactionEntry>,
}

impl AtomicTransactionBundle {
    /// Wraps one transaction into a bundle with zeroed sequencer and
    /// consumer ids.
    pub fn from_transaction(transaction: Transaction) -> (r: Self)
        ensures
            r.sequencer_id.0@ == spec_zero32(),
            r.transactions@.len() == 1,
            r.transactions@[0].consumer_id.0@ == spec_zero32(),
            r.transactions@[0].data == transaction,
    {
        AtomicTransactionBundle {
            sequencer_id: Id::test(),
            transactions: vec![TransactionEntry { consumer_id: Id::test(), data: transaction }],
        }
    }

    /// The bundle's single transaction; nothing if the bundle does not hold
    /// exactly one.
    pub fn single_transaction(&self) -> (r: Option<Transaction>)
        ensures
            r is Some <==> self.transactions@.len() == 1,
            r is Some ==> {
                &&& r->0.data@ == self.transactions@[0].data.data@
                &&& r->0.sequence_number == self.transactions@[0].data.sequence_number
            },
    {
        if self.transactions.len() == 1 {
            let entry = &self.transactions[0];
            let mut data: Vec<u8> = Vec::new();
            append_bytes(&mut data, entry.data.data.as_slice());
            proof {
                assert(data@ =~= self.transactions@[0].data.data@);
            }
            Some(Transaction { data, sequence_number: entry.data.sequence_number })
        } else {
            None
        }
    }
}

/// The metadata carried by a block.
#[derive(Clone, Copy, Default, Debug, PartialEq, Eq, Hash, PartialOrd, Ord)]
pub enum BlockMetadata {
    #[default]
    BlockMetadata,
}

/// The bytes hashed to form a block's id: the parent id followed by the
/// digest of each contained transaction, in order.
pub open spec fn spec_block_id_input(parent: Seq<u8>, transactions: Seq<Transaction>) -> Seq<u8>
    decreases transactions.len(),
{
    if transactions.len() == 0 {
        parent
    } else {
        spec_block_id_input(parent, transactions.drop_last()) + sha256_of(
            spec_transaction_id_input(
                transactions.last().data@,
                transactions.last().sequence_number,
            ),
        )
    }
}

/// A block: metadata, the parent block's id bytes, and the contained
/// transactions.
#[derive(Clone, Default, Debug, PartialEq, Eq, Hash, PartialOrd, Ord)]
pub struct Block {
    pub metadata: BlockMetadata,
    pub parent: Vec<u8>,
    pub transactions: Vec<Transaction>,
}

impl Block {
    pub fn new(metadata: BlockMetadata, parent: Vec<u8>, transactions: Vec<Transaction>) -> (r:
        Self)
        ensures
            r.metadata == metadata,
            r.parent@ == parent@,
            r.transactions@ == transactions@,
    {
        Block { metadata, parent, transactions }
    }

    /// The block's identifier: the SHA-256 digest of the parent bytes
    /// followed by each transaction's digest.
    pub fn id(&self) -> (r: Id)
        ensures
            r.0@ == sha256_of(spec_block_id_input(self.parent@, self.transactions@)),
    {
        let mut bytes: Vec<u8> = Vec::new();
        append_bytes(&mut bytes, self.parent.as_slice());
        proof {
            assert(self.transactions@.take(0) =~= Seq::<Transaction>::empty());
        }
        let mut i: usize = 0;
        while i < self.transactions.len()
            invariant
                0 <= i <= self.transactions.len(),
                bytes@ == spec_block_id_input(self.parent@, self.transactions@.take(i as int)),
            decreases self.transactions.len() - i,
        {
            let transaction_id = self.transactions[i].id();
            append_bytes(&mut bytes, transaction_id.0.as_slice());
            proof {
                assert(self.transactions@.take(i + 1 as int).drop_last() =~= self.transactions@.take(
                    i as int,
                ));
                assert(self.transactions@.take(i + 1 as int).last() == self.transactions@[i as int]);
            }
            i += 1;
        }
        proof {
            assert(self.transactions@.take(self.transactions@.len() as int) =~= self.transactions@);
        }
        Id(sha256(bytes.as_slice()))
    }

    pub fn test() -> (r: Self)
        ensures
            r.metadata == BlockMetadata::BlockMetadata,
            r.parent@ == seq![0u8],
            r.transactions@.len() == 1,
            r.transactions@[0].data@ == seq![0u8],
            r.transactions@[0].sequence_number == 0,
    {
        let r = Block {
            metadata: BlockMetadata::BlockMetadata,
            parent: vec![0u8],
            transactions: vec![Transaction::test()],
        };
        proof {
            assert(r.parent@ =~= seq![0u8]);
        }
        r
    }

    /// Appends a transaction to the block.
    pub fn add_transaction(&mut self, transaction: Transaction)
        ensures
            final(self).metadata == old(self).metadata,
            final(self).parent@ == old(self).parent@,
            final(self).transactions@ == old(self).transactions@.push(transaction),
    {
        self.transactions.push(transaction);
    }
}

/// A 32-byte cryptographic commitment to a ledger state.
#[derive(Clone, Copy, Default, Debug, PartialEq, Eq, Hash, PartialOrd, Ord)]
pub struct Commitment(pub [u8; 32]);

impl Commitment {
    pub fn test() -> (r: Self)
        ensures
            r.0@ == spec_zero32(),
    {
        let r = Commitment([0u8; 32]);
        proof {
            assert(r.0@ =~= spec_zero32());
        }
        r
    }

    /// A commitment over an already-serialized state proof: the SHA-256
    /// digest of its bytes.
    pub fn digest_bytes(bytes: &[u8]) -> (r: Self)
        ensures
            r.0@ == sha256_of(bytes@),
    {
        Commitment(sha256(bytes))
    }

    /// The commitment read from the first 32 bytes of `data`; nothing if
    /// `data` is shorter than 32 bytes.
    pub fn from_bytes(data: &[u8]) -> (r: Option<Self>)
        ensures
            r is Some <==> data@.len() >= 32,
            r is Some ==> ({
                let c = r->0;
                c.0@ == data@.take(32)
            }),
    {
        if data.len() < 32 {
            return None;
        }
        let mut out = [0u8; 32];
        let mut i: usize = 0;
        while i < 32
            invariant
                0 <= i <= 32,
                data@.len() >= 32,
                out@.len() == 32,
                forall|k: int| 0 <= k < i ==> out@[k] == data@[k],
            decreases 32 - i,
        {
            out[i] = data[i];
            i += 1;
        }
        proof {
            assert(out@ =~= data@.take(32));
        }
        Some(Commitment(out))
    }

    pub fn to_vec(&self) -> (r: Vec<u8>)
        ensures
            r@ == self.0@,
    {
        vstd::slice::slice_to_vec(self.0.as_slice())
    }
}

impl From<[u8; 32]> for Commitment {
    fn from(data: [u8; 32]) -> (r: Self) {
        Commitment(data)
    }
}

impl vstd::std_specs::convert::FromSpecImpl<[u8; 32]> for Commitment {
    open spec fn obeys_from_spec() -> bool {
        true
    }

    open spec fn from_spec(data: [u8; 32]) -> Self {
        Commitment(data)
    }
}

/// A commitment to the block at a given height.
#[derive(Clone, Copy, Default, Debug, PartialEq, Eq, Hash, PartialOrd, Ord)]
pub struct BlockCommitment {
    pub height: u64,
    pub block_id: Id,
    pub commitment: Commitment,
}

/// Why a block commitment was rejected by the settlement side.
#[derive(Clone, Copy, Debug, PartialEq, Eq, Hash, PartialOrd, Ord)]
pub enum BlockCommitmentRejectionReason {
    InvalidBlockId,
    InvalidCommitment,
    InvalidHeight,
    ContractError,
}

/// The settlement side's verdict on a posted block commitment.
#[derive(Clone, Copy, Debug, PartialEq, Eq, Hash, PartialOrd, Ord)]
pub enum BlockCommitmentEvent {
    Accepted(BlockCommitment),
    Rejected { height: u64, reason: BlockCommitmentRejectionReason },
}

} // verus!
