use bridge_sim::anvil::pair_anvil_entries;
use bridge_sim::movement::{
    AtomicTransactionBundle, Block, BlockCommitment, BlockCommitmentEvent,
    BlockCommitmentRejectionReason, BlockMetadata, Commitment, Id, Transaction, TransactionEntry,
};

#[test]
fn test_id_values() {
    assert_eq!(Id::test().to_vec(), vec![0u8; 32]);
    assert_eq!(Id::genesis_block(), Id::test());
    assert_eq!(Id::test().to_vec().len(), 32);
}

#[test]
fn test_transaction_id_is_a_digest() {
    let a = Transaction::new(vec![1, 2, 3], 7);
    let b = Transaction::new(vec![1, 2, 3], 7);
    let c = Transaction::new(vec![1, 2, 3], 8);
    let d = Transaction::new(vec![1, 2, 4], 7);
    assert_eq!(a.id(), b.id());
    assert_ne!(a.id(), c.id());
    assert_ne!(a.id(), d.id());
    assert_eq!(a.id().to_vec().len(), 32);
    // The id is a digest of payload and sequence number, not the payload.
    let plain = Transaction::new(vec![0u8; 32], 0);
    assert_ne!(plain.id().to_vec(), plain.data);
}

#[test]
fn test_block_id_matches_manual_digest() {
    let transaction = Transaction::new(vec![9, 9], 1);
    let block = Block::new(BlockMetadata::BlockMetadata, vec![5, 6], vec![transaction.clone()]);
    // The block id is the digest of the parent bytes followed by each
    // transaction's digest.
    let mut input = vec![5, 6];
    input.extend_from_slice(&transaction.id().to_vec());
    let expected = Commitment::digest_bytes(&input);
    assert_eq!(block.id().to_vec(), expected.to_vec());
}

#[test]
fn test_block_test_and_add_transaction() {
    let mut block = Block::test();
    assert_eq!(block.metadata, BlockMetadata::BlockMetadata);
    assert_eq!(block.parent, vec![0u8]);
    assert_eq!(block.transactions, vec![Transaction::test()]);
    let extra = Transaction::new(vec![4], 4);
    block.add_transaction(extra.clone());
    assert_eq!(block.transactions.len(), 2);
    assert_eq!(block.transactions[1], extra);
}

#[test]
fn test_transaction_test_values() {
    let t = Transaction::test();
    assert_eq!(t.data, vec![0u8]);
    assert_eq!(t.sequence_number, 0);
}

#[test]
fn test_bundle_round_trip() {
    let transaction = Transaction::new(vec![1, 2], 3);
    let bundle = AtomicTransactionBundle::from_transaction(transaction.clone());
    assert_eq!(bundle.sequencer_id, Id::test());
    assert_eq!(bundle.transactions.len(), 1);
    assert_eq!(bundle.single_transaction(), Some(transaction.clone()));

    let empty = AtomicTransactionBundle { sequencer_id: Id::test(), transactions: vec![] };
    assert_eq!(empty.single_transaction(), None);

    let entry = TransactionEntry { consumer_id: Id::test(), data: transaction };
    let double = AtomicTransactionBundle {
        sequencer_id: Id::test(),
        transactions: vec![entry.clone(), entry],
    };
    assert_eq!(double.single_transaction(), None);
}

#[test]
fn test_commitment_values() {
    assert_eq!(Commitment::test().to_vec(), vec![0u8; 32]);

    let mut data: Vec<u8> = (0u8..40).collect();
    let read = Commitment::from_bytes(&data).expect("40 bytes are enough");
    assert_eq!(read.to_vec(), (0u8..32).collect::<Vec<u8>>());
    data.truncate(31);
    assert_eq!(Commitment::from_bytes(&data), None);

    let raw = [7u8; 32];
    assert_eq!(Commitment::from(raw).to_vec(), vec![7u8; 32]);

    // The digest of a 32-byte input is not the input itself.
    let input: Vec<u8> = (0u8..32).collect();
    assert_ne!(Commitment::digest_bytes(&input).to_vec(), input);
    assert_eq!(Commitment::digest_bytes(&input), Commitment::digest_bytes(&input));
}

#[test]
fn test_block_commitment_event_shapes() {
    let commitment = BlockCommitment {
        height: 4,
        block_id: Id::test(),
        commitment: Commitment::test(),
    };
    let accepted = BlockCommitmentEvent::Accepted(commitment.clone());
    let rejected = BlockCommitmentEvent::Rejected {
        height: 4,
        reason: BlockCommitmentRejectionReason::InvalidHeight,
    };
    assert_ne!(accepted, rejected);
    assert_eq!(accepted, BlockCommitmentEvent::Accepted(commitment));
}

#[test]
fn test_pair_anvil_entries() {
    let addresses = vec!["a1".to_string(), "a2".to_string()];
    let keys = vec!["k1".to_string(), "k2".to_string(), "k3".to_string()];
    let entries = pair_anvil_entries(addresses, keys);
    assert_eq!(entries.len(), 2);
    assert_eq!(entries[0].address, "a1");
    assert_eq!(entries[0].private_key, "k1");
    assert_eq!(entries[1].address, "a2");
    assert_eq!(entries[1].private_key, "k2");

    let none = pair_anvil_entries(Vec::new(), vec!["k".to_string()]);
    assert!(none.is_empty());
}
