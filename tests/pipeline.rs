use blockchain_core::block::{Block, ByteEncodable, DecodeError, HasUncles};
use blockchain_core::chain::{import_block, ImportError};
use blockchain_core::ledger::{EnactError, LedgerState};
use blockchain_core::memory::MemoryProvider;
use blockchain_core::provider::BlockProvider;
use blockchain_core::rules::{SimpleVerifier, VerifyError};
use blockchain_core::simple::SimpleBlock;
use blockchain_core::state::State;
use blockchain_core::verification::{check_parent_link, LinkError, Verifier};

fn rules() -> SimpleVerifier {
    SimpleVerifier { max_transactions: 4, max_uncles: 2 }
}

fn genesis() -> SimpleBlock {
    SimpleBlock::new(1, 0, 1, vec![7, 8], vec![])
}

#[test]
fn genesis_passes_every_phase_and_enacts() {
    let v = rules();
    let p = MemoryProvider::new();
    let g = genesis();
    assert_eq!(v.verify_basic(&g), Ok(()));
    assert_eq!(v.verify_unordered(&g), Ok(()));
    assert_eq!(v.verify_family(&g, &p), Ok(()));
    let mut s = LedgerState::new();
    assert_eq!(s.enact(g), Ok(()));
    assert_eq!(s.height(), 1);
    assert_eq!(s.tip(), Some(1));
    assert_eq!(s.id_at(0), Some(1));
    assert_eq!(s.applied_transactions(), &[7, 8][..]);
}

#[test]
fn number_gap_is_rejected_at_family() {
    let v = rules();
    let mut p = MemoryProvider::new();
    p.insert(SimpleBlock::new(9, 3, 10, vec![], vec![]));
    let b = SimpleBlock::new(10, 5, 11, vec![], vec![]);
    assert_eq!(v.verify_basic(&b), Ok(()));
    assert_eq!(v.verify_unordered(&b), Ok(()));
    assert_eq!(
        v.verify_family(&b, &p),
        Err(VerifyError::NumberDiscontinuity { parent_number: 3, number: 5 })
    );
    assert_eq!(
        check_parent_link(&p, &b),
        Err(LinkError::NumberDiscontinuity { parent_number: 3, number: 5 })
    );
}

#[test]
fn unknown_parent_is_rejected_at_family() {
    let v = rules();
    let p = MemoryProvider::new();
    let b = SimpleBlock::new(42, 1, 43, vec![], vec![]);
    assert_eq!(v.verify_family(&b, &p), Err(VerifyError::UnknownParent));
    let mut s = LedgerState::new();
    assert_eq!(
        import_block(&v, &p, &mut s, b),
        Err(ImportError::Family(VerifyError::UnknownParent))
    );
    assert_eq!(s.height(), 0);
    assert_eq!(s.tip(), None);
}

#[test]
fn sibling_blocks_verify_but_only_one_enacts() {
    let v = rules();
    let mut p = MemoryProvider::new();
    let mut s = LedgerState::new();
    p.insert(genesis());
    assert_eq!(s.enact(genesis()), Ok(()));
    let b1 = SimpleBlock::new(1, 1, 2, vec![5], vec![]);
    let b2 = SimpleBlock::new(1, 1, 3, vec![6], vec![]);
    for b in [&b1, &b2] {
        assert_eq!(v.verify_basic(b), Ok(()));
        assert_eq!(v.verify_unordered(b), Ok(()));
        assert_eq!(v.verify_family(b, &p), Ok(()));
    }
    assert_eq!(s.enact(b1), Ok(()));
    assert_eq!(s.enact(b2), Err(EnactError::WrongHeight { expected: 2, found: 1 }));
    assert_eq!(s.tip(), Some(2));
    assert_eq!(s.applied_transactions(), &[7, 8, 5][..]);
}

#[test]
fn failed_enact_leaves_state_unchanged() {
    let mut s = LedgerState::new();
    assert_eq!(s.enact(genesis()), Ok(()));
    let before = (s.height(), s.tip(), s.id_at(0), s.applied_transactions().to_vec());
    let stranger = SimpleBlock::new(99, 1, 5, vec![1, 2, 3], vec![]);
    assert_eq!(s.enact(stranger), Err(EnactError::NotChildOfTip { tip: 1, parent: 99 }));
    let after = (s.height(), s.tip(), s.id_at(0), s.applied_transactions().to_vec());
    assert_eq!(before, after);
}

#[test]
fn empty_state_takes_only_a_genesis() {
    let mut s = LedgerState::new();
    let b = SimpleBlock::new(1, 1, 2, vec![], vec![]);
    assert_eq!(s.enact(b), Err(EnactError::WrongHeight { expected: 0, found: 1 }));
    assert_eq!(s.height(), 0);
}

#[test]
fn pipeline_stops_at_first_failing_phase() {
    let v = rules();
    let p = MemoryProvider::new();
    let mut s = LedgerState::new();
    let big = SimpleBlock::new(1, 0, 1, vec![1, 2, 3, 4, 5], vec![]);
    assert_eq!(
        import_block(&v, &p, &mut s, big),
        Err(ImportError::Basic(VerifyError::TooManyTransactions { count: 5, limit: 4 }))
    );
    let self_uncle = SimpleBlock::new(1, 0, 1, vec![], vec![1]);
    assert_eq!(
        import_block(&v, &p, &mut s, self_uncle),
        Err(ImportError::Unordered(VerifyError::BadUncle { uncle: 1 }))
    );
    assert_eq!(s.height(), 0);
    assert_eq!(import_block(&v, &p, &mut s, genesis()), Ok(()));
    assert_eq!(s.height(), 1);
    assert_eq!(
        import_block(&v, &p, &mut s, genesis()),
        Err(ImportError::Enact(EnactError::WrongHeight { expected: 1, found: 0 }))
    );
    assert_eq!(s.height(), 1);
}

#[test]
fn basic_phase_limits_uncles() {
    let v = rules();
    let b = SimpleBlock::new(1, 0, 1, vec![], vec![5, 6, 7]);
    assert_eq!(v.verify_basic(&b), Err(VerifyError::TooManyUncles { count: 3, limit: 2 }));
}

#[test]
fn unordered_phase_rejects_parent_as_uncle() {
    let v = rules();
    let b = SimpleBlock::new(1, 1, 2, vec![], vec![4, 1]);
    assert_eq!(v.verify_unordered(&b), Err(VerifyError::BadUncle { uncle: 1 }));
}

#[test]
fn family_phase_needs_known_uncles() {
    let v = rules();
    let mut p = MemoryProvider::new();
    p.insert(genesis());
    p.insert(SimpleBlock::new(1, 1, 2, vec![], vec![]));
    let known = SimpleBlock::new(1, 1, 3, vec![], vec![2]);
    assert_eq!(v.verify_family(&known, &p), Ok(()));
    let unknown = SimpleBlock::new(1, 1, 3, vec![], vec![2, 8, 9]);
    assert_eq!(v.verify_family(&unknown, &p), Err(VerifyError::UnknownUncle { uncle: 8 }));
}

#[test]
fn round_trip_keeps_every_field() {
    let b = SimpleBlock::new(11, 12, 13, vec![1, u64::MAX, 0], vec![21, 22]);
    let bytes = b.encode();
    assert_eq!(bytes.len(), 8 * (5 + 3 + 2));
    let d = SimpleBlock::decode(&bytes).unwrap();
    assert_eq!(d.parent(), 11);
    assert_eq!(d.number(), 12);
    assert_eq!(d.id(), 13);
    assert_eq!(d.transactions(), &[1, u64::MAX, 0][..]);
    assert_eq!(d.uncles(), vec![21, 22]);
}

#[test]
fn encoding_is_little_endian_words() {
    let b = SimpleBlock::new(1, 2, 0x0102, vec![3], vec![]);
    let bytes = b.encode();
    let mut expected = vec![0u8; 48];
    expected[0] = 1;
    expected[8] = 2;
    expected[16] = 2;
    expected[17] = 1;
    expected[24] = 1;
    expected[32] = 3;
    assert_eq!(bytes, expected);
}

#[test]
fn decoding_rejects_malformed_bytes() {
    assert_eq!(SimpleBlock::decode(&[]).err(), Some(DecodeError::Truncated));
    let bytes = SimpleBlock::new(1, 2, 3, vec![4, 5], vec![6]).encode();
    assert_eq!(SimpleBlock::decode(&bytes[..bytes.len() - 1]).err(), Some(DecodeError::Truncated));
    assert_eq!(SimpleBlock::decode(&bytes[..31]).err(), Some(DecodeError::Truncated));
    let mut longer = bytes.clone();
    longer.extend_from_slice(&[0; 8]);
    assert_eq!(SimpleBlock::decode(&longer).err(), Some(DecodeError::TrailingBytes));
    let mut huge_count = bytes.clone();
    huge_count[31] = 0xff;
    assert_eq!(SimpleBlock::decode(&huge_count).err(), Some(DecodeError::Truncated));
}

#[test]
fn provider_derived_queries_follow_block() {
    let mut p = MemoryProvider::new();
    let b = SimpleBlock::new(1, 1, 2, vec![30, 31], vec![1]);
    p.insert(b);
    let got = p.block(&2).unwrap();
    assert_eq!(p.transactions(&2), Some(got.transactions().to_vec()));
    assert_eq!(p.uncles(&2), Some(got.uncles()));
    assert_eq!(p.transactions(&2), Some(vec![30, 31]));
    assert_eq!(p.uncles(&2), Some(vec![1]));
    assert!(p.block(&3).is_none());
    assert_eq!(p.transactions(&3), None);
    assert_eq!(p.uncles(&3), None);
}

#[test]
fn provider_insert_replaces_same_id() {
    let mut p = MemoryProvider::new();
    p.insert(SimpleBlock::new(1, 1, 2, vec![1], vec![]));
    p.insert(SimpleBlock::new(1, 1, 2, vec![9], vec![]));
    assert_eq!(p.transactions(&2), Some(vec![9]));
}

#[test]
fn provider_canonical_heights() {
    let mut p = MemoryProvider::new();
    assert_eq!(p.block_id(0), None);
    p.push_canonical(1);
    p.push_canonical(2);
    assert_eq!(p.block_id(0), Some(1));
    assert_eq!(p.block_id(1), Some(2));
    assert_eq!(p.block_id(2), None);
}

#[test]
fn parent_link_of_genesis_and_orphan() {
    let p = MemoryProvider::new();
    assert_eq!(check_parent_link(&p, &genesis()), Ok(()));
    let orphan = SimpleBlock::new(5, 2, 6, vec![], vec![]);
    assert_eq!(check_parent_link(&p, &orphan), Err(LinkError::UnknownParent));
}

#[test]
fn parse_tells_trailing_from_truncated() {
    let b = SimpleBlock::new(3, 0, 3, vec![], vec![4]);
    let mut bytes = b.encode();
    assert_eq!(bytes.len(), 48);
    let back = SimpleBlock::parse(&bytes).unwrap();
    assert_eq!(back.uncles, vec![4]);
    bytes.push(0);
    assert_eq!(SimpleBlock::parse(&bytes).err(), Some(DecodeError::TrailingBytes));
    assert_eq!(SimpleBlock::parse(&bytes[..40]).err(), Some(DecodeError::Truncated));
}

#[test]
fn block_numbered_zero_over_known_parent_is_rejected() {
    let v = rules();
    let mut p = MemoryProvider::new();
    p.insert(SimpleBlock::new(9, 3, 10, vec![], vec![]));
    let b = SimpleBlock::new(10, 0, 11, vec![], vec![]);
    assert_eq!(
        v.verify_family(&b, &p),
        Err(VerifyError::NumberDiscontinuity { parent_number: 3, number: 0 })
    );
    assert_eq!(
        check_parent_link(&p, &b),
        Err(LinkError::NumberDiscontinuity { parent_number: 3, number: 0 })
    );
}

#[test]
fn genesis_with_self_or_unknown_parent_links() {
    let v = rules();
    let mut p = MemoryProvider::new();
    p.insert(genesis());
    assert_eq!(v.verify_family(&genesis(), &p), Ok(()));
    let sentinel_parent = SimpleBlock::new(0, 0, 5, vec![], vec![]);
    assert_eq!(v.verify_family(&sentinel_parent, &p), Ok(()));
    let over_genesis = SimpleBlock::new(1, 0, 6, vec![], vec![]);
    assert_eq!(
        v.verify_family(&over_genesis, &p),
        Err(VerifyError::NumberDiscontinuity { parent_number: 0, number: 0 })
    );
}
