use bubblegum_tx::{get_valid_pairs_string, is_valid_pair, required_account_size, valid_depth_size_pairs, BubblegumError};
use spl_account_compression::state::CONCURRENT_MERKLE_TREE_HEADER_SIZE_V1;
use spl_account_compression::ConcurrentMerkleTree;

#[test]
fn every_table_pair_is_valid() {
    let pairs = valid_depth_size_pairs();
    assert_eq!(pairs.len(), 34);
    for (d, b) in pairs {
        assert!(is_valid_pair(d, b), "({}, {}) should be valid", d, b);
    }
}

#[test]
fn pairs_outside_the_table_are_rejected() {
    for (d, b) in [(4, 8), (8, 3), (16, 8), (0, 0), (14, 128), (30, 64), (31, 2048), (u32::MAX, u32::MAX)] {
        assert!(!is_valid_pair(d, b), "({}, {}) should be rejected", d, b);
    }
}

#[test]
fn swapped_pairs_are_rejected() {
    for (d, b) in valid_depth_size_pairs() {
        assert!(!is_valid_pair(b, d));
    }
}

#[test]
fn valid_pairs_string_lists_the_table() {
    let expected = "(3, 8), (5, 8), (6, 16), (7, 16), (8, 16), (9, 16), (10, 32), (11, 32), (12, 32), (13, 32), \
(14, 64), (15, 64), (16, 64), (17, 64), (18, 64), (19, 64), (20, 64), (24, 64), (14, 256), (20, 256), (24, 256), \
(24, 512), (26, 512), (30, 512), (14, 1024), (20, 1024), (24, 1024), (26, 1024), (30, 1024), (14, 2048), \
(20, 2048), (24, 2048), (26, 2048), (30, 2048)";
    assert_eq!(get_valid_pairs_string(), expected);
}

fn layout_size<const D: usize, const B: usize>() -> u64 {
    (CONCURRENT_MERKLE_TREE_HEADER_SIZE_V1 + std::mem::size_of::<ConcurrentMerkleTree<D, B>>()) as u64
}

#[test]
fn account_size_matches_the_tree_layout() {
    assert_eq!(required_account_size(3, 8), Ok(layout_size::<3, 8>()));
    assert_eq!(required_account_size(5, 8), Ok(layout_size::<5, 8>()));
    assert_eq!(required_account_size(9, 16), Ok(layout_size::<9, 16>()));
    assert_eq!(required_account_size(13, 32), Ok(layout_size::<13, 32>()));
    assert_eq!(required_account_size(14, 64), Ok(layout_size::<14, 64>()));
    assert_eq!(required_account_size(24, 64), Ok(layout_size::<24, 64>()));
    assert_eq!(required_account_size(20, 256), Ok(layout_size::<20, 256>()));
    assert_eq!(required_account_size(26, 512), Ok(layout_size::<26, 512>()));
    assert_eq!(required_account_size(30, 1024), Ok(layout_size::<30, 1024>()));
    assert_eq!(required_account_size(30, 2048), Ok(layout_size::<30, 2048>()));
}

#[test]
fn account_size_of_depth_14_buffer_64() {
    assert_eq!(required_account_size(14, 64), Ok(31800));
}

#[test]
fn account_size_is_deterministic() {
    for (d, b) in valid_depth_size_pairs() {
        assert_eq!(required_account_size(d, b), required_account_size(d, b));
    }
}

#[test]
fn account_size_grows_with_buffer() {
    let sizes: Vec<u64> = [64, 256, 1024, 2048].iter().map(|b| required_account_size(14, *b).unwrap()).collect();
    assert!(sizes.windows(2).all(|w| w[0] <= w[1]));
}

#[test]
fn account_size_rejects_unsupported_pair() {
    assert_eq!(
        required_account_size(4, 8),
        Err(BubblegumError::InvalidConfiguration { max_depth: 4, max_buffer_size: 8 })
    );
}
