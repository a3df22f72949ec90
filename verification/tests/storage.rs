use hooks_pallet::hooks::{Config, DispatchError, Error, Pallet};
use hooks_pallet::transaction::Origin;

fn test_config() -> Config {
    Config {
        max_data_len: 4096,
        max_chunks: 10,
        cooldown_period: 0,
        url: String::from("https://polkadot.js.org/"),
        response_time_limit: 500,
        reading_time_limit: 200,
        target: vec![b'/'],
    }
}

#[test]
fn genesis_state_is_empty() {
    let pallet = Pallet::new(test_config());
    assert_eq!(pallet.current_amount_of_chunks(), 0);
    assert_eq!(pallet.last_save(), 0);
    assert_eq!(pallet.get_max_k2_or_0(1), 0);
    assert!(pallet.data_chunk(1, 1).is_none());
}

#[test]
fn save_assigns_indices_from_one() {
    let mut pallet = Pallet::new(test_config());
    assert_eq!(pallet.save_data_chunk(Origin::Signed(1), vec![1, 2, 3], 5), Ok(()));
    assert_eq!(pallet.save_data_chunk(Origin::Signed(1), vec![4, 5], 5), Ok(()));
    assert_eq!(pallet.save_data_chunk(Origin::Signed(2), vec![6], 8), Ok(()));
    assert_eq!(pallet.get_max_k2_or_0(5), 2);
    assert_eq!(pallet.get_max_k2_or_0(8), 1);
    assert_eq!(pallet.data_chunk(5, 1), Some(&vec![1, 2, 3]));
    assert_eq!(pallet.data_chunk(5, 2), Some(&vec![4, 5]));
    assert_eq!(pallet.data_chunk(8, 1), Some(&vec![6]));
    assert!(pallet.data_chunk(5, 0).is_none());
    assert!(pallet.data_chunk(5, 3).is_none());
    assert_eq!(pallet.current_amount_of_chunks(), 3);
    assert_eq!(pallet.last_save(), 8);
}

#[test]
fn indices_interleave_per_block_without_gaps() {
    let mut pallet = Pallet::new(test_config());
    assert_eq!(pallet.save_data_chunk(Origin::Signed(1), vec![10], 1), Ok(()));
    assert_eq!(pallet.save_data_chunk(Origin::Signed(1), vec![20], 2), Ok(()));
    assert_eq!(pallet.save_data_chunk(Origin::Signed(1), vec![11], 1), Ok(()));
    assert_eq!(pallet.save_data_chunk(Origin::Signed(1), vec![21], 2), Ok(()));
    assert_eq!(pallet.save_data_chunk(Origin::Signed(1), vec![12], 1), Ok(()));
    // block 1 holds exactly indices 1..=3, block 2 exactly 1..=2
    for k2 in 1..=3u64 {
        assert!(pallet.data_chunk(1, k2).is_some());
    }
    assert!(pallet.data_chunk(1, 4).is_none());
    for k2 in 1..=2u64 {
        assert!(pallet.data_chunk(2, k2).is_some());
    }
    assert!(pallet.data_chunk(2, 3).is_none());
    assert_eq!(pallet.data_chunk(1, 3), Some(&vec![12]));
}

#[test]
fn unsigned_origin_is_refused() {
    let mut pallet = Pallet::new(test_config());
    assert_eq!(
        pallet.save_data_chunk(Origin::Unsigned, vec![1], 1),
        Err(DispatchError::BadOrigin)
    );
    assert_eq!(pallet.save_data_chunk(Origin::Root, vec![1], 1), Err(DispatchError::BadOrigin));
    assert_eq!(pallet.current_amount_of_chunks(), 0);
}

#[test]
fn oversized_chunk_is_refused_unchanged() {
    let mut pallet = Pallet::new(test_config());
    let oversized = vec![0u8; 4097];
    assert_eq!(
        pallet.save_data_chunk(Origin::Signed(1), oversized, 1),
        Err(DispatchError::Module(Error::VecToBoundedVecConvertationError))
    );
    assert_eq!(pallet.current_amount_of_chunks(), 0);
    assert_eq!(pallet.last_save(), 0);
    assert!(pallet.data_chunk(1, 1).is_none());
}

#[test]
fn chunk_of_exactly_max_len_is_accepted() {
    let mut pallet = Pallet::new(test_config());
    let full = vec![7u8; 4096];
    assert_eq!(pallet.save_data_chunk(Origin::Signed(1), full.clone(), 1), Ok(()));
    assert_eq!(pallet.data_chunk(1, 1), Some(&full));
}

#[test]
fn ceiling_rejects_insert_past_max_chunks() {
    let mut config = test_config();
    config.max_chunks = 3;
    let mut pallet = Pallet::new(config);
    for b in 0..3u64 {
        assert_eq!(pallet.save_data_chunk(Origin::Signed(1), vec![b as u8], b), Ok(()));
    }
    assert_eq!(pallet.current_amount_of_chunks(), 3);
    let last_save_before = pallet.last_save();
    assert_eq!(
        pallet.save_data_chunk(Origin::Signed(1), vec![9], 7),
        Err(DispatchError::Module(Error::ChunksLimitExceeded))
    );
    assert_eq!(pallet.current_amount_of_chunks(), 3);
    assert_eq!(pallet.last_save(), last_save_before);
    assert!(pallet.data_chunk(7, 1).is_none());
}
