use yellowstone_filter::filter::error::{decode_pubkey, decode_pubkeys};
use yellowstone_filter::filter::{Filter, FilterError};
use yellowstone_filter::geyser::{
    FilterMap, SubscribeRequest, SubscribeRequestFilterAccounts, SubscribeRequestFilterBlocks,
    SubscribeRequestFilterBlocksMeta, SubscribeRequestFilterEntry, SubscribeRequestFilterSlots,
    SubscribeRequestFilterTransactions, SubscribeRequestPing,
};
use yellowstone_filter::keys::{ParseKeyError, Pubkey};
use yellowstone_filter::limits::{BlocksInclude, FilterLimits, FilterLimitsCheckError};
use yellowstone_filter::message::CommitmentLevel;
use yellowstone_filter::name::{FilterNameError, FilterNames};

fn key(byte: u8) -> Pubkey {
    Pubkey::new_from_array([byte; 32])
}

fn text(key: &Pubkey) -> String {
    bs58::encode(key.to_bytes()).into_string()
}

fn names() -> FilterNames {
    FilterNames::new(64, 1024, 1000)
}

fn empty() -> SubscribeRequest {
    SubscribeRequest::new()
}

fn open_limits() -> FilterLimits {
    let mut limits = FilterLimits::default();
    limits.accounts.any = true;
    limits.transactions.any = true;
    limits.transactions_status.any = true;
    limits.blocks.account_include_any = true;
    limits
}

fn error_of(config: &SubscribeRequest, limits: &FilterLimits) -> Option<FilterError> {
    Filter::new(config, limits, &mut names()).err()
}

fn accounts_filter(account: Vec<String>, owner: Vec<String>) -> SubscribeRequestFilterAccounts {
    SubscribeRequestFilterAccounts {
        account,
        owner,
        filters: vec![],
        nonempty_txn_signature: None,
    }
}

fn transactions_filter(included: Vec<String>) -> SubscribeRequestFilterTransactions {
    SubscribeRequestFilterTransactions {
        vote: None,
        failed: None,
        signature: None,
        account_include: included,
        account_exclude: vec![],
        account_required: vec![],
    }
}

#[test]
fn test_default_limits() {
    let limits = FilterLimits::default();
    assert_eq!(limits.accounts.max, usize::MAX);
    assert!(!limits.accounts.any);
    assert_eq!(limits.accounts.account_max, usize::MAX);
    assert_eq!(limits.accounts.owner_max, usize::MAX);
    assert_eq!(limits.accounts.data_slice_max, usize::MAX);
    assert!(limits.accounts.account_reject.is_empty());
    assert!(limits.accounts.owner_reject.is_empty());
    assert_eq!(limits.slots.max, usize::MAX);
    assert_eq!(limits.transactions.max, usize::MAX);
    assert!(!limits.transactions.any);
    assert!(!limits.transactions_status.any);
    assert_eq!(limits.entries.max, usize::MAX);
    assert_eq!(limits.blocks.max, usize::MAX);
    assert!(!limits.blocks.account_include_any);
    assert!(limits.blocks.include_transactions);
    assert!(limits.blocks.include_accounts);
    assert!(limits.blocks.include_entries);
    assert_eq!(limits.blocks_meta.max, usize::MAX);
}

#[test]
fn test_limit_checks() {
    assert_eq!(FilterLimits::check_max(2, 2), Ok(()));
    assert_eq!(
        FilterLimits::check_max(3, 2),
        Err(FilterLimitsCheckError::MaxExceeded { max: 2 })
    );
    assert_eq!(FilterLimits::check_any(false, false), Ok(()));
    assert_eq!(FilterLimits::check_any(true, true), Ok(()));
    assert_eq!(
        FilterLimits::check_any(true, false),
        Err(FilterLimitsCheckError::AnyNotAllowed)
    );
    assert_eq!(FilterLimits::check_pubkey_max(0, 0), Ok(()));
    assert_eq!(
        FilterLimits::check_pubkey_max(1, 0),
        Err(FilterLimitsCheckError::PubkeyMaxExceeded { max: 0 })
    );
    assert_eq!(FilterLimits::check_pubkey_reject(&key(1), &vec![key(2)]), Ok(()));
    assert_eq!(
        FilterLimits::check_pubkey_reject(&key(2), &vec![key(1), key(2)]),
        Err(FilterLimitsCheckError::PubkeyRejected { pubkey: key(2) })
    );
    assert_eq!(
        FilterLimits::check_include(BlocksInclude::Accounts, Some(true), true),
        Ok(())
    );
    assert_eq!(
        FilterLimits::check_include(BlocksInclude::Accounts, None, false),
        Ok(())
    );
    assert_eq!(
        FilterLimits::check_include(BlocksInclude::Accounts, Some(false), false),
        Ok(())
    );
    assert_eq!(
        FilterLimits::check_include(BlocksInclude::Entries, Some(true), false),
        Err(FilterLimitsCheckError::IncludeNotAllowed {
            field: BlocksInclude::Entries
        })
    );
}

#[test]
fn test_max_filters_of_each_kind() {
    let max_exceeded = Some(FilterError::LimitsCheck(
        FilterLimitsCheckError::MaxExceeded { max: 0 },
    ));

    let mut config = empty();
    config.accounts.insert("a".to_string(), accounts_filter(vec![text(&key(1))], vec![]));
    let mut limits = open_limits();
    limits.accounts.max = 0;
    assert_eq!(error_of(&config, &limits), max_exceeded);

    let mut config = empty();
    config.slots.insert("a".to_string(), SubscribeRequestFilterSlots::default());
    let mut limits = open_limits();
    limits.slots.max = 0;
    assert_eq!(error_of(&config, &limits), max_exceeded);

    let mut config = empty();
    config.transactions.insert("a".to_string(), transactions_filter(vec![]));
    let mut limits = open_limits();
    limits.transactions.max = 0;
    assert_eq!(error_of(&config, &limits), max_exceeded);

    let mut config = empty();
    config.transactions_status.insert("a".to_string(), transactions_filter(vec![]));
    let mut limits = open_limits();
    limits.transactions_status.max = 0;
    assert_eq!(error_of(&config, &limits), max_exceeded);

    let mut config = empty();
    config.entry.insert("a".to_string(), SubscribeRequestFilterEntry::default());
    let mut limits = open_limits();
    limits.entries.max = 0;
    assert_eq!(error_of(&config, &limits), max_exceeded);

    let mut config = empty();
    config.blocks.insert("a".to_string(), SubscribeRequestFilterBlocks::default());
    let mut limits = open_limits();
    limits.blocks.max = 0;
    assert_eq!(error_of(&config, &limits), max_exceeded);

    let mut config = empty();
    config.blocks_meta.insert("a".to_string(), SubscribeRequestFilterBlocksMeta::default());
    let mut limits = open_limits();
    limits.blocks_meta.max = 0;
    assert_eq!(error_of(&config, &limits), max_exceeded);
}

#[test]
fn test_any_not_allowed() {
    let any = Some(FilterError::LimitsCheck(FilterLimitsCheckError::AnyNotAllowed));
    let mut config = empty();
    config.accounts.insert("a".to_string(), accounts_filter(vec![], vec![]));
    assert_eq!(error_of(&config, &FilterLimits::default()), any);
    assert_eq!(error_of(&config, &open_limits()), None);

    let mut config = empty();
    config.transactions.insert("a".to_string(), transactions_filter(vec![]));
    assert_eq!(error_of(&config, &FilterLimits::default()), any);
    assert_eq!(error_of(&config, &open_limits()), None);

    let mut config = empty();
    config.blocks.insert("a".to_string(), SubscribeRequestFilterBlocks::default());
    assert_eq!(error_of(&config, &FilterLimits::default()), any);
    assert_eq!(error_of(&config, &open_limits()), None);
}

#[test]
fn test_pubkey_caps_and_reject_lists() {
    let mut config = empty();
    config.accounts.insert(
        "a".to_string(),
        accounts_filter(vec![text(&key(1)), text(&key(2))], vec![text(&key(3))]),
    );
    let mut limits = open_limits();
    limits.accounts.account_max = 1;
    assert_eq!(
        error_of(&config, &limits),
        Some(FilterError::LimitsCheck(
            FilterLimitsCheckError::PubkeyMaxExceeded { max: 1 }
        ))
    );
    let mut limits = open_limits();
    limits.accounts.owner_max = 0;
    assert_eq!(
        error_of(&config, &limits),
        Some(FilterError::LimitsCheck(
            FilterLimitsCheckError::PubkeyMaxExceeded { max: 0 }
        ))
    );
    let mut limits = open_limits();
    limits.accounts.account_reject = vec![key(2)];
    assert_eq!(
        error_of(&config, &limits),
        Some(FilterError::LimitsCheck(
            FilterLimitsCheckError::PubkeyRejected { pubkey: key(2) }
        ))
    );
    let mut limits = open_limits();
    limits.accounts.owner_reject = vec![key(3)];
    assert_eq!(
        error_of(&config, &limits),
        Some(FilterError::LimitsCheck(
            FilterLimitsCheckError::PubkeyRejected { pubkey: key(3) }
        ))
    );
    // a key on the other list is not rejected
    let mut limits = open_limits();
    limits.accounts.owner_reject = vec![key(1)];
    assert_eq!(error_of(&config, &limits), None);

    let mut config = empty();
    config.transactions.insert("t".to_string(), transactions_filter(vec![text(&key(4))]));
    let mut limits = open_limits();
    limits.transactions.account_include_reject = vec![key(4)];
    assert_eq!(
        error_of(&config, &limits),
        Some(FilterError::LimitsCheck(
            FilterLimitsCheckError::PubkeyRejected { pubkey: key(4) }
        ))
    );
    let mut limits = open_limits();
    limits.transactions.account_include_max = 0;
    assert_eq!(
        error_of(&config, &limits),
        Some(FilterError::LimitsCheck(
            FilterLimitsCheckError::PubkeyMaxExceeded { max: 0 }
        ))
    );

    let mut config = empty();
    config.blocks.insert(
        "b".to_string(),
        SubscribeRequestFilterBlocks {
            account_include: vec![text(&key(5))],
            ..SubscribeRequestFilterBlocks::default()
        },
    );
    let mut limits = open_limits();
    limits.blocks.account_include_reject = vec![key(5)];
    assert_eq!(
        error_of(&config, &limits),
        Some(FilterError::LimitsCheck(
            FilterLimitsCheckError::PubkeyRejected { pubkey: key(5) }
        ))
    );
}

#[test]
fn test_block_parts_not_handed_out() {
    let with = |transactions, accounts, entries| {
        let mut config = empty();
        config.blocks.insert(
            "b".to_string(),
            SubscribeRequestFilterBlocks {
                account_include: vec![],
                include_transactions: transactions,
                include_accounts: accounts,
                include_entries: entries,
            },
        );
        config
    };
    let refused = |field| {
        Some(FilterError::LimitsCheck(
            FilterLimitsCheckError::IncludeNotAllowed { field },
        ))
    };
    let mut limits = open_limits();
    limits.blocks.include_transactions = false;
    assert_eq!(
        error_of(&with(Some(true), None, None), &limits),
        refused(BlocksInclude::Transactions)
    );
    assert_eq!(error_of(&with(Some(false), None, None), &limits), None);
    assert_eq!(error_of(&with(None, Some(true), Some(true)), &limits), None);

    let mut limits = open_limits();
    limits.blocks.include_accounts = false;
    assert_eq!(
        error_of(&with(None, Some(true), None), &limits),
        refused(BlocksInclude::Accounts)
    );
    assert_eq!(error_of(&with(None, Some(false), Some(true)), &limits), None);
    assert_eq!(error_of(&with(None, None, Some(true)), &limits), None);

    // entries go by their own permission
    let mut limits = open_limits();
    limits.blocks.include_entries = false;
    assert_eq!(
        error_of(&with(None, None, Some(true)), &limits),
        refused(BlocksInclude::Entries)
    );
    assert_eq!(error_of(&with(None, Some(true), Some(false)), &limits), None);
}

#[test]
fn test_invalid_commitment() {
    let mut config = empty();
    config.commitment = Some(7);
    assert_eq!(
        error_of(&config, &open_limits()),
        Some(FilterError::InvalidCommitment { commitment: 7 })
    );
    config.commitment = Some(-1);
    assert_eq!(
        error_of(&config, &open_limits()),
        Some(FilterError::InvalidCommitment { commitment: -1 })
    );
    let levels = [
        CommitmentLevel::Processed,
        CommitmentLevel::Confirmed,
        CommitmentLevel::Finalized,
        CommitmentLevel::FirstShredReceived,
        CommitmentLevel::Completed,
        CommitmentLevel::CreatedBank,
        CommitmentLevel::Dead,
    ];
    for (code, level) in levels.iter().enumerate() {
        config.commitment = Some(code as i32);
        let filter = Filter::new(&config, &open_limits(), &mut names()).unwrap();
        assert_eq!(filter.get_commitment_level(), *level);
        assert_eq!(level.to_i32(), code as i32);
        assert_eq!(CommitmentLevel::from_i32(code as i32), Some(*level));
    }
    config.commitment = None;
    let filter = Filter::new(&config, &open_limits(), &mut names()).unwrap();
    assert_eq!(filter.get_commitment_level(), CommitmentLevel::Processed);
    assert_eq!(CommitmentLevel::from_i32(7), None);
}

#[test]
fn test_invalid_pubkey_and_signature() {
    let mut config = empty();
    config.accounts.insert("a".to_string(), accounts_filter(vec!["0OIl".to_string()], vec![]));
    assert_eq!(
        error_of(&config, &open_limits()),
        Some(FilterError::InvalidPubkey(ParseKeyError::Invalid))
    );
    let mut config = empty();
    config.accounts.insert("a".to_string(), accounts_filter(vec![], vec!["11".to_string()]));
    assert_eq!(
        error_of(&config, &open_limits()),
        Some(FilterError::InvalidPubkey(ParseKeyError::WrongSize))
    );
    let mut config = empty();
    config.accounts.insert("a".to_string(), accounts_filter(vec!["1".repeat(45)], vec![]));
    assert_eq!(
        error_of(&config, &open_limits()),
        Some(FilterError::InvalidPubkey(ParseKeyError::WrongSize))
    );

    let mut config = empty();
    let mut filter = transactions_filter(vec![]);
    filter.signature = Some(text(&key(1)));
    config.transactions.insert("t".to_string(), filter);
    assert_eq!(
        error_of(&config, &open_limits()),
        Some(FilterError::InvalidSignature(ParseKeyError::WrongSize))
    );
    let mut config = empty();
    let mut filter = transactions_filter(vec![]);
    filter.signature = Some("not base58!".to_string());
    config.transactions.insert("t".to_string(), filter);
    assert_eq!(
        error_of(&config, &open_limits()),
        Some(FilterError::InvalidSignature(ParseKeyError::Invalid))
    );
}

#[test]
fn test_decoding_keys() {
    let bytes: [u8; 32] = [
        3, 1, 4, 1, 5, 9, 2, 6, 5, 3, 5, 8, 9, 7, 9, 3, 2, 3, 8, 4, 6, 2, 6, 4, 3, 3, 8, 3, 2, 7,
        9, 5,
    ];
    let encoded = bs58::encode(bytes).into_string();
    assert_eq!(decode_pubkey(&encoded, &vec![]), Ok(Pubkey::new_from_array(bytes)));
    assert_eq!(
        decode_pubkey("11111111111111111111111111111111", &vec![]),
        Ok(Pubkey::new_from_array([0; 32]))
    );
    assert_eq!(
        decode_pubkey(&encoded, &vec![Pubkey::new_from_array(bytes)]),
        Err(FilterError::LimitsCheck(
            FilterLimitsCheckError::PubkeyRejected {
                pubkey: Pubkey::new_from_array(bytes)
            }
        ))
    );
    // a key that is listed more than once is kept once, where it first stands
    assert_eq!(
        decode_pubkeys(&vec![text(&key(1)), encoded.clone(), text(&key(1))], &vec![]),
        Ok(vec![key(1), Pubkey::new_from_array(bytes)])
    );
    assert_eq!(
        decode_pubkeys(
            &vec![text(&key(2)), text(&key(1)), text(&key(2)), text(&key(2)), text(&key(3))],
            &vec![]
        ),
        Ok(vec![key(2), key(1), key(3)])
    );
    assert_eq!(decode_pubkeys(&vec![], &vec![key(1)]), Ok(vec![]));
    // the first text that is refused decides
    assert_eq!(
        decode_pubkeys(&vec![text(&key(1)), "x".to_string(), "0".to_string()], &vec![key(1)]),
        Err(FilterError::LimitsCheck(
            FilterLimitsCheckError::PubkeyRejected { pubkey: key(1) }
        ))
    );
    assert_eq!(
        decode_pubkeys(&vec!["0".to_string(), text(&key(1))], &vec![key(1)]),
        Err(FilterError::InvalidPubkey(ParseKeyError::Invalid))
    );
}

#[test]
fn test_name_errors_reach_the_filter() {
    let mut config = empty();
    config.slots.insert("a-long-name".to_string(), SubscribeRequestFilterSlots::default());
    let mut short = FilterNames::new(4, 1024, 1000);
    assert_eq!(
        Filter::new(&config, &open_limits(), &mut short).err(),
        Some(FilterError::Name(FilterNameError::NameTooLong {
            limit: 4,
            size: 11
        }))
    );
    let mut config = empty();
    config.slots.insert("a".to_string(), SubscribeRequestFilterSlots::default());
    config.entry.insert("b".to_string(), SubscribeRequestFilterEntry::default());
    let mut small = FilterNames::new(64, 1, 1000);
    assert_eq!(
        Filter::new(&config, &open_limits(), &mut small).err(),
        Some(FilterError::Name(FilterNameError::TooManyNames { limit: 1 }))
    );
    // the name that was interned before the refusal stays interned
    assert_eq!(small.len(), 1);
    // one name used for two kinds is interned once
    let mut config = empty();
    config.slots.insert("a".to_string(), SubscribeRequestFilterSlots::default());
    config.entry.insert("a".to_string(), SubscribeRequestFilterEntry::default());
    let mut small = FilterNames::new(64, 1, 1000);
    assert!(Filter::new(&config, &open_limits(), &mut small).is_ok());
}

#[test]
fn test_first_refusal_decides() {
    // accounts are compiled before slots, and the commitment level comes late
    let mut config = empty();
    config.accounts.insert("a".to_string(), accounts_filter(vec![], vec![]));
    config.commitment = Some(99);
    assert_eq!(
        error_of(&config, &FilterLimits::default()),
        Some(FilterError::LimitsCheck(FilterLimitsCheckError::AnyNotAllowed))
    );
    assert_eq!(
        error_of(&config, &open_limits()),
        Some(FilterError::InvalidCommitment { commitment: 99 })
    );
}

#[test]
fn test_metrics_and_ping() {
    let mut config = empty();
    config.slots.insert("a".to_string(), SubscribeRequestFilterSlots::default());
    config.slots.insert("b".to_string(), SubscribeRequestFilterSlots::default());
    config.entry.insert("c".to_string(), SubscribeRequestFilterEntry::default());
    config.ping = Some(SubscribeRequestPing { id: 7 });
    let filter = Filter::new(&config, &open_limits(), &mut names()).unwrap();
    assert_eq!(
        filter.get_metrics(),
        [
            ("accounts", 0),
            ("slots", 2),
            ("transactions", 0),
            ("transactions_status", 0),
            ("entries", 1),
            ("blocks", 0),
            ("blocks_meta", 0),
            ("all", 3),
        ]
    );
    let pong = filter.get_pong_msg().unwrap();
    assert!(pong.filters.is_empty());
    assert_eq!(
        pong.update_oneof,
        Some(yellowstone_filter::geyser::UpdateOneof::Pong(
            yellowstone_filter::geyser::SubscribeUpdatePong { id: 7 }
        ))
    );
    assert_eq!(Filter::default().get_pong_msg(), None);
    assert_eq!(Filter::default().get_metrics()[7], ("all", 0));
}

#[test]
fn test_filter_map_clone_keeps_names_and_filters() {
    let mut map = FilterMap::new();
    map.insert("a".to_string(), transactions_filter(vec![text(&key(1))]));
    map.insert("b".to_string(), transactions_filter(vec![]));
    map.insert("a".to_string(), transactions_filter(vec![text(&key(2))]));
    let copy = map.clone();
    assert_eq!(copy, map);
    assert_eq!(copy.len(), 2);
    assert_eq!(copy.name(0), "a");
    assert_eq!(copy.filter(0).account_include, vec![text(&key(2))]);
    assert_eq!(copy.name(1), "b");

    let mut config = empty();
    config.transactions = map;
    config.commitment = Some(1);
    let cloned = config.clone();
    assert_eq!(cloned, config);
    let first = Filter::new(&config, &open_limits(), &mut names()).unwrap();
    let second = Filter::new(&cloned, &open_limits(), &mut names()).unwrap();
    assert_eq!(first.get_metrics(), second.get_metrics());
    assert_eq!(second.get_metrics()[2], ("transactions", 2));
}

#[test]
fn test_filter_map_names_stay_apart() {
    let mut map = FilterMap::new();
    for name in ["x", "y", "x", "z", "y", "x"] {
        map.insert(
            name.to_string(),
            SubscribeRequestFilterSlots {
                filter_by_commitment: None,
            },
        );
    }
    assert_eq!(map.len(), 3);
    assert_eq!(map.name(0), "x");
    assert_eq!(map.name(1), "y");
    assert_eq!(map.name(2), "z");
}

#[test]
fn test_filter_map_replaces_by_name() {
    let mut map = FilterMap::new();
    map.insert(
        "a".to_string(),
        SubscribeRequestFilterSlots {
            filter_by_commitment: Some(false),
        },
    );
    map.insert(
        "b".to_string(),
        SubscribeRequestFilterSlots {
            filter_by_commitment: None,
        },
    );
    map.insert(
        "a".to_string(),
        SubscribeRequestFilterSlots {
            filter_by_commitment: Some(true),
        },
    );
    assert_eq!(map.len(), 2);
    assert_eq!(map.name(0), "a");
    assert_eq!(map.filter(0).filter_by_commitment, Some(true));
    assert_eq!(map.name(1), "b");
    assert_eq!(map.filter(1).filter_by_commitment, None);
}
