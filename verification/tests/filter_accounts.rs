use std::sync::Arc;
use yellowstone_filter::filter::state::{FilterAccountsLamports, FilterAccountsState};
use yellowstone_filter::filter::{Filter, FilterError, FilteredMessage};
use yellowstone_filter::geyser::{
    AccountsFilterDataOneof, AccountsFilterLamports, AccountsFilterMemcmpOneof, FilterMap,
    SubscribeRequest, SubscribeRequestAccountsDataSlice, SubscribeRequestFilterAccounts,
    SubscribeRequestFilterAccountsFilter, SubscribeRequestFilterAccountsFilterLamports,
    SubscribeRequestFilterAccountsFilterMemcmp, UpdateOneof,
};
use yellowstone_filter::keys::{Pubkey, Signature};
use yellowstone_filter::limits::FilterLimits;
use yellowstone_filter::message::{Message, MessageAccount, MessageAccountInfo, Timestamp};
use yellowstone_filter::name::{FilterName, FilterNames};

fn key(byte: u8) -> Pubkey {
    Pubkey::new_from_array([byte; 32])
}

fn text(key: &Pubkey) -> String {
    bs58::encode(key.to_bytes()).into_string()
}

fn names() -> FilterNames {
    FilterNames::new(64, 1024, 1000)
}

fn account(pubkey: Pubkey, owner: Pubkey, data: Vec<u8>, lamports: u64) -> Message {
    Message::Account(MessageAccount {
        account: Arc::new(MessageAccountInfo {
            pubkey,
            lamports,
            owner,
            executable: false,
            rent_epoch: 3,
            data,
            write_version: 9,
            txn_signature: None,
        }),
        slot: 5,
        is_startup: false,
        created_at: Timestamp {
            seconds: 0,
            nanos: 0,
        },
    })
}

fn request(accounts: FilterMap<SubscribeRequestFilterAccounts>) -> SubscribeRequest {
    SubscribeRequest {
        accounts,
        slots: FilterMap::new(),
        transactions: FilterMap::new(),
        transactions_status: FilterMap::new(),
        blocks: FilterMap::new(),
        blocks_meta: FilterMap::new(),
        entry: FilterMap::new(),
        commitment: None,
        accounts_data_slice: Vec::new(),
        ping: None,
    }
}

fn memcmp(offset: u64, data: AccountsFilterMemcmpOneof) -> SubscribeRequestFilterAccountsFilter {
    SubscribeRequestFilterAccountsFilter {
        filter: Some(AccountsFilterDataOneof::Memcmp(
            SubscribeRequestFilterAccountsFilterMemcmp {
                offset,
                data: Some(data),
            },
        )),
    }
}

fn datasize(size: u64) -> SubscribeRequestFilterAccountsFilter {
    SubscribeRequestFilterAccountsFilter {
        filter: Some(AccountsFilterDataOneof::Datasize(size)),
    }
}

fn lamports(cmp: AccountsFilterLamports) -> SubscribeRequestFilterAccountsFilter {
    SubscribeRequestFilterAccountsFilter {
        filter: Some(AccountsFilterDataOneof::Lamports(
            SubscribeRequestFilterAccountsFilterLamports { cmp: Some(cmp) },
        )),
    }
}

fn matched(filter: &Filter, message: &Message) -> Vec<String> {
    let found = filter.get_filters(message, None);
    assert_eq!(found.len(), 1);
    assert!(matches!(found[0].1, FilteredMessage::Account(_)));
    found[0].0.iter().map(|name| name.to_string()).collect()
}

#[test]
fn test_account_filter_yields_names_whose_criteria_hold() {
    let p = key(1);
    let q = key(2);
    let o = key(3);
    let mut accounts = FilterMap::new();
    accounts.insert(
        "by_account".to_string(),
        SubscribeRequestFilterAccounts {
            account: vec![text(&p)],
            owner: vec![],
            filters: vec![],
            nonempty_txn_signature: None,
        },
    );
    accounts.insert(
        "by_owner".to_string(),
        SubscribeRequestFilterAccounts {
            account: vec![],
            owner: vec![text(&o)],
            filters: vec![],
            nonempty_txn_signature: None,
        },
    );
    accounts.insert(
        "both".to_string(),
        SubscribeRequestFilterAccounts {
            account: vec![text(&q), text(&p)],
            owner: vec![text(&o)],
            filters: vec![datasize(2)],
            nonempty_txn_signature: Some(false),
        },
    );
    accounts.insert(
        "other".to_string(),
        SubscribeRequestFilterAccounts {
            account: vec![text(&q)],
            owner: vec![],
            filters: vec![],
            nonempty_txn_signature: None,
        },
    );
    let filter = Filter::new(&request(accounts), &FilterLimits::default(), &mut names()).unwrap();

    assert_eq!(
        matched(&filter, &account(p, o, vec![1, 2], 0)),
        vec!["by_account", "by_owner", "both"]
    );
    assert_eq!(
        matched(&filter, &account(p, o, vec![1, 2, 3], 0)),
        vec!["by_account", "by_owner"]
    );
    assert_eq!(matched(&filter, &account(p, p, vec![1, 2], 0)), vec!["by_account"]);
    assert_eq!(matched(&filter, &account(q, p, vec![], 0)), vec!["other"]);
    assert_eq!(matched(&filter, &account(o, p, vec![], 0)), Vec::<String>::new());
}

#[test]
fn test_account_signature_criterion() {
    let p = key(1);
    let mut accounts = FilterMap::new();
    accounts.insert(
        "with".to_string(),
        SubscribeRequestFilterAccounts {
            account: vec![text(&p)],
            owner: vec![],
            filters: vec![],
            nonempty_txn_signature: Some(true),
        },
    );
    accounts.insert(
        "without".to_string(),
        SubscribeRequestFilterAccounts {
            account: vec![text(&p)],
            owner: vec![],
            filters: vec![],
            nonempty_txn_signature: Some(false),
        },
    );
    let filter = Filter::new(&request(accounts), &FilterLimits::default(), &mut names()).unwrap();
    let unsigned = account(p, p, vec![], 0);
    assert_eq!(matched(&filter, &unsigned), vec!["without"]);
    let signed = Message::Account(MessageAccount {
        account: Arc::new(MessageAccountInfo {
            pubkey: p,
            lamports: 0,
            owner: p,
            executable: false,
            rent_epoch: 0,
            data: vec![],
            write_version: 0,
            txn_signature: Some(Signature::new_from_array([1; 64])),
        }),
        slot: 5,
        is_startup: false,
        created_at: Timestamp {
            seconds: 0,
            nanos: 0,
        },
    });
    assert_eq!(matched(&filter, &signed), vec!["with"]);
}

#[test]
fn test_memcmp_offsets() {
    let data = [10u8, 11, 12, 13];
    let at = |offset: u64, bytes: Vec<u8>| {
        let state =
            FilterAccountsState::new(&vec![memcmp(offset, AccountsFilterMemcmpOneof::Bytes(bytes))])
                .unwrap();
        state.is_match(&data, 0)
    };
    // offset 0
    assert!(at(0, vec![10]));
    assert!(at(0, vec![10, 11, 12, 13]));
    assert!(!at(0, vec![11]));
    // offset len - 1
    assert!(at(3, vec![13]));
    assert!(!at(3, vec![13, 14]));
    // offset len
    assert!(!at(4, vec![13]));
    // offset len + 1
    assert!(!at(5, vec![13]));
    assert!(!at(u64::MAX, vec![13]));
}

#[test]
fn test_memcmp_literal_sizes() {
    let accepted = FilterAccountsState::new(&vec![memcmp(
        0,
        AccountsFilterMemcmpOneof::Bytes(vec![0; 128]),
    )]);
    assert!(accepted.is_ok());
    let rejected = FilterAccountsState::new(&vec![memcmp(
        0,
        AccountsFilterMemcmpOneof::Bytes(vec![0; 129]),
    )]);
    assert_eq!(rejected.err(), Some(FilterError::MemcmpDataTooLarge));

    let base58_175 = FilterAccountsState::new(&vec![memcmp(
        0,
        AccountsFilterMemcmpOneof::Base58("1".repeat(128)),
    )]);
    assert!(base58_175.is_ok());
    let base58_176 = FilterAccountsState::new(&vec![memcmp(
        0,
        AccountsFilterMemcmpOneof::Base58("1".repeat(176)),
    )]);
    assert_eq!(base58_176.err(), Some(FilterError::MemcmpDataTooLarge));
    // 129 zero bytes take 129 characters: the text is short enough, the bytes are too many
    let base58_long = FilterAccountsState::new(&vec![memcmp(
        0,
        AccountsFilterMemcmpOneof::Base58("1".repeat(129)),
    )]);
    assert_eq!(base58_long.err(), Some(FilterError::MemcmpDataTooLarge));

    let base64_172 = FilterAccountsState::new(&vec![memcmp(
        0,
        AccountsFilterMemcmpOneof::Base64("A".repeat(172)),
    )]);
    assert_eq!(base64_172.err(), Some(FilterError::MemcmpDataTooLarge));
    let base64_168 = FilterAccountsState::new(&vec![memcmp(
        0,
        AccountsFilterMemcmpOneof::Base64("A".repeat(168)),
    )]);
    assert!(base64_168.is_ok());
    let base64_173 = FilterAccountsState::new(&vec![memcmp(
        0,
        AccountsFilterMemcmpOneof::Base64("A".repeat(173)),
    )]);
    assert_eq!(base64_173.err(), Some(FilterError::MemcmpDataTooLarge));
}

#[test]
fn test_memcmp_decodes_base58_and_base64() {
    let base58 = FilterAccountsState::new(&vec![memcmp(
        1,
        AccountsFilterMemcmpOneof::Base58("he11owor1d".to_string()),
    )])
    .unwrap();
    let expected = [0x04u8, 0x30, 0x5e, 0x2b, 0x24, 0x73, 0xf0, 0x58];
    let mut data = vec![0xffu8];
    data.extend_from_slice(&expected);
    assert!(base58.is_match(&data, 0));
    // the text itself is not what is compared
    let mut raw = vec![0xffu8];
    raw.extend_from_slice(b"he11owor1d");
    assert!(!base58.is_match(&raw, 0));

    let base64 = FilterAccountsState::new(&vec![memcmp(
        0,
        AccountsFilterMemcmpOneof::Base64("aGVsbG8=".to_string()),
    )])
    .unwrap();
    assert!(base64.is_match(b"hello world", 0));
    assert!(!base64.is_match(b"aGVsbG8=", 0));

    let invalid58 = FilterAccountsState::new(&vec![memcmp(
        0,
        AccountsFilterMemcmpOneof::Base58("0OIl".to_string()),
    )]);
    assert_eq!(invalid58.err(), Some(FilterError::InvalidMemcmpEncoding));
    let invalid64 = FilterAccountsState::new(&vec![memcmp(
        0,
        AccountsFilterMemcmpOneof::Base64("!!!".to_string()),
    )]);
    assert_eq!(invalid64.err(), Some(FilterError::InvalidMemcmpEncoding));
}

#[test]
fn test_account_state_errors() {
    let five = vec![datasize(1), datasize(1), datasize(1), datasize(1), datasize(1)];
    assert_eq!(
        FilterAccountsState::new(&five).err(),
        Some(FilterError::TooManyDataPredicates { max: 4 })
    );
    assert_eq!(
        FilterAccountsState::new(&vec![SubscribeRequestFilterAccountsFilter { filter: None }])
            .err(),
        Some(FilterError::DataPredicateMissing)
    );
    let no_literal = SubscribeRequestFilterAccountsFilter {
        filter: Some(AccountsFilterDataOneof::Memcmp(
            SubscribeRequestFilterAccountsFilterMemcmp {
                offset: 0,
                data: None,
            },
        )),
    };
    assert_eq!(
        FilterAccountsState::new(&vec![no_literal]).err(),
        Some(FilterError::MemcmpDataMissing)
    );
    assert_eq!(
        FilterAccountsState::new(&vec![datasize(1), datasize(2)]).err(),
        Some(FilterError::DatasizeUsedTwice)
    );
    let token_false = SubscribeRequestFilterAccountsFilter {
        filter: Some(AccountsFilterDataOneof::TokenAccountState(false)),
    };
    assert_eq!(
        FilterAccountsState::new(&vec![token_false]).err(),
        Some(FilterError::TokenAccountStateMustBeTrue)
    );
    let no_cmp = SubscribeRequestFilterAccountsFilter {
        filter: Some(AccountsFilterDataOneof::Lamports(
            SubscribeRequestFilterAccountsFilterLamports { cmp: None },
        )),
    };
    assert_eq!(
        FilterAccountsState::new(&vec![no_cmp]).err(),
        Some(FilterError::LamportsCmpMissing)
    );
    // the first refusal decides
    let both = vec![
        SubscribeRequestFilterAccountsFilter { filter: None },
        SubscribeRequestFilterAccountsFilter {
            filter: Some(AccountsFilterDataOneof::TokenAccountState(false)),
        },
    ];
    assert_eq!(
        FilterAccountsState::new(&both).err(),
        Some(FilterError::DataPredicateMissing)
    );
}

#[test]
fn test_account_state_is_empty() {
    assert!(FilterAccountsState::new(&vec![]).unwrap().is_empty());
    assert!(!FilterAccountsState::new(&vec![datasize(0)]).unwrap().is_empty());
    let token = SubscribeRequestFilterAccountsFilter {
        filter: Some(AccountsFilterDataOneof::TokenAccountState(true)),
    };
    assert!(!FilterAccountsState::new(&vec![token]).unwrap().is_empty());
    assert!(FilterAccountsState::new(&vec![]).unwrap().is_match(&[1, 2, 3], 7));
}

#[test]
fn test_datasize_and_lamports() {
    let state = FilterAccountsState::new(&vec![datasize(3)]).unwrap();
    assert!(state.is_match(&[1, 2, 3], 0));
    assert!(!state.is_match(&[1, 2], 0));

    assert!(FilterAccountsLamports::Eq(5).is_match(5));
    assert!(!FilterAccountsLamports::Eq(5).is_match(6));
    assert!(FilterAccountsLamports::Ne(5).is_match(6));
    assert!(!FilterAccountsLamports::Ne(5).is_match(5));
    assert!(FilterAccountsLamports::Lt(5).is_match(4));
    assert!(!FilterAccountsLamports::Lt(5).is_match(5));
    assert!(!FilterAccountsLamports::Lt(5).is_match(6));
    assert!(FilterAccountsLamports::Gt(5).is_match(6));
    assert!(!FilterAccountsLamports::Gt(5).is_match(5));
    assert!(!FilterAccountsLamports::Gt(5).is_match(4));
    assert!(FilterAccountsLamports::Lt(10).is_match(5));
    assert!(!FilterAccountsLamports::Lt(10).is_match(10));
    assert!(FilterAccountsLamports::Gt(10).is_match(11));
    assert!(FilterAccountsLamports::Lt(u64::MAX).is_match(0));
    assert!(!FilterAccountsLamports::Lt(0).is_match(0));
    assert!(!FilterAccountsLamports::Gt(u64::MAX).is_match(u64::MAX));
    assert_eq!(
        FilterAccountsLamports::from(&AccountsFilterLamports::Gt(9)),
        FilterAccountsLamports::Gt(9)
    );

    let both = FilterAccountsState::new(&vec![
        lamports(AccountsFilterLamports::Gt(10)),
        lamports(AccountsFilterLamports::Ne(3)),
    ])
    .unwrap();
    // more than 10 and not 3
    assert!(both.is_match(&[], 11));
    assert!(!both.is_match(&[], 10));
    assert!(!both.is_match(&[], 9));
    assert!(!both.is_match(&[], 3));

    let band = FilterAccountsState::new(&vec![
        lamports(AccountsFilterLamports::Gt(10)),
        lamports(AccountsFilterLamports::Lt(13)),
        lamports(AccountsFilterLamports::Ne(12)),
    ])
    .unwrap();
    assert!(band.is_match(&[], 11));
    assert!(!band.is_match(&[], 12));
    assert!(!band.is_match(&[], 13));
    assert!(!band.is_match(&[], 10));
}

#[test]
fn test_token_account_state() {
    let token = SubscribeRequestFilterAccountsFilter {
        filter: Some(AccountsFilterDataOneof::TokenAccountState(true)),
    };
    let state = FilterAccountsState::new(&vec![token]).unwrap();
    let mut data = vec![0u8; 165];
    assert!(!state.is_match(&data, 0));
    data[108] = 1;
    assert!(state.is_match(&data, 0));
    data[108] = 2;
    assert!(state.is_match(&data, 0));
    // not the length of a token account
    let mut short = vec![0u8; 164];
    short[108] = 1;
    assert!(!state.is_match(&short, 0));
    // a longer account needs the account-type marker
    let mut extended = vec![0u8; 170];
    extended[108] = 1;
    assert!(!state.is_match(&extended, 0));
    extended[165] = 2;
    assert!(state.is_match(&extended, 0));
    extended[165] = 1;
    assert!(!state.is_match(&extended, 0));
    // the length of a multisig is never a token account
    let mut multisig = vec![0u8; 355];
    multisig[108] = 1;
    multisig[165] = 2;
    assert!(!state.is_match(&multisig, 0));
}

#[test]
fn test_owner_with_base58_memcmp() {
    let o = key(7);
    let mut accounts = FilterMap::new();
    accounts.insert(
        "a1".to_string(),
        SubscribeRequestFilterAccounts {
            account: vec![],
            owner: vec![text(&o)],
            filters: vec![memcmp(0, AccountsFilterMemcmpOneof::Base58("11".to_string()))],
            nonempty_txn_signature: None,
        },
    );
    let filter = Filter::new(&request(accounts), &FilterLimits::default(), &mut names()).unwrap();
    // each leading `1` of a base58 text stands for one zero byte
    assert_eq!(bs58::decode("11").into_vec().unwrap(), vec![0u8, 0]);
    assert_eq!(matched(&filter, &account(key(1), o, vec![0, 0, 5], 0)), vec!["a1"]);
    assert_eq!(matched(&filter, &account(key(1), o, vec![0, 1, 5], 0)), Vec::<String>::new());
    assert_eq!(matched(&filter, &account(key(1), o, vec![0], 0)), Vec::<String>::new());
    assert_eq!(matched(&filter, &account(key(1), key(8), vec![0, 0], 0)), Vec::<String>::new());
}

#[test]
fn test_account_update_carries_sliced_data() {
    let p = key(1);
    let mut accounts = FilterMap::new();
    accounts.insert(
        "a".to_string(),
        SubscribeRequestFilterAccounts {
            account: vec![text(&p)],
            owner: vec![],
            filters: vec![],
            nonempty_txn_signature: None,
        },
    );
    let mut config = request(accounts);
    config.accounts_data_slice = vec![
        SubscribeRequestAccountsDataSlice {
            offset: 0,
            length: 2,
        },
        SubscribeRequestAccountsDataSlice {
            offset: 4,
            length: 2,
        },
    ];
    let filter = Filter::new(&config, &FilterLimits::default(), &mut names()).unwrap();
    let message = account(p, key(2), vec![10, 11, 12, 13, 14, 15], 77);
    let updates = filter.get_update(&message, None);
    assert_eq!(updates.len(), 1);
    assert_eq!(updates[0].filters, vec!["a".to_string()]);
    match &updates[0].update_oneof {
        Some(UpdateOneof::Account(update)) => {
            let info = update.account.as_ref().unwrap();
            assert_eq!(info.data, vec![10, 11, 14, 15]);
            assert_eq!(info.pubkey, vec![1u8; 32]);
            assert_eq!(info.owner, vec![2u8; 32]);
            assert_eq!(info.lamports, 77);
            assert_eq!(info.rent_epoch, 3);
            assert_eq!(info.write_version, 9);
            assert_eq!(info.txn_signature, None);
            assert!(!info.executable);
            assert_eq!(update.slot, 5);
            assert!(!update.is_startup);
        }
        other => panic!("unexpected update {:?}", other),
    }
    // an update that matches no filter is not sent
    let other = account(key(9), key(2), vec![10, 11, 12, 13, 14, 15], 77);
    assert!(filter.get_update(&other, None).is_empty());
}

#[test]
fn test_filter_name_handles() {
    let name = FilterName::new("serum");
    assert_eq!(name.as_str(), "serum");
    assert_eq!(name.to_string(), "serum".to_string());
    assert_eq!(name.clone(), name);
    assert_ne!(name, FilterName::new("other"));
}
