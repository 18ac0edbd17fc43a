use std::sync::Arc;
use yellowstone_filter::confirmed_block;
use yellowstone_filter::filter::accounts::{FilterAccounts, FilterAccountsMatch};
use yellowstone_filter::filter::blocks::{FilterBlocks, FilterBlocksInner};
use yellowstone_filter::filter::state::FilterAccountsState;
use yellowstone_filter::filter::transactions::{
    FilterTransactions, FilterTransactionsInner, FilterTransactionsType,
};
use yellowstone_filter::filter::FilterError;
use yellowstone_filter::keys::{
    contains_key, distinct, intersects, is_subset, push_key, Pubkey, Signature,
};
use yellowstone_filter::message::{
    MessageAccountInfo, MessageBlock, MessageBlockMeta, MessageTransactionInfo, Timestamp,
};
use yellowstone_filter::geyser::SubscribeUpdateBlockMeta;
use yellowstone_filter::name::FilterName;

fn key(byte: u8) -> Pubkey {
    Pubkey::new_from_array([byte; 32])
}

fn transaction(keys: Vec<Pubkey>) -> MessageTransactionInfo {
    MessageTransactionInfo {
        signature: Signature::new_from_array([9; 64]),
        is_vote: false,
        transaction: Arc::new(confirmed_block::Transaction {
            signatures: vec![vec![9; 64]],
            message: None,
        }),
        meta: Arc::new(confirmed_block::TransactionStatusMeta::default()),
        index: 0,
        account_keys: keys,
    }
}

fn account(pubkey: Pubkey, owner: Pubkey, data: Vec<u8>) -> MessageAccountInfo {
    MessageAccountInfo {
        pubkey,
        lamports: 5,
        owner,
        executable: false,
        rent_epoch: 0,
        data,
        write_version: 0,
        txn_signature: None,
    }
}

#[test]
fn test_key_lists() {
    let keys = vec![key(1), key(2)];
    assert!(contains_key(&keys, &key(2)));
    assert!(!contains_key(&keys, &key(3)));
    assert!(!contains_key(&vec![], &key(3)));
    assert!(intersects(&keys, &vec![key(3), key(2)]));
    assert!(!intersects(&keys, &vec![key(3)]));
    assert!(!intersects(&keys, &vec![]));
    assert!(!intersects(&vec![], &keys));
    assert!(is_subset(&vec![], &keys));
    assert!(is_subset(&vec![key(2), key(1), key(2)], &keys));
    assert!(!is_subset(&vec![key(2), key(3)], &keys));
    assert!(!is_subset(&keys, &vec![]));
}

#[test]
fn test_keys_are_kept_once() {
    assert_eq!(distinct(&vec![]), vec![]);
    assert_eq!(distinct(&vec![key(1)]), vec![key(1)]);
    assert_eq!(
        distinct(&vec![key(2), key(1), key(2), key(3), key(1), key(1)]),
        vec![key(2), key(1), key(3)]
    );
    let mut keys = vec![key(5)];
    push_key(&mut keys, key(6));
    push_key(&mut keys, key(5));
    push_key(&mut keys, key(6));
    push_key(&mut keys, key(7));
    assert_eq!(keys, vec![key(5), key(6), key(7)]);
}

#[test]
fn test_transaction_criteria_from_keys() {
    let inner = FilterTransactionsInner {
        vote: Some(false),
        failed: None,
        signature: Some(Signature::new_from_array([9; 64])),
        account_include: vec![key(1), key(2)],
        account_exclude: vec![key(3)],
        account_required: vec![key(2)],
    };
    let name = FilterName::new("f");
    assert!(inner.is_match(&name, &transaction(vec![key(2), key(4)])));
    assert!(!inner.is_match(&name, &transaction(vec![key(1), key(4)])));
    assert!(!inner.is_match(&name, &transaction(vec![key(2), key(3)])));
    assert!(!inner.is_match(&name, &transaction(vec![])));
    let mut voted = transaction(vec![key(2)]);
    voted.is_vote = true;
    assert!(!inner.is_match(&name, &voted));
    // the signature asked for is that of the record, whatever the decoded
    // transaction lists
    let mut unsigned = transaction(vec![key(2)]);
    unsigned.transaction = Arc::new(confirmed_block::Transaction::default());
    assert!(inner.is_match(&name, &unsigned));
    let mut other = transaction(vec![key(2)]);
    other.signature = Signature::new_from_array([8; 64]);
    assert!(!inner.is_match(&name, &other));

    let mut filter = FilterTransactions::empty(FilterTransactionsType::TransactionStatus);
    assert_eq!(filter.filter_type(), FilterTransactionsType::TransactionStatus);
    assert_eq!(filter.len(), 0);
    filter.push(FilterName::new("one"), inner.clone());
    filter.push(
        FilterName::new("two"),
        FilterTransactionsInner {
            account_exclude: vec![],
            ..inner
        },
    );
    assert_eq!(filter.len(), 2);
    assert_eq!(
        filter.matched(&transaction(vec![key(2), key(3)])),
        vec![FilterName::new("two")]
    );
    assert_eq!(
        filter.matched(&transaction(vec![key(2)])),
        vec![FilterName::new("one"), FilterName::new("two")]
    );
}

#[test]
fn test_account_index_from_keys() {
    let mut filter = FilterAccounts::empty();
    filter.insert(
        FilterName::new("a"),
        None,
        &vec![key(1), key(2)],
        &vec![],
        FilterAccountsState::new(&vec![]).unwrap(),
    );
    let mut state = FilterAccountsState::new(&vec![]).unwrap();
    assert_eq!(state.add_memcmp(1, vec![7, 8]), Ok(()));
    filter.insert(FilterName::new("b"), Some(false), &vec![], &vec![key(3)], state);
    assert_eq!(filter.len(), 2);

    assert_eq!(
        filter.matched(&account(key(2), key(3), vec![0, 7, 8])),
        vec![FilterName::new("a"), FilterName::new("b")]
    );
    assert_eq!(
        filter.matched(&account(key(2), key(3), vec![7, 8])),
        vec![FilterName::new("a")]
    );
    assert_eq!(
        filter.matched(&account(key(4), key(3), vec![0, 7, 8, 9])),
        vec![FilterName::new("b")]
    );
    assert_eq!(filter.matched(&account(key(4), key(4), vec![0, 7, 8])), vec![]);

    // the four steps of the match procedure
    let update = account(key(2), key(3), vec![0, 7, 8]);
    let mut passed = FilterAccountsMatch::new();
    passed.match_txn_signature(&filter, &update.txn_signature);
    passed.match_account(&filter, &update.pubkey);
    passed.match_owner(&filter, &update.owner);
    passed.match_data_lamports(&filter, &update.data, update.lamports);
    assert_eq!(
        passed.get_filters(&filter),
        vec![FilterName::new("a"), FilterName::new("b")]
    );
    // a criterion that was not looked at counts as failed
    let mut partly = FilterAccountsMatch::new();
    partly.match_account(&filter, &update.pubkey);
    assert_eq!(partly.get_filters(&filter), vec![FilterName::new("a")]);
}

#[test]
fn test_byte_literal_is_sized() {
    let mut state = FilterAccountsState::new(&vec![]).unwrap();
    assert_eq!(state.add_memcmp(0, vec![1; 128]), Ok(()));
    assert_eq!(
        state.add_memcmp(0, vec![1; 129]),
        Err(FilterError::MemcmpDataTooLarge)
    );
    assert!(state.is_match(&[1; 128], 0));
    assert!(!state.is_match(&[1; 127], 0));
    let mut data = [1u8; 128];
    data[127] = 2;
    assert!(!state.is_match(&data, 0));
}

#[test]
fn test_block_criteria_from_keys() {
    let block = MessageBlock {
        meta: Arc::new(MessageBlockMeta {
            block_meta: SubscribeUpdateBlockMeta::default(),
            created_at: Timestamp {
                seconds: 1,
                nanos: 2,
            },
        }),
        transactions: vec![
            Arc::new(transaction(vec![key(1)])),
            Arc::new(transaction(vec![key(2)])),
        ],
        updated_account_count: 9,
        accounts: vec![
            Arc::new(account(key(1), key(0), vec![])),
            Arc::new(account(key(2), key(0), vec![])),
        ],
        entries: vec![],
        created_at: Timestamp {
            seconds: 1,
            nanos: 2,
        },
    };
    let inner = FilterBlocksInner {
        account_include: vec![key(2)],
        include_transactions: None,
        include_accounts: Some(true),
        include_entries: None,
    };
    let part = inner.project(&FilterName::new("b"), &block);
    assert_eq!(part.transactions, vec![block.transactions[1].clone()]);
    assert!(Arc::ptr_eq(&part.transactions[0], &block.transactions[1]));
    assert_eq!(part.accounts, vec![block.accounts[1].clone()]);
    assert!(Arc::ptr_eq(&part.meta, &block.meta));
    assert_eq!(part.updated_account_count, 9);

    let mut filter = FilterBlocks::empty();
    filter.push(FilterName::new("b"), inner);
    assert_eq!(filter.len(), 1);
    let found = filter.matched(&block);
    assert_eq!(found.len(), 1);
    assert_eq!(found[0].0, FilterName::new("b"));
    assert_eq!(found[0].1, part);
}
