use std::sync::Arc;
use yellowstone_filter::confirmed_block;
use yellowstone_filter::filter::{Filter, FilteredMessage};
use yellowstone_filter::geyser::{
    SubscribeRequest, SubscribeRequestAccountsDataSlice, SubscribeRequestFilterBlocks,
    SubscribeRequestFilterBlocksMeta, SubscribeRequestFilterEntry, SubscribeUpdateBlockMeta,
    UpdateOneof,
};
use yellowstone_filter::keys::{Pubkey, Signature};
use yellowstone_filter::limits::FilterLimits;
use yellowstone_filter::message::{
    Message, MessageAccountInfo, MessageBlock, MessageBlockMeta, MessageEntry,
    MessageTransactionInfo, Timestamp,
};
use yellowstone_filter::name::{FilterName, FilterNames};

fn key(byte: u8) -> Pubkey {
    Pubkey::new_from_array([byte; 32])
}

fn text(key: &Pubkey) -> String {
    bs58::encode(key.to_bytes()).into_string()
}

fn stamp() -> Timestamp {
    Timestamp {
        seconds: 11,
        nanos: 12,
    }
}

fn transaction(index: usize, keys: Vec<Pubkey>) -> Arc<MessageTransactionInfo> {
    Arc::new(MessageTransactionInfo {
        signature: Signature::new_from_array([index as u8; 64]),
        is_vote: false,
        transaction: Arc::new(confirmed_block::Transaction::default()),
        meta: Arc::new(confirmed_block::TransactionStatusMeta::default()),
        index,
        account_keys: keys,
    })
}

fn account(pubkey: Pubkey) -> Arc<MessageAccountInfo> {
    Arc::new(MessageAccountInfo {
        pubkey,
        lamports: 1,
        owner: key(0),
        executable: false,
        rent_epoch: 0,
        data: vec![1, 2, 3, 4],
        write_version: 0,
        txn_signature: None,
    })
}

fn entry(index: usize) -> Arc<MessageEntry> {
    Arc::new(MessageEntry {
        slot: 50,
        index,
        num_hashes: 2,
        hash: yellowstone_filter::keys::Hash { bytes: [4; 32] },
        executed_transaction_count: 1,
        starting_transaction_index: 0,
        created_at: stamp(),
    })
}

fn meta() -> MessageBlockMeta {
    MessageBlockMeta {
        block_meta: SubscribeUpdateBlockMeta {
            slot: 50,
            blockhash: "hash".to_string(),
            rewards: Some(Arc::new(confirmed_block::Rewards::default())),
            block_time: Some(confirmed_block::UnixTimestamp { timestamp: 99 }),
            block_height: Some(confirmed_block::BlockHeight { block_height: 40 }),
            parent_slot: 49,
            parent_blockhash: "parent".to_string(),
            executed_transaction_count: 3,
            entries_count: 2,
        },
        created_at: stamp(),
    }
}

fn block() -> MessageBlock {
    MessageBlock {
        meta: Arc::new(meta()),
        transactions: vec![
            transaction(0, vec![key(1), key(2)]),
            transaction(1, vec![key(3)]),
            transaction(2, vec![key(2)]),
        ],
        updated_account_count: 2,
        accounts: vec![account(key(1)), account(key(2))],
        entries: vec![entry(0), entry(1)],
        created_at: stamp(),
    }
}

fn filter_for(request: &SubscribeRequest) -> Filter {
    let mut limits = FilterLimits::default();
    limits.blocks.account_include_any = true;
    Filter::new(request, &limits, &mut FilterNames::new(64, 1024, 1000)).unwrap()
}

fn blocks_filter(
    keys: Vec<String>,
    transactions: Option<bool>,
    accounts: Option<bool>,
    entries: Option<bool>,
) -> SubscribeRequestFilterBlocks {
    SubscribeRequestFilterBlocks {
        account_include: keys,
        include_transactions: transactions,
        include_accounts: accounts,
        include_entries: entries,
    }
}

#[test]
fn test_block_is_projected_for_each_filter() {
    let mut request = SubscribeRequest::new();
    request.blocks.insert("all".to_string(), blocks_filter(vec![], None, Some(true), Some(true)));
    request.blocks.insert(
        "two".to_string(),
        blocks_filter(vec![text(&key(2))], Some(true), Some(true), None),
    );
    request.blocks.insert(
        "bare".to_string(),
        blocks_filter(vec![text(&key(2))], Some(false), Some(false), Some(false)),
    );
    let filter = filter_for(&request);
    let message = Message::Block(Arc::new(block()));
    let found = filter.get_filters(&message, None);
    assert_eq!(found.len(), 3);

    assert_eq!(found[0].0, vec![FilterName::new("all")]);
    match &found[0].1 {
        FilteredMessage::Block(part) => {
            assert_eq!(part.transactions, block().transactions);
            assert_eq!(part.accounts, block().accounts);
            assert_eq!(part.entries, block().entries);
            assert_eq!(part.updated_account_count, 2);
            assert_eq!(*part.meta, meta());
            assert_eq!(part.created_at, stamp());
        }
        other => panic!("unexpected message {:?}", other),
    }
    assert_eq!(found[1].0, vec![FilterName::new("two")]);
    match &found[1].1 {
        FilteredMessage::Block(part) => {
            assert_eq!(
                part.transactions,
                vec![transaction(0, vec![key(1), key(2)]), transaction(2, vec![key(2)])]
            );
            assert_eq!(part.accounts, vec![account(key(2))]);
            assert!(part.entries.is_empty());
            assert_eq!(part.updated_account_count, 2);
        }
        other => panic!("unexpected message {:?}", other),
    }
    assert_eq!(found[2].0, vec![FilterName::new("bare")]);
    match &found[2].1 {
        FilteredMessage::Block(part) => {
            assert!(part.transactions.is_empty());
            assert!(part.accounts.is_empty());
            assert!(part.entries.is_empty());
            assert_eq!(*part.meta, meta());
        }
        other => panic!("unexpected message {:?}", other),
    }
}

#[test]
fn test_block_parts_default_to_transactions_only() {
    let mut request = SubscribeRequest::new();
    request.blocks.insert("plain".to_string(), blocks_filter(vec![], None, None, None));
    let filter = filter_for(&request);
    let message = Message::Block(Arc::new(block()));
    let found = filter.get_filters(&message, None);
    match &found[0].1 {
        FilteredMessage::Block(part) => {
            assert_eq!(part.transactions.len(), 3);
            assert!(part.accounts.is_empty());
            assert!(part.entries.is_empty());
        }
        other => panic!("unexpected message {:?}", other),
    }
}

#[test]
fn test_block_update_on_the_wire() {
    let mut request = SubscribeRequest::new();
    request.blocks.insert(
        "two".to_string(),
        blocks_filter(vec![text(&key(2))], Some(true), Some(true), Some(true)),
    );
    request.accounts_data_slice = vec![SubscribeRequestAccountsDataSlice {
        offset: 1,
        length: 2,
    }];
    let filter = filter_for(&request);
    let message = Message::Block(Arc::new(block()));
    let updates = filter.get_update(&message, None);
    assert_eq!(updates.len(), 1);
    assert_eq!(updates[0].filters, vec!["two".to_string()]);
    match &updates[0].update_oneof {
        Some(UpdateOneof::Block(update)) => {
            assert_eq!(update.slot, 50);
            assert_eq!(update.blockhash, "hash");
            assert_eq!(update.parent_slot, 49);
            assert_eq!(update.parent_blockhash, "parent");
            assert_eq!(update.rewards, meta().block_meta.rewards);
            assert_eq!(update.block_time, meta().block_meta.block_time);
            assert_eq!(update.block_height, meta().block_meta.block_height);
            assert_eq!(update.executed_transaction_count, 3);
            assert_eq!(update.entries_count, 2);
            assert_eq!(update.updated_account_count, 2);
            assert_eq!(update.transactions.len(), 2);
            assert_eq!(update.transactions[0].signature, vec![0u8; 64]);
            assert_eq!(update.transactions[1].signature, vec![2u8; 64]);
            assert_eq!(update.transactions[1].index, 2);
            assert_eq!(update.accounts.len(), 1);
            assert_eq!(update.accounts[0].pubkey, vec![2u8; 32]);
            assert_eq!(update.accounts[0].data, vec![2, 3]);
            assert_eq!(update.entries.len(), 2);
            assert_eq!(update.entries[1].index, 1);
            assert_eq!(update.entries[1].hash, vec![4u8; 32]);
            assert_eq!(update.entries[1].num_hashes, 2);
        }
        other => panic!("unexpected update {:?}", other),
    }
}

#[test]
fn test_entries_and_block_meta_match_every_filter() {
    let mut request = SubscribeRequest::new();
    request.entry.insert("e1".to_string(), SubscribeRequestFilterEntry::default());
    request.entry.insert("e2".to_string(), SubscribeRequestFilterEntry::default());
    request.blocks_meta.insert("m".to_string(), SubscribeRequestFilterBlocksMeta::default());
    let filter = filter_for(&request);

    let message = Message::Entry(entry(3));
    let updates = filter.get_update(&message, None);
    assert_eq!(updates.len(), 1);
    assert_eq!(updates[0].filters, vec!["e1".to_string(), "e2".to_string()]);
    match &updates[0].update_oneof {
        Some(UpdateOneof::Entry(update)) => {
            assert_eq!(update.slot, 50);
            assert_eq!(update.index, 3);
            assert_eq!(update.num_hashes, 2);
            assert_eq!(update.hash, vec![4u8; 32]);
            assert_eq!(update.executed_transaction_count, 1);
            assert_eq!(update.starting_transaction_index, 0);
        }
        other => panic!("unexpected update {:?}", other),
    }

    let message = Message::BlockMeta(Arc::new(meta()));
    let updates = filter.get_update(&message, None);
    assert_eq!(updates.len(), 1);
    assert_eq!(updates[0].filters, vec!["m".to_string()]);
    assert_eq!(
        updates[0].update_oneof,
        Some(UpdateOneof::BlockMeta(meta().block_meta))
    );
    // no block filter: a block is not sent
    assert!(filter.get_update(&Message::Block(Arc::new(block())), None).is_empty());
    assert_eq!(message.get_slot(), 50);
    assert_eq!(Message::Block(Arc::new(block())).get_slot(), 50);
}
