use std::sync::Arc;
use yellowstone_filter::confirmed_block;
use yellowstone_filter::geyser::{
    SubscribeUpdateAccount, SubscribeUpdateAccountInfo, SubscribeUpdateTransaction,
    SubscribeUpdateTransactionInfo,
};
use yellowstone_filter::scylladb::{
    shard_period, try_signed, try_vec_into, AccountUpdate, BlockchainEventType, CompiledInstr,
    InnerInstr, InnerInstrs, MessageAddrTableLookup, Reward, SinkError, Transaction,
    TransactionMeta, TxTokenBalance, UiTokenAmount, SHARD_OFFSET_MODULO,
};

fn account_update() -> SubscribeUpdateAccount {
    SubscribeUpdateAccount {
        account: Some(SubscribeUpdateAccountInfo {
            pubkey: vec![1; 32],
            lamports: 10,
            owner: vec![2; 32],
            executable: true,
            rent_epoch: u64::MAX,
            data: vec![7, 8, 9],
            write_version: 12,
            txn_signature: Some(vec![3; 64]),
        }),
        slot: 5,
        is_startup: false,
    }
}

fn status_meta() -> confirmed_block::TransactionStatusMeta {
    confirmed_block::TransactionStatusMeta {
        err: Some(confirmed_block::TransactionError { err: vec![9, 9] }),
        fee: 5000,
        pre_balances: vec![1, 2],
        post_balances: vec![3, 4, 5],
        inner_instructions: vec![confirmed_block::InnerInstructions {
            index: 1,
            instructions: vec![confirmed_block::InnerInstruction {
                program_id_index: 2,
                accounts: vec![3],
                data: vec![4],
                stack_height: Some(5),
            }],
        }],
        inner_instructions_none: false,
        log_messages: vec!["log".to_string()],
        log_messages_none: false,
        pre_token_balances: vec![confirmed_block::TokenBalance {
            account_index: 6,
            mint: "mint".to_string(),
            ui_token_amount: Some(confirmed_block::UiTokenAmount {
                ui_amount: 1.5f64.to_bits(),
                decimals: 7,
                amount: "15".to_string(),
                ui_amount_string: "1.5".to_string(),
            }),
            owner: "owner".to_string(),
            program_id: "program".to_string(),
        }],
        post_token_balances: vec![],
        rewards: vec![confirmed_block::Reward {
            pubkey: "p".to_string(),
            lamports: -4,
            post_balance: 8,
            reward_type: 1,
            commission: "c".to_string(),
        }],
        loaded_writable_addresses: vec![],
        loaded_readonly_addresses: vec![],
        return_data: None,
        return_data_none: true,
        compute_units_consumed: Some(1),
    }
}

fn transaction_update() -> SubscribeUpdateTransaction {
    SubscribeUpdateTransaction {
        transaction: Some(SubscribeUpdateTransactionInfo {
            signature: vec![4; 64],
            is_vote: false,
            transaction: Some(Arc::new(confirmed_block::Transaction {
                signatures: vec![vec![4; 64], vec![5; 64]],
                message: Some(confirmed_block::Message {
                    header: Some(confirmed_block::MessageHeader {
                        num_required_signatures: 2,
                        num_readonly_signed_accounts: 1,
                        num_readonly_unsigned_accounts: u32::MAX,
                    }),
                    account_keys: vec![vec![1; 32], vec![2; 32]],
                    recent_blockhash: vec![6; 32],
                    instructions: vec![confirmed_block::CompiledInstruction {
                        program_id_index: 1,
                        accounts: vec![0, 1],
                        data: vec![9],
                    }],
                    versioned: true,
                    address_table_lookups: vec![confirmed_block::MessageAddressTableLookup {
                        account_key: vec![7; 32],
                        writable_indexes: vec![1],
                        readonly_indexes: vec![2, 3],
                    }],
                }),
            })),
            meta: Some(Arc::new(status_meta())),
            index: 3,
        }),
        slot: 77,
    }
}

#[test]
fn test_zero_account() {
    let zero = AccountUpdate::zero_account();
    assert_eq!(zero.slot, 0);
    assert_eq!(zero.pubkey, [0u8; 32]);
    assert_eq!(zero.lamports, 0);
    assert_eq!(zero.owner, [0u8; 32]);
    assert!(!zero.executable);
    assert_eq!(zero.rent_epoch, 0);
    assert_eq!(zero.write_version, 0);
    assert_eq!(zero.data, Vec::<u8>::new());
    assert_eq!(zero.txn_signature, None);
}

#[test]
fn test_event_type_codes() {
    assert_eq!(BlockchainEventType::try_from(0), Ok(BlockchainEventType::AccountUpdate));
    assert_eq!(BlockchainEventType::try_from(1), Ok(BlockchainEventType::NewTransaction));
    assert_eq!(BlockchainEventType::try_from(2), Err(SinkError::UnknownEventType(2)));
    assert_eq!(BlockchainEventType::try_from(-1), Err(SinkError::UnknownEventType(-1)));
    assert_eq!(BlockchainEventType::AccountUpdate.into(), 0);
    assert_eq!(BlockchainEventType::NewTransaction.into(), 1);
}

#[test]
fn test_shard_period() {
    assert_eq!(SHARD_OFFSET_MODULO, 10000);
    assert_eq!(shard_period(0), 0);
    assert_eq!(shard_period(9999), 0);
    assert_eq!(shard_period(10000), 1);
    assert_eq!(shard_period(123456), 12);
    assert_eq!(shard_period(-1), 0);
    assert_eq!(shard_period(-10000), -1);
    assert_eq!(shard_period(-19999), -1);
    assert_eq!(shard_period(i64::MAX), 922337203685477);
    assert_eq!(shard_period(i64::MIN), -922337203685477);
}

#[test]
fn test_account_update_from_wire() {
    let update = AccountUpdate::try_from(account_update()).unwrap();
    assert_eq!(update.slot, 5);
    assert_eq!(update.pubkey, [1u8; 32]);
    assert_eq!(update.lamports, 10);
    assert_eq!(update.owner, [2u8; 32]);
    assert!(update.executable);
    // an unsigned number keeps its bits in a signed column
    assert_eq!(update.rent_epoch, -1);
    assert_eq!(update.write_version, 12);
    assert_eq!(update.data, vec![7, 8, 9]);
    assert_eq!(update.txn_signature, Some(vec![3; 64]));

    let missing = SubscribeUpdateAccount {
        account: None,
        ..account_update()
    };
    assert_eq!(AccountUpdate::try_from(missing).err(), Some(SinkError::MissingAccountUpdate));
    let mut short = account_update();
    short.account.as_mut().unwrap().pubkey = vec![1; 31];
    short.account.as_mut().unwrap().owner = vec![1; 31];
    assert_eq!(AccountUpdate::try_from(short).err(), Some(SinkError::InvalidPubkey));
    let mut long = account_update();
    long.account.as_mut().unwrap().owner = vec![1; 33];
    assert_eq!(AccountUpdate::try_from(long).err(), Some(SinkError::InvalidOwner));
}

#[test]
fn test_account_update_as_event() {
    let update = AccountUpdate::try_from(account_update()).unwrap();
    let row = update.clone().into_row();
    assert_eq!(
        row,
        (5, [1u8; 32], 10, [2u8; 32], true, -1, 12, vec![7, 8, 9], Some(vec![3; 64]))
    );
    let event = update.as_blockchain_event(3, 25001);
    assert_eq!(event.shard_id, 3);
    assert_eq!(event.period, 2);
    assert_eq!(event.offset, 25001);
    assert_eq!(event.slot, 5);
    assert_eq!(event.entry_type, BlockchainEventType::AccountUpdate);
    assert_eq!(event.pubkey, [1u8; 32]);
    assert_eq!(event.lamports, 10);
    assert_eq!(event.owner, [2u8; 32]);
    assert!(event.executable);
    assert_eq!(event.rent_epoch, -1);
    assert_eq!(event.write_version, 12);
    assert_eq!(event.data, vec![7, 8, 9]);
    assert_eq!(event.txn_signature, Some(vec![3; 64]));
    assert!(event.signature.is_empty());
    assert!(event.signatures.is_empty());
    assert_eq!(event.num_required_signatures, 0);
    assert_eq!(event.num_readonly_signed_accounts, 0);
    assert_eq!(event.num_readonly_unsigned_accounts, 0);
    assert!(event.account_keys.is_empty());
    assert!(event.recent_blockhash.is_empty());
    assert!(event.instructions.is_empty());
    assert!(!event.versioned);
    assert!(event.address_table_lookups.is_empty());
    assert_eq!(event.meta.fee, 0);
    assert!(event.meta.error.is_none());
    assert!(event.meta.rewards.is_empty());
}

#[test]
fn test_small_conversions() {
    let lookup = MessageAddrTableLookup::from(&confirmed_block::MessageAddressTableLookup {
        account_key: vec![7; 32],
        writable_indexes: vec![1],
        readonly_indexes: vec![2, 3],
    });
    assert_eq!(lookup.account_key, vec![7; 32]);
    assert_eq!(lookup.writable_indexes, vec![1]);
    assert_eq!(lookup.readonly_indexes, vec![2, 3]);

    let instr = CompiledInstr::from(&confirmed_block::CompiledInstruction {
        program_id_index: u32::MAX,
        accounts: vec![0, 1],
        data: vec![9],
    });
    assert_eq!(instr.program_id_index, 4294967295);
    assert_eq!(instr.accounts, vec![0, 1]);
    assert_eq!(instr.data, vec![9]);

    let inner = InnerInstr::from(&confirmed_block::InnerInstruction {
        program_id_index: 2,
        accounts: vec![3],
        data: vec![4],
        stack_height: Some(u32::MAX),
    });
    assert_eq!(inner.program_id_index, 2);
    assert_eq!(inner.accounts, vec![3]);
    assert_eq!(inner.data, vec![4]);
    assert_eq!(inner.stack_height, Some(4294967295));

    let inners = InnerInstrs::try_from(&status_meta().inner_instructions[0]).unwrap();
    assert_eq!(inners.index, 1);
    assert_eq!(inners.instructions.len(), 1);
    assert_eq!(inners.instructions[0].stack_height, Some(5));

    let amount = UiTokenAmount::from(&confirmed_block::UiTokenAmount {
        ui_amount: 2.25f64.to_bits(),
        decimals: 7,
        amount: "x".to_string(),
        ui_amount_string: "y".to_string(),
    });
    assert_eq!(f64::from_bits(amount.ui_amount), 2.25);
    assert_eq!(amount.decimals, 7);
    assert_eq!(amount.amount, "x");
    assert_eq!(amount.ui_amount_string, "y");

    let balance = TxTokenBalance::from(&status_meta().pre_token_balances[0]);
    assert_eq!(balance.account_index, 6);
    assert_eq!(balance.mint, "mint");
    assert_eq!(balance.owner, "owner");
    assert_eq!(f64::from_bits(balance.ui_token_amount.unwrap().ui_amount), 1.5);

    let reward = Reward::try_from(&status_meta().rewards[0]).unwrap();
    assert_eq!(reward.pubkey, "p");
    assert_eq!(reward.lamports, -4);
    assert_eq!(reward.post_balance, 8);
    assert_eq!(reward.reward_type, 1);
    assert_eq!(reward.commission, "c");
    let mut beyond = status_meta().rewards[0].clone();
    beyond.post_balance = i64::MAX as u64 + 1;
    assert_eq!(Reward::try_from(&beyond).err(), Some(SinkError::OutOfRange));
    beyond.post_balance = i64::MAX as u64;
    assert_eq!(Reward::try_from(&beyond).unwrap().post_balance, i64::MAX);
}

#[test]
fn test_try_vec_into() {
    assert_eq!(try_vec_into(&vec![1u64, 2, 3], try_signed), Ok(vec![1i64, 2, 3]));
    assert_eq!(try_vec_into(&Vec::<u64>::new(), try_signed), Ok(vec![]));
    assert_eq!(
        try_vec_into(&vec![1u64, u64::MAX, 3], try_signed),
        Err(SinkError::OutOfRange)
    );
    assert_eq!(try_signed(&(i64::MAX as u64)), Ok(i64::MAX));
    assert_eq!(try_signed(&(i64::MAX as u64 + 1)), Err(SinkError::OutOfRange));
}

#[test]
fn test_transaction_meta_from_wire() {
    let meta = TransactionMeta::try_from(&status_meta()).unwrap();
    assert_eq!(meta.error, Some(vec![9, 9]));
    assert_eq!(meta.fee, 5000);
    assert_eq!(meta.pre_balances, vec![1, 2]);
    assert_eq!(meta.post_balances, vec![3, 4, 5]);
    assert_eq!(meta.inner_instructions.len(), 1);
    assert_eq!(meta.inner_instructions[0].index, 1);
    assert_eq!(meta.log_messages, vec!["log".to_string()]);
    assert_eq!(meta.pre_token_balances.len(), 1);
    assert_eq!(meta.pre_token_balances[0].mint, "mint");
    assert!(meta.post_token_balances.is_empty());
    assert_eq!(meta.rewards.len(), 1);
    assert_eq!(meta.rewards[0].post_balance, 8);

    let mut bad = status_meta();
    bad.fee = u64::MAX;
    assert_eq!(TransactionMeta::try_from(&bad).err(), Some(SinkError::OutOfRange));
    let mut bad = status_meta();
    bad.pre_balances = vec![0, u64::MAX];
    assert_eq!(TransactionMeta::try_from(&bad).err(), Some(SinkError::OutOfRange));
    let mut bad = status_meta();
    bad.post_balances = vec![u64::MAX];
    assert_eq!(TransactionMeta::try_from(&bad).err(), Some(SinkError::OutOfRange));
    let mut bad = status_meta();
    bad.rewards[0].post_balance = u64::MAX;
    assert_eq!(TransactionMeta::try_from(&bad).err(), Some(SinkError::OutOfRange));

    let empty = TransactionMeta::default();
    assert_eq!(empty.fee, 0);
    assert!(empty.error.is_none());
    assert!(empty.pre_balances.is_empty());
    assert!(empty.log_messages.is_empty());
}

#[test]
fn test_transaction_from_wire() {
    let transaction = Transaction::try_from(transaction_update()).unwrap();
    assert_eq!(transaction.slot, 77);
    assert_eq!(transaction.signature, vec![4; 64]);
    assert_eq!(transaction.signatures, vec![vec![4; 64], vec![5; 64]]);
    assert_eq!(transaction.num_required_signatures, 2);
    assert_eq!(transaction.num_readonly_signed_accounts, 1);
    assert_eq!(transaction.num_readonly_unsigned_accounts, -1);
    assert_eq!(transaction.account_keys, vec![vec![1; 32], vec![2; 32]]);
    assert_eq!(transaction.recent_blockhash, vec![6; 32]);
    assert_eq!(transaction.instructions.len(), 1);
    assert_eq!(transaction.instructions[0].program_id_index, 1);
    assert_eq!(transaction.instructions[0].accounts, vec![0, 1]);
    assert!(transaction.versioned);
    assert_eq!(transaction.address_table_lookups.len(), 1);
    assert_eq!(transaction.address_table_lookups[0].readonly_indexes, vec![2, 3]);
    assert_eq!(transaction.meta.fee, 5000);

    let event = transaction.as_blockchain_event(4, -25001);
    assert_eq!(event.shard_id, 4);
    assert_eq!(event.period, -2);
    assert_eq!(event.offset, -25001);
    assert_eq!(event.slot, 77);
    assert_eq!(event.entry_type, BlockchainEventType::NewTransaction);
    assert_eq!(event.pubkey, [0u8; 32]);
    assert_eq!(event.owner, [0u8; 32]);
    assert_eq!(event.lamports, 0);
    assert!(event.data.is_empty());
    assert_eq!(event.txn_signature, None);
    assert_eq!(event.signature, vec![4; 64]);
    assert_eq!(event.signatures.len(), 2);
    assert_eq!(event.num_required_signatures, 2);
    assert_eq!(event.account_keys.len(), 2);
    assert_eq!(event.instructions.len(), 1);
    assert!(event.versioned);
    assert_eq!(event.meta.fee, 5000);
}

#[test]
fn test_transaction_faults() {
    let mut update = transaction_update();
    update.transaction = None;
    assert_eq!(Transaction::try_from(update).err(), Some(SinkError::MissingTransactionInfo));

    let mut update = transaction_update();
    update.transaction.as_mut().unwrap().meta = None;
    update.transaction.as_mut().unwrap().transaction = None;
    assert_eq!(Transaction::try_from(update).err(), Some(SinkError::MissingTransactionMeta));

    let mut update = transaction_update();
    update.transaction.as_mut().unwrap().transaction = None;
    assert_eq!(Transaction::try_from(update).err(), Some(SinkError::MissingTransaction));

    let mut update = transaction_update();
    update.transaction.as_mut().unwrap().transaction =
        Some(Arc::new(confirmed_block::Transaction::default()));
    assert_eq!(Transaction::try_from(update).err(), Some(SinkError::MissingMessage));

    let mut update = transaction_update();
    update.transaction.as_mut().unwrap().transaction = Some(Arc::new(confirmed_block::Transaction {
        signatures: vec![],
        message: Some(confirmed_block::Message::default()),
    }));
    assert_eq!(Transaction::try_from(update).err(), Some(SinkError::MissingMessageHeader));

    let mut update = transaction_update();
    let mut meta = status_meta();
    meta.fee = u64::MAX;
    update.transaction.as_mut().unwrap().meta = Some(Arc::new(meta));
    assert_eq!(Transaction::try_from(update).err(), Some(SinkError::OutOfRange));
}
