//! The stored form of a confirmed transaction and of the rewards of a block.

use vstd::prelude::*;

verus! {

/// How many signatures and read-only accounts a message has.
#[derive(Clone, Copy, Debug, PartialEq, Eq, Default)]
pub struct MessageHeader {
    pub num_required_signatures: u32,
    pub num_readonly_signed_accounts: u32,
    pub num_readonly_unsigned_accounts: u32,
}

/// One instruction of a message, with its accounts given by index.
#[derive(Clone, Debug, PartialEq, Eq, Default)]
pub struct CompiledInstruction {
    pub program_id_index: u32,
    pub accounts: Vec<u8>,
    pub data: Vec<u8>,
}

/// The accounts that a message loads from one address table.
#[derive(Clone, Debug, PartialEq, Eq, Default)]
pub struct MessageAddressTableLookup {
    pub account_key: Vec<u8>,
    pub writable_indexes: Vec<u8>,
    pub readonly_indexes: Vec<u8>,
}

/// The message of a transaction.
#[derive(Clone, Debug, PartialEq, Eq, Default)]
pub struct Message {
    pub header: Option<MessageHeader>,
    pub account_keys: Vec<Vec<u8>>,
    pub recent_blockhash: Vec<u8>,
    pub instructions: Vec<CompiledInstruction>,
    pub versioned: bool,
    pub address_table_lookups: Vec<MessageAddressTableLookup>,
}

/// A transaction: its signatures and its message.
#[derive(Clone, Debug, PartialEq, Eq, Default)]
pub struct Transaction {
    pub signatures: Vec<Vec<u8>>,
    pub message: Option<Message>,
}

/// The serialized error of a failed transaction.
#[derive(Clone, Debug, PartialEq, Eq, Default)]
pub struct TransactionError {
    pub err: Vec<u8>,
}

/// One instruction that ran inside another.
#[derive(Clone, Debug, PartialEq, Eq, Default)]
pub struct InnerInstruction {
    pub program_id_index: u32,
    pub accounts: Vec<u8>,
    pub data: Vec<u8>,
    pub stack_height: Option<u32>,
}

/// The instructions that ran inside the instruction at `index`.
#[derive(Clone, Debug, PartialEq, Eq, Default)]
pub struct InnerInstructions {
    pub index: u32,
    pub instructions: Vec<InnerInstruction>,
}

/// A token amount. `ui_amount` holds the bits of the amount as a 64-bit
/// floating-point number.
#[derive(Clone, Debug, PartialEq, Eq, Default)]
pub struct UiTokenAmount {
    pub ui_amount: u64,
    pub decimals: u32,
    pub amount: String,
    pub ui_amount_string: String,
}

/// The token balance of one account of a transaction.
#[derive(Clone, Debug, PartialEq, Eq, Default)]
pub struct TokenBalance {
    pub account_index: u32,
    pub mint: String,
    pub ui_token_amount: Option<UiTokenAmount>,
    pub owner: String,
    pub program_id: String,
}

/// A reward paid to an account.
#[derive(Clone, Debug, PartialEq, Eq, Default)]
pub struct Reward {
    pub pubkey: String,
    pub lamports: i64,
    pub post_balance: u64,
    pub reward_type: i32,
    pub commission: String,
}

/// The number of partitions over which rewards are paid.
#[derive(Clone, Copy, Debug, PartialEq, Eq, Default)]
pub struct NumPartitions {
    pub num_partitions: u64,
}

/// The rewards of a block.
#[derive(Clone, Debug, PartialEq, Eq, Default)]
pub struct Rewards {
    pub rewards: Vec<Reward>,
    pub num_partitions: Option<NumPartitions>,
}

/// Seconds since the Unix epoch.
#[derive(Clone, Copy, Debug, PartialEq, Eq, Default)]
pub struct UnixTimestamp {
    pub timestamp: i64,
}

/// The height of a block.
#[derive(Clone, Copy, Debug, PartialEq, Eq, Default)]
pub struct BlockHeight {
    pub block_height: u64,
}

/// What a program returned.
#[derive(Clone, Debug, PartialEq, Eq, Default)]
pub struct ReturnData {
    pub program_id: Vec<u8>,
    pub data: Vec<u8>,
}

/// What running a transaction did.
#[derive(Clone, Debug, PartialEq, Eq, Default)]
pub struct TransactionStatusMeta {
    pub err: Option<TransactionError>,
    pub fee: u64,
    pub pre_balances: Vec<u64>,
    pub post_balances: Vec<u64>,
    pub inner_instructions: Vec<InnerInstructions>,
    pub inner_instructions_none: bool,
    pub log_messages: Vec<String>,
    pub log_messages_none: bool,
    pub pre_token_balances: Vec<TokenBalance>,
    pub post_token_balances: Vec<TokenBalance>,
    pub rewards: Vec<Reward>,
    pub loaded_writable_addresses: Vec<Vec<u8>>,
    pub loaded_readonly_addresses: Vec<Vec<u8>>,
    pub return_data: Option<ReturnData>,
    pub return_data_none: bool,
    pub compute_units_consumed: Option<u64>,
}

} // verus!
