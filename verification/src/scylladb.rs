//! The rows that a wide-column store keeps of the stream: account updates
//! and transactions, each in the shape of a common event row.

use crate::confirmed_block::{
    CompiledInstruction, InnerInstruction, InnerInstructions, MessageAddressTableLookup,
    TokenBalance, TransactionStatusMeta,
};
use crate::geyser::{SubscribeUpdateAccount, SubscribeUpdateTransaction};
use crate::keys::Pubkey;
use crate::shared::clone_bytes;
use vstd::prelude::*;

verus! {

/// The number of offsets in one period of a shard.
pub const SHARD_OFFSET_MODULO: i64 = 10000;

pub type ShardId = i16;

pub type ShardPeriod = i64;

pub type ShardOffset = i64;

/// Why a wire update is no row.
#[derive(Clone, Copy, Debug, PartialEq, Eq, Structural)]
pub enum SinkError {
    /// A number that stands for no kind of event.
    UnknownEventType(i16),
    /// An account message without the account.
    MissingAccountUpdate,
    /// An account key that is not 32 bytes long.
    InvalidPubkey,
    /// An owner key that is not 32 bytes long.
    InvalidOwner,
    /// A transaction message without the transaction record.
    MissingTransactionInfo,
    /// A transaction record without its meta.
    MissingTransactionMeta,
    /// A transaction record without the transaction.
    MissingTransaction,
    /// A transaction without its message.
    MissingMessage,
    /// A message without its header.
    MissingMessageHeader,
    /// An unsigned number that a signed column cannot hold.
    OutOfRange,
}

/// The kind of an event row.
#[derive(Clone, Copy, Debug, PartialEq, Eq, Structural)]
pub enum BlockchainEventType {
    AccountUpdate,
    NewTransaction,
}

impl BlockchainEventType {
    /// The number that the kind is stored as.
    pub open spec fn code(self) -> i16 {
        match self {
            BlockchainEventType::AccountUpdate => 0,
            BlockchainEventType::NewTransaction => 1,
        }
    }

    /// The kind that a stored number stands for.
    pub fn try_from(value: i16) -> (res: Result<BlockchainEventType, SinkError>)
        ensures
            match res {
                Ok(kind) => kind.code() == value,
                Err(error) => value != 0 && value != 1 && error == SinkError::UnknownEventType(
                    value,
                ),
            },
    {
        if value == 0 {
            Ok(BlockchainEventType::AccountUpdate)
        } else if value == 1 {
            Ok(BlockchainEventType::NewTransaction)
        } else {
            Err(SinkError::UnknownEventType(value))
        }
    }

    /// The number that the kind is stored as.
    pub fn into(self) -> (code: i16)
        ensures
            code == self.code(),
    {
        match self {
            BlockchainEventType::AccountUpdate => 0,
            BlockchainEventType::NewTransaction => 1,
        }
    }
}

/// The period that an offset of a shard falls into: the offset divided by
/// the number of offsets in a period, rounded towards zero.
pub open spec fn period_of(offset: i64) -> int {
    if offset >= 0 {
        offset as int / SHARD_OFFSET_MODULO as int
    } else {
        -((-(offset as int)) / SHARD_OFFSET_MODULO as int)
    }
}

/// The period that an offset of a shard falls into.
pub fn shard_period(offset: ShardOffset) -> (period: ShardPeriod)
    ensures
        period == period_of(offset),
{
    offset / SHARD_OFFSET_MODULO
}

/// A signed column's value for an unsigned number: the same bits.
pub fn to_signed(value: u64) -> (res: i64)
    ensures
        res == value as i64,
{
    #[verifier::truncate]
    (value as i64)
}

/// A signed column's value for an unsigned 32-bit number: the same bits.
pub fn to_signed32(value: u32) -> (res: i32)
    ensures
        res == value as i32,
{
    #[verifier::truncate]
    (value as i32)
}

/// A signed column's value for an unsigned number, unless the column cannot
/// hold it.
pub fn try_signed(value: &u64) -> (res: Result<i64, SinkError>)
    ensures
        res == if *value <= i64::MAX {
            Ok::<i64, SinkError>(*value as i64)
        } else {
            Err::<i64, SinkError>(SinkError::OutOfRange)
        },
{
    if *value <= 0x7fff_ffff_ffff_ffff {
        Ok(*value as i64)
    } else {
        Err(SinkError::OutOfRange)
    }
}

/// Whether a conversion can turn an item into a value.
pub open spec fn succeeds<T, U, F: Fn(&T) -> Result<U, SinkError>>(convert: F, item: T) -> bool {
    exists|value: U| call_ensures(convert, (&item,), Ok::<U, SinkError>(value))
}

/// Converts each item of a list, in order, and stops at the first item
/// whose conversion fails.
pub fn try_vec_into<T, U, F: Fn(&T) -> Result<U, SinkError>>(items: &Vec<T>, convert: F) -> (res:
    Result<Vec<U>, SinkError>)
    requires
        forall|i: int| 0 <= i < items@.len() ==> call_requires(convert, (&#[trigger] items@[i],)),
    ensures
        match res {
            Ok(out) => {
                &&& out@.len() == items@.len()
                &&& forall|i: int|
                    0 <= i < out@.len() ==> call_ensures(
                        convert,
                        (&items@[i],),
                        Ok::<U, SinkError>(#[trigger] out@[i]),
                    )
            },
            Err(error) => exists|i: int|
                {
                    &&& 0 <= i < items@.len()
                    &&& call_ensures(
                        convert,
                        (&#[trigger] items@[i],),
                        Err::<U, SinkError>(error),
                    )
                    &&& forall|j: int| 0 <= j < i ==> #[trigger] succeeds(convert, items@[j])
                },
        },
{
    let mut out: Vec<U> = Vec::new();
    let mut i: usize = 0;
    while i < items.len()
        invariant
            i <= items.len(),
            out@.len() == i,
            forall|j: int|
                0 <= j < items@.len() ==> call_requires(convert, (&#[trigger] items@[j],)),
            forall|j: int|
                0 <= j < i ==> call_ensures(
                    convert,
                    (&items@[j],),
                    Ok::<U, SinkError>(#[trigger] out@[j]),
                ),
        decreases items.len() - i,
    {
        match convert(&items[i]) {
            Ok(value) => {
                out.push(value);
            },
            Err(error) => {
                assert(call_ensures(convert, (&items@[i as int],), Err::<U, SinkError>(error)));
                assert forall|j: int| 0 <= j < i implies #[trigger] succeeds(
                    convert,
                    items@[j],
                ) by {
                    assert(call_ensures(convert, (&items@[j],), Ok::<U, SinkError>(out@[j])));
                }
                return Err(error);
            },
        }
        i += 1;
    }
    Ok(out)
}

/// The accounts that a message loads from one address table.
#[derive(Debug, Clone)]
pub struct MessageAddrTableLookup {
    pub account_key: Vec<u8>,
    pub writable_indexes: Vec<u8>,
    pub readonly_indexes: Vec<u8>,
}

impl MessageAddrTableLookup {
    /// Whether the row value holds what the wire value holds.
    pub open spec fn holds(self, msg: MessageAddressTableLookup) -> bool {
        &&& self.account_key@ == msg.account_key@
        &&& self.writable_indexes@ == msg.writable_indexes@
        &&& self.readonly_indexes@ == msg.readonly_indexes@
    }

    /// The row value of a wire value.
    pub fn from(msg: &MessageAddressTableLookup) -> (res: MessageAddrTableLookup)
        ensures
            res.holds(*msg),
    {
        MessageAddrTableLookup {
            account_key: clone_bytes(&msg.account_key),
            writable_indexes: clone_bytes(&msg.writable_indexes),
            readonly_indexes: clone_bytes(&msg.readonly_indexes),
        }
    }
}

/// One instruction of a message.
#[derive(Debug, Clone)]
pub struct CompiledInstr {
    pub program_id_index: i64,
    pub accounts: Vec<u8>,
    pub data: Vec<u8>,
}

impl CompiledInstr {
    /// Whether the row value holds what the wire value holds.
    pub open spec fn holds(self, msg: CompiledInstruction) -> bool {
        &&& self.program_id_index == msg.program_id_index
        &&& self.accounts@ == msg.accounts@
        &&& self.data@ == msg.data@
    }

    /// The row value of a wire value.
    pub fn from(compiled_instr: &CompiledInstruction) -> (res: CompiledInstr)
        ensures
            res.holds(*compiled_instr),
    {
        CompiledInstr {
            program_id_index: compiled_instr.program_id_index as i64,
            accounts: clone_bytes(&compiled_instr.accounts),
            data: clone_bytes(&compiled_instr.data),
        }
    }
}

/// One instruction that ran inside another.
#[derive(Debug, Clone)]
pub struct InnerInstr {
    pub program_id_index: i64,
    pub accounts: Vec<u8>,
    pub data: Vec<u8>,
    pub stack_height: Option<i64>,
}

impl InnerInstr {
    /// Whether the row value holds what the wire value holds.
    pub open spec fn holds(self, msg: InnerInstruction) -> bool {
        &&& self.program_id_index == msg.program_id_index
        &&& self.accounts@ == msg.accounts@
        &&& self.data@ == msg.data@
        &&& self.stack_height == match msg.stack_height {
            Some(height) => Some(height as i64),
            None => None,
        }
    }

    /// The row value of a wire value.
    pub fn from(value: &InnerInstruction) -> (res: InnerInstr)
        ensures
            res.holds(*value),
    {
        InnerInstr {
            program_id_index: value.program_id_index as i64,
            accounts: clone_bytes(&value.accounts),
            data: clone_bytes(&value.data),
            stack_height: match value.stack_height {
                Some(height) => Some(height as i64),
                None => None,
            },
        }
    }

    /// The row value of a wire value, as a conversion that cannot fail.
    pub fn try_from(value: &InnerInstruction) -> (res: Result<InnerInstr, SinkError>)
        ensures
            res.is_ok() && res.unwrap().holds(*value),
    {
        Ok(InnerInstr::from(value))
    }
}

/// The instructions that ran inside the instruction at `index`.
#[derive(Debug, Clone)]
pub struct InnerInstrs {
    pub index: i64,
    pub instructions: Vec<InnerInstr>,
}

impl InnerInstrs {
    /// Whether the row value holds what the wire value holds.
    pub open spec fn holds(self, msg: InnerInstructions) -> bool {
        &&& self.index == msg.index
        &&& self.instructions@.len() == msg.instructions@.len()
        &&& forall|i: int|
            0 <= i < self.instructions@.len() ==> (#[trigger] self.instructions@[i]).holds(
                msg.instructions@[i],
            )
    }

    /// The row value of a wire value. It never fails.
    pub fn try_from(value: &InnerInstructions) -> (res: Result<InnerInstrs, SinkError>)
        ensures
            res.is_ok() && res.unwrap().holds(*value),
    {
        match try_vec_into(&value.instructions, InnerInstr::try_from) {
            Ok(instructions) => Ok(InnerInstrs { index: value.index as i64, instructions }),
            Err(error) => Err(error),
        }
    }
}

/// A token amount. `ui_amount` holds the bits of the amount as a 64-bit
/// floating-point number.
#[derive(Debug, Clone)]
pub struct UiTokenAmount {
    pub ui_amount: u64,
    pub decimals: i64,
    pub amount: String,
    pub ui_amount_string: String,
}

impl UiTokenAmount {
    /// The row value of a wire value.
    pub fn from(value: &crate::confirmed_block::UiTokenAmount) -> (res: UiTokenAmount)
        ensures
            res.ui_amount == value.ui_amount,
            res.decimals == value.decimals,
            res.amount == value.amount,
            res.ui_amount_string == value.ui_amount_string,
    {
        UiTokenAmount {
            ui_amount: value.ui_amount,
            decimals: value.decimals as i64,
            amount: value.amount.clone(),
            ui_amount_string: value.ui_amount_string.clone(),
        }
    }
}

/// The token balance of one account of a transaction.
#[derive(Debug, Clone)]
pub struct TxTokenBalance {
    pub account_index: i64,
    pub mint: String,
    pub ui_token_amount: Option<UiTokenAmount>,
    pub owner: String,
}

impl TxTokenBalance {
    /// Whether the row value holds what the wire value holds.
    pub open spec fn holds(self, msg: TokenBalance) -> bool {
        &&& self.account_index == msg.account_index
        &&& self.mint == msg.mint
        &&& self.owner == msg.owner
        &&& self.ui_token_amount.is_some() == msg.ui_token_amount.is_some()
        &&& self.ui_token_amount matches Some(amount) ==> {
            &&& amount.ui_amount == msg.ui_token_amount.unwrap().ui_amount
            &&& amount.decimals == msg.ui_token_amount.unwrap().decimals
            &&& amount.amount == msg.ui_token_amount.unwrap().amount
            &&& amount.ui_amount_string == msg.ui_token_amount.unwrap().ui_amount_string
        }
    }

    /// The row value of a wire value.
    pub fn from(value: &TokenBalance) -> (res: TxTokenBalance)
        ensures
            res.holds(*value),
    {
        TxTokenBalance {
            account_index: value.account_index as i64,
            mint: value.mint.clone(),
            ui_token_amount: match &value.ui_token_amount {
                Some(amount) => Some(UiTokenAmount::from(amount)),
                None => None,
            },
            owner: value.owner.clone(),
        }
    }

    /// The row value of a wire value, as a conversion that cannot fail.
    pub fn try_from(value: &TokenBalance) -> (res: Result<TxTokenBalance, SinkError>)
        ensures
            res.is_ok() && res.unwrap().holds(*value),
    {
        Ok(TxTokenBalance::from(value))
    }
}

/// A reward paid to an account.
#[derive(Debug, Clone)]
pub struct Reward {
    pub pubkey: String,
    pub lamports: i64,
    pub post_balance: i64,
    pub reward_type: i32,
    pub commission: String,
}

impl Reward {
    /// Whether the row value holds what the wire value holds.
    pub open spec fn holds(self, msg: crate::confirmed_block::Reward) -> bool {
        &&& self.pubkey == msg.pubkey
        &&& self.lamports == msg.lamports
        &&& self.post_balance == msg.post_balance
        &&& self.reward_type == msg.reward_type
        &&& self.commission == msg.commission
    }

    /// The row value of a wire value, unless the balance after the reward is
    /// beyond what a signed column holds.
    pub fn try_from(value: &crate::confirmed_block::Reward) -> (res: Result<Reward, SinkError>)
        ensures
            match res {
                Ok(reward) => value.post_balance <= i64::MAX && reward.holds(*value),
                Err(error) => value.post_balance > i64::MAX && error == SinkError::OutOfRange,
            },
    {
        let post_balance = match try_signed(&value.post_balance) {
            Ok(balance) => balance,
            Err(error) => {
                return Err(error);
            },
        };
        Ok(
            Reward {
                pubkey: value.pubkey.clone(),
                lamports: value.lamports,
                post_balance,
                reward_type: value.reward_type,
                commission: value.commission.clone(),
            },
        )
    }
}

/// A copy of a list of byte strings.
pub fn clone_rows(rows: &Vec<Vec<u8>>) -> (res: Vec<Vec<u8>>)
    ensures
        res@.len() == rows@.len(),
        forall|i: int| 0 <= i < res@.len() ==> (#[trigger] res@[i])@ == rows@[i]@,
{
    let mut res: Vec<Vec<u8>> = Vec::new();
    let mut i: usize = 0;
    while i < rows.len()
        invariant
            i <= rows.len(),
            res@.len() == i,
            forall|j: int| 0 <= j < i ==> (#[trigger] res@[j])@ == rows@[j]@,
        decreases rows.len() - i,
    {
        res.push(clone_bytes(&rows[i]));
        i += 1;
    }
    res
}

/// A copy of a list of texts.
pub fn clone_texts(texts: &Vec<String>) -> (res: Vec<String>)
    ensures
        res@ == texts@,
{
    let mut res: Vec<String> = Vec::new();
    let mut i: usize = 0;
    while i < texts.len()
        invariant
            i <= texts.len(),
            res@ == texts@.take(i as int),
        decreases texts.len() - i,
    {
        res.push(texts[i].clone());
        assert(res@ =~= texts@.take(i + 1));
        i += 1;
    }
    assert(texts@.take(i as int) =~= texts@);
    res
}

/// What running a transaction did.
#[derive(Debug, Clone)]
pub struct TransactionMeta {
    pub error: Option<Vec<u8>>,
    pub fee: i64,
    pub pre_balances: Vec<i64>,
    pub post_balances: Vec<i64>,
    pub inner_instructions: Vec<InnerInstrs>,
    pub log_messages: Vec<String>,
    pub pre_token_balances: Vec<TxTokenBalance>,
    pub post_token_balances: Vec<TxTokenBalance>,
    pub rewards: Vec<Reward>,
}

/// Whether a signed column can hold each of the numbers.
pub open spec fn all_in_range(values: Seq<u64>) -> bool {
    forall|i: int| 0 <= i < values.len() ==> #[trigger] values[i] <= i64::MAX
}

/// Whether a signed column can hold the balance after each of the rewards.
pub open spec fn rewards_in_range(rewards: Seq<crate::confirmed_block::Reward>) -> bool {
    forall|i: int| 0 <= i < rewards.len() ==> (#[trigger] rewards[i]).post_balance <= i64::MAX
}

impl TransactionMeta {
    /// Whether `meta` can be stored: the fee, the balances and the balances
    /// after the rewards are all within what a signed column holds.
    pub open spec fn storable(meta: TransactionStatusMeta) -> bool {
        &&& meta.fee <= i64::MAX
        &&& all_in_range(meta.pre_balances@)
        &&& all_in_range(meta.post_balances@)
        &&& rewards_in_range(meta.rewards@)
    }

    /// Whether the row value holds what the wire value holds.
    pub open spec fn holds(self, meta: TransactionStatusMeta) -> bool {
        &&& self.error.is_some() == meta.err.is_some()
        &&& self.error matches Some(error) ==> error@ == meta.err.unwrap().err@
        &&& self.fee == meta.fee
        &&& self.pre_balances@.len() == meta.pre_balances@.len()
        &&& forall|i: int|
            0 <= i < self.pre_balances@.len() ==> #[trigger] self.pre_balances@[i]
                == meta.pre_balances@[i]
        &&& self.post_balances@.len() == meta.post_balances@.len()
        &&& forall|i: int|
            0 <= i < self.post_balances@.len() ==> #[trigger] self.post_balances@[i]
                == meta.post_balances@[i]
        &&& self.inner_instructions@.len() == meta.inner_instructions@.len()
        &&& forall|i: int|
            0 <= i < self.inner_instructions@.len() ==> (
            #[trigger] self.inner_instructions@[i]).holds(meta.inner_instructions@[i])
        &&& self.log_messages@ == meta.log_messages@
        &&& self.pre_token_balances@.len() == meta.pre_token_balances@.len()
        &&& forall|i: int|
            0 <= i < self.pre_token_balances@.len() ==> (
            #[trigger] self.pre_token_balances@[i]).holds(meta.pre_token_balances@[i])
        &&& self.post_token_balances@.len() == meta.post_token_balances@.len()
        &&& forall|i: int|
            0 <= i < self.post_token_balances@.len() ==> (
            #[trigger] self.post_token_balances@[i]).holds(meta.post_token_balances@[i])
        &&& self.rewards@.len() == meta.rewards@.len()
        &&& forall|i: int|
            0 <= i < self.rewards@.len() ==> (#[trigger] self.rewards@[i]).holds(meta.rewards@[i])
    }

    /// The row value of a wire value, unless one of its numbers is beyond
    /// what a signed column holds.
    pub fn try_from(status_meta: &TransactionStatusMeta) -> (res: Result<TransactionMeta, SinkError>)
        ensures
            match res {
                Ok(meta) => TransactionMeta::storable(*status_meta) && meta.holds(*status_meta),
                Err(error) => !TransactionMeta::storable(*status_meta) && error
                    == SinkError::OutOfRange,
            },
    {
        let error = match &status_meta.err {
            Some(err) => Some(clone_bytes(&err.err)),
            None => None,
        };
        let fee = match try_signed(&status_meta.fee) {
            Ok(fee) => fee,
            Err(error) => {
                return Err(error);
            },
        };
        let pre_balances = match try_vec_into(&status_meta.pre_balances, try_signed) {
            Ok(balances) => balances,
            Err(error) => {
                return Err(error);
            },
        };
        let post_balances = match try_vec_into(&status_meta.post_balances, try_signed) {
            Ok(balances) => balances,
            Err(error) => {
                return Err(error);
            },
        };
        let inner_instructions = match try_vec_into(
            &status_meta.inner_instructions,
            InnerInstrs::try_from,
        ) {
            Ok(instructions) => instructions,
            Err(error) => {
                return Err(error);
            },
        };
        let log_messages = clone_texts(&status_meta.log_messages);
        let pre_token_balances = match try_vec_into(
            &status_meta.pre_token_balances,
            TxTokenBalance::try_from,
        ) {
            Ok(balances) => balances,
            Err(error) => {
                return Err(error);
            },
        };
        let post_token_balances = match try_vec_into(
            &status_meta.post_token_balances,
            TxTokenBalance::try_from,
        ) {
            Ok(balances) => balances,
            Err(error) => {
                return Err(error);
            },
        };
        let rewards = match try_vec_into(&status_meta.rewards, Reward::try_from) {
            Ok(rewards) => rewards,
            Err(error) => {
                return Err(error);
            },
        };
        proof {
            assert forall|i: int| 0 <= i < status_meta.pre_balances@.len() implies (
            #[trigger] status_meta.pre_balances@[i]) <= i64::MAX && pre_balances@[i]
                == status_meta.pre_balances@[i] by {
                assert(call_ensures(
                    try_signed,
                    (&status_meta.pre_balances@[i],),
                    Ok::<i64, SinkError>(pre_balances@[i]),
                ));
            }
            assert forall|i: int| 0 <= i < status_meta.post_balances@.len() implies (
            #[trigger] status_meta.post_balances@[i]) <= i64::MAX && post_balances@[i]
                == status_meta.post_balances@[i] by {
                assert(call_ensures(
                    try_signed,
                    (&status_meta.post_balances@[i],),
                    Ok::<i64, SinkError>(post_balances@[i]),
                ));
            }
            assert forall|i: int| 0 <= i < status_meta.rewards@.len() implies (
            #[trigger] status_meta.rewards@[i]).post_balance <= i64::MAX by {
                assert(call_ensures(
                    Reward::try_from,
                    (&status_meta.rewards@[i],),
                    Ok::<Reward, SinkError>(rewards@[i]),
                ));
            }
        }
        Ok(
            TransactionMeta {
                error,
                fee,
                pre_balances,
                post_balances,
                inner_instructions,
                log_messages,
                pre_token_balances,
                post_token_balances,
                rewards,
            },
        )
    }
}

/// A transaction in a slot, as a row.
#[derive(Debug, Clone)]
pub struct Transaction {
    pub slot: i64,
    pub signature: Vec<u8>,
    pub signatures: Vec<Vec<u8>>,
    pub num_required_signatures: i32,
    pub num_readonly_signed_accounts: i32,
    pub num_readonly_unsigned_accounts: i32,
    pub account_keys: Vec<Vec<u8>>,
    pub recent_blockhash: Vec<u8>,
    pub instructions: Vec<CompiledInstr>,
    pub versioned: bool,
    pub address_table_lookups: Vec<MessageAddrTableLookup>,
    pub meta: TransactionMeta,
}

/// The row value of an instruction, as a conversion that cannot fail.
pub fn try_compiled_instr(value: &CompiledInstruction) -> (res: Result<CompiledInstr, SinkError>)
    ensures
        res.is_ok() && res.unwrap().holds(*value),
{
    Ok(CompiledInstr::from(value))
}

/// The row value of an address table lookup, as a conversion that cannot
/// fail.
pub fn try_table_lookup(value: &MessageAddressTableLookup) -> (res: Result<
    MessageAddrTableLookup,
    SinkError,
>)
    ensures
        res.is_ok() && res.unwrap().holds(*value),
{
    Ok(MessageAddrTableLookup::from(value))
}

impl Transaction {
    /// What a wire update lacks to be a row, if anything: the transaction
    /// record, its meta, the transaction, its message, the message's header,
    /// in this order; then numbers within what a signed column holds.
    pub open spec fn fault(value: SubscribeUpdateTransaction) -> Option<SinkError> {
        match value.transaction {
            None => Some(SinkError::MissingTransactionInfo),
            Some(info) => match info.meta {
                None => Some(SinkError::MissingTransactionMeta),
                Some(meta) => match info.transaction {
                    None => Some(SinkError::MissingTransaction),
                    Some(transaction) => match transaction.message {
                        None => Some(SinkError::MissingMessage),
                        Some(message) => match message.header {
                            None => Some(SinkError::MissingMessageHeader),
                            Some(_) => if TransactionMeta::storable(*meta) {
                                None
                            } else {
                                Some(SinkError::OutOfRange)
                            },
                        },
                    },
                },
            },
        }
    }

    /// Whether the row holds what the wire update holds. Unsigned numbers
    /// are stored with the same bits in signed columns.
    pub open spec fn holds(self, value: SubscribeUpdateTransaction) -> bool {
        let info = value.transaction.unwrap();
        let message = info.transaction.unwrap().message.unwrap();
        let header = message.header.unwrap();
        &&& self.slot == value.slot as i64
        &&& self.signature@ == info.signature@
        &&& self.signatures@.len() == info.transaction.unwrap().signatures@.len()
        &&& forall|i: int|
            0 <= i < self.signatures@.len() ==> (#[trigger] self.signatures@[i])@
                == info.transaction.unwrap().signatures@[i]@
        &&& self.num_required_signatures == header.num_required_signatures as i32
        &&& self.num_readonly_signed_accounts == header.num_readonly_signed_accounts as i32
        &&& self.num_readonly_unsigned_accounts == header.num_readonly_unsigned_accounts as i32
        &&& self.account_keys@.len() == message.account_keys@.len()
        &&& forall|i: int|
            0 <= i < self.account_keys@.len() ==> (#[trigger] self.account_keys@[i])@
                == message.account_keys@[i]@
        &&& self.recent_blockhash@ == message.recent_blockhash@
        &&& self.instructions@.len() == message.instructions@.len()
        &&& forall|i: int|
            0 <= i < self.instructions@.len() ==> (#[trigger] self.instructions@[i]).holds(
                message.instructions@[i],
            )
        &&& self.versioned == message.versioned
        &&& self.address_table_lookups@.len() == message.address_table_lookups@.len()
        &&& forall|i: int|
            0 <= i < self.address_table_lookups@.len() ==> (
            #[trigger] self.address_table_lookups@[i]).holds(message.address_table_lookups@[i])
        &&& self.meta.holds(*info.meta.unwrap())
    }

    /// The row of a wire update.
    pub fn try_from(value: SubscribeUpdateTransaction) -> (res: Result<Transaction, SinkError>)
        ensures
            match Transaction::fault(value) {
                Some(error) => res == Err::<Transaction, SinkError>(error),
                None => res.is_ok() && res.unwrap().holds(value),
            },
    {
        let slot = to_signed(value.slot);
        let val_tx = match &value.transaction {
            Some(info) => info,
            None => {
                return Err(SinkError::MissingTransactionInfo);
            },
        };
        let signature = clone_bytes(&val_tx.signature);
        let meta = match &val_tx.meta {
            Some(meta) => meta,
            None => {
                return Err(SinkError::MissingTransactionMeta);
            },
        };
        let tx = match &val_tx.transaction {
            Some(transaction) => transaction,
            None => {
                return Err(SinkError::MissingTransaction);
            },
        };
        let message = match &tx.message {
            Some(message) => message,
            None => {
                return Err(SinkError::MissingMessage);
            },
        };
        let message_header = match &message.header {
            Some(header) => header,
            None => {
                return Err(SinkError::MissingMessageHeader);
            },
        };
        let instructions = match try_vec_into(&message.instructions, try_compiled_instr) {
            Ok(instructions) => instructions,
            Err(error) => {
                return Err(error);
            },
        };
        let address_table_lookups = match try_vec_into(
            &message.address_table_lookups,
            try_table_lookup,
        ) {
            Ok(lookups) => lookups,
            Err(error) => {
                return Err(error);
            },
        };
        let meta = match TransactionMeta::try_from(meta) {
            Ok(meta) => meta,
            Err(error) => {
                return Err(error);
            },
        };
        Ok(
            Transaction {
                slot,
                signature,
                signatures: clone_rows(&tx.signatures),
                num_readonly_signed_accounts: to_signed32(
                    message_header.num_readonly_signed_accounts,
                ),
                num_readonly_unsigned_accounts: to_signed32(
                    message_header.num_readonly_unsigned_accounts,
                ),
                num_required_signatures: to_signed32(message_header.num_required_signatures),
                account_keys: clone_rows(&message.account_keys),
                recent_blockhash: clone_bytes(&message.recent_blockhash),
                instructions,
                versioned: message.versioned,
                address_table_lookups,
                meta,
            },
        )
    }

    /// The event row of the transaction, at an offset of a shard. The
    /// columns of account updates are empty.
    pub fn as_blockchain_event(self, shard_id: ShardId, offset: ShardOffset) -> (res:
        BlockchainEvent)
        ensures
            res.shard_id == shard_id,
            res.period == period_of(offset),
            res.offset == offset,
            res.slot == self.slot,
            res.entry_type == BlockchainEventType::NewTransaction,
            res.pubkey@ == Seq::new(32, |i: int| 0u8),
            res.lamports == 0,
            res.owner@ == Seq::new(32, |i: int| 0u8),
            !res.executable,
            res.rent_epoch == 0,
            res.write_version == 0,
            res.data@.len() == 0,
            res.txn_signature.is_none(),
            res.signature == self.signature,
            res.signatures == self.signatures,
            res.num_required_signatures == self.num_required_signatures,
            res.num_readonly_signed_accounts == self.num_readonly_signed_accounts,
            res.num_readonly_unsigned_accounts == self.num_readonly_unsigned_accounts,
            res.account_keys == self.account_keys,
            res.recent_blockhash == self.recent_blockhash,
            res.instructions == self.instructions,
            res.versioned == self.versioned,
            res.address_table_lookups == self.address_table_lookups,
            res.meta == self.meta,
    {
        let zero: [u8; 32] = [0u8; 32];
        assert(zero@ =~= Seq::new(32, |i: int| 0u8));
        BlockchainEvent {
            shard_id,
            period: shard_period(offset),
            offset,
            slot: self.slot,
            entry_type: BlockchainEventType::NewTransaction,
            pubkey: zero,
            lamports: 0,
            owner: zero,
            executable: false,
            rent_epoch: 0,
            write_version: 0,
            data: Vec::new(),
            txn_signature: None,
            signature: self.signature,
            signatures: self.signatures,
            num_required_signatures: self.num_required_signatures,
            num_readonly_signed_accounts: self.num_readonly_signed_accounts,
            num_readonly_unsigned_accounts: self.num_readonly_unsigned_accounts,
            account_keys: self.account_keys,
            recent_blockhash: self.recent_blockhash,
            instructions: self.instructions,
            versioned: self.versioned,
            address_table_lookups: self.address_table_lookups,
            meta: self.meta,
        }
    }
}

/// An account update, as a row.
#[derive(Debug, Clone)]
pub struct AccountUpdate {
    pub slot: i64,
    pub pubkey: [u8; 32],
    pub lamports: i64,
    pub owner: [u8; 32],
    pub executable: bool,
    pub rent_epoch: i64,
    pub write_version: i64,
    pub data: Vec<u8>,
    pub txn_signature: Option<Vec<u8>>,
}

/// A row of the event log: the common columns, the columns of an account
/// update and the columns of a transaction, of which one group is empty.
#[derive(Debug, Clone)]
pub struct BlockchainEvent {
    pub shard_id: ShardId,
    pub period: ShardPeriod,
    pub offset: ShardOffset,
    pub slot: i64,
    pub entry_type: BlockchainEventType,
    pub pubkey: [u8; 32],
    pub lamports: i64,
    pub owner: [u8; 32],
    pub executable: bool,
    pub rent_epoch: i64,
    pub write_version: i64,
    pub data: Vec<u8>,
    pub txn_signature: Option<Vec<u8>>,
    pub signature: Vec<u8>,
    pub signatures: Vec<Vec<u8>>,
    pub num_required_signatures: i32,
    pub num_readonly_signed_accounts: i32,
    pub num_readonly_unsigned_accounts: i32,
    pub account_keys: Vec<Vec<u8>>,
    pub recent_blockhash: Vec<u8>,
    pub instructions: Vec<CompiledInstr>,
    pub versioned: bool,
    pub address_table_lookups: Vec<MessageAddrTableLookup>,
    pub meta: TransactionMeta,
}

impl AccountUpdate {
    /// What a wire update lacks to be a row, if anything: the account, a key
    /// of 32 bytes, an owner of 32 bytes.
    pub open spec fn fault(value: SubscribeUpdateAccount) -> Option<SinkError> {
        match value.account {
            None => Some(SinkError::MissingAccountUpdate),
            Some(account) => if account.pubkey@.len() != 32 {
                Some(SinkError::InvalidPubkey)
            } else if account.owner@.len() != 32 {
                Some(SinkError::InvalidOwner)
            } else {
                None
            },
        }
    }

    /// Whether the row holds what the wire update holds. Unsigned numbers
    /// are stored with the same bits in signed columns.
    pub open spec fn holds(self, value: SubscribeUpdateAccount) -> bool {
        let account = value.account.unwrap();
        &&& self.slot == value.slot as i64
        &&& self.pubkey@ == account.pubkey@
        &&& self.lamports == account.lamports as i64
        &&& self.owner@ == account.owner@
        &&& self.executable == account.executable
        &&& self.rent_epoch == account.rent_epoch as i64
        &&& self.write_version == account.write_version as i64
        &&& self.data@ == account.data@
        &&& self.txn_signature.is_some() == account.txn_signature.is_some()
        &&& self.txn_signature matches Some(signature) ==> signature@
            == account.txn_signature.unwrap()@
    }

    /// The update of the account with the all-zero key: no balance, no data,
    /// owned by the all-zero key.
    pub fn zero_account() -> (res: AccountUpdate)
        ensures
            res.slot == 0,
            res.pubkey@ == Seq::new(32, |i: int| 0u8),
            res.lamports == 0,
            res.owner@ == Seq::new(32, |i: int| 0u8),
            !res.executable,
            res.rent_epoch == 0,
            res.write_version == 0,
            res.data@.len() == 0,
            res.txn_signature.is_none(),
    {
        let bytes_arr: [u8; 32] = [0u8; 32];
        assert(bytes_arr@ =~= Seq::new(32, |i: int| 0u8));
        AccountUpdate {
            slot: 0,
            pubkey: bytes_arr,
            lamports: 0,
            owner: bytes_arr,
            executable: false,
            rent_epoch: 0,
            write_version: 0,
            data: Vec::new(),
            txn_signature: None,
        }
    }

    /// The row of a wire update.
    pub fn try_from(value: SubscribeUpdateAccount) -> (res: Result<AccountUpdate, SinkError>)
        ensures
            match AccountUpdate::fault(value) {
                Some(error) => res == Err::<AccountUpdate, SinkError>(error),
                None => res.is_ok() && res.unwrap().holds(value),
            },
    {
        let slot = value.slot;
        let acc = match value.account {
            Some(account) => account,
            None => {
                return Err(SinkError::MissingAccountUpdate);
            },
        };
        let pubkey = match Pubkey::from_slice(acc.pubkey.as_slice()) {
            Some(key) => key.bytes,
            None => {
                return Err(SinkError::InvalidPubkey);
            },
        };
        let owner = match Pubkey::from_slice(acc.owner.as_slice()) {
            Some(key) => key.bytes,
            None => {
                return Err(SinkError::InvalidOwner);
            },
        };
        Ok(
            AccountUpdate {
                slot: to_signed(slot),
                pubkey,
                lamports: to_signed(acc.lamports),
                owner,
                executable: acc.executable,
                rent_epoch: to_signed(acc.rent_epoch),
                write_version: to_signed(acc.write_version),
                data: acc.data,
                txn_signature: acc.txn_signature,
            },
        )
    }

    /// The columns of the row, in order.
    pub fn into_row(self) -> (res: (
        i64,
        [u8; 32],
        i64,
        [u8; 32],
        bool,
        i64,
        i64,
        Vec<u8>,
        Option<Vec<u8>>,
    ))
        ensures
            res == (
                self.slot,
                self.pubkey,
                self.lamports,
                self.owner,
                self.executable,
                self.rent_epoch,
                self.write_version,
                self.data,
                self.txn_signature,
            ),
    {
        (
            self.slot,
            self.pubkey,
            self.lamports,
            self.owner,
            self.executable,
            self.rent_epoch,
            self.write_version,
            self.data,
            self.txn_signature,
        )
    }

    /// The event row of the update, at an offset of a shard. The columns of
    /// transactions are empty.
    pub fn as_blockchain_event(self, shard_id: ShardId, offset: ShardOffset) -> (res:
        BlockchainEvent)
        ensures
            res.shard_id == shard_id,
            res.period == period_of(offset),
            res.offset == offset,
            res.slot == self.slot,
            res.entry_type == BlockchainEventType::AccountUpdate,
            res.pubkey == self.pubkey,
            res.lamports == self.lamports,
            res.owner == self.owner,
            res.executable == self.executable,
            res.rent_epoch == self.rent_epoch,
            res.write_version == self.write_version,
            res.data == self.data,
            res.txn_signature == self.txn_signature,
            res.signature@.len() == 0,
            res.signatures@.len() == 0,
            res.num_required_signatures == 0,
            res.num_readonly_signed_accounts == 0,
            res.num_readonly_unsigned_accounts == 0,
            res.account_keys@.len() == 0,
            res.recent_blockhash@.len() == 0,
            res.instructions@.len() == 0,
            !res.versioned,
            res.address_table_lookups@.len() == 0,
            res.meta.error.is_none(),
            res.meta.fee == 0,
            res.meta.pre_balances@.len() == 0,
            res.meta.post_balances@.len() == 0,
            res.meta.inner_instructions@.len() == 0,
            res.meta.log_messages@.len() == 0,
            res.meta.pre_token_balances@.len() == 0,
            res.meta.post_token_balances@.len() == 0,
            res.meta.rewards@.len() == 0,
    {
        BlockchainEvent {
            shard_id,
            period: shard_period(offset),
            offset,
            slot: self.slot,
            entry_type: BlockchainEventType::AccountUpdate,
            pubkey: self.pubkey,
            lamports: self.lamports,
            owner: self.owner,
            executable: self.executable,
            rent_epoch: self.rent_epoch,
            write_version: self.write_version,
            data: self.data,
            txn_signature: self.txn_signature,
            signature: Vec::new(),
            signatures: Vec::new(),
            num_required_signatures: 0,
            num_readonly_signed_accounts: 0,
            num_readonly_unsigned_accounts: 0,
            account_keys: Vec::new(),
            recent_blockhash: Vec::new(),
            instructions: Vec::new(),
            versioned: false,
            address_table_lookups: Vec::new(),
            meta: TransactionMeta::default(),
        }
    }
}

impl Default for MessageAddrTableLookup {
    /// A lookup without content.
    fn default() -> (res: MessageAddrTableLookup)
        ensures
            res.account_key@.len() == 0,
            res.writable_indexes@.len() == 0,
            res.readonly_indexes@.len() == 0,
    {
        MessageAddrTableLookup {
            account_key: Vec::new(),
            writable_indexes: Vec::new(),
            readonly_indexes: Vec::new(),
        }
    }
}

impl Default for CompiledInstr {
    /// An instruction without content.
    fn default() -> (res: CompiledInstr)
        ensures
            res.program_id_index == 0,
            res.accounts@.len() == 0,
            res.data@.len() == 0,
    {
        CompiledInstr { program_id_index: 0, accounts: Vec::new(), data: Vec::new() }
    }
}

impl Default for InnerInstr {
    /// An instruction without content.
    fn default() -> (res: InnerInstr)
        ensures
            res.program_id_index == 0,
            res.accounts@.len() == 0,
            res.data@.len() == 0,
            res.stack_height.is_none(),
    {
        InnerInstr {
            program_id_index: 0,
            accounts: Vec::new(),
            data: Vec::new(),
            stack_height: None,
        }
    }
}

impl Default for InnerInstrs {
    /// No instructions.
    fn default() -> (res: InnerInstrs)
        ensures
            res.index == 0,
            res.instructions@.len() == 0,
    {
        InnerInstrs { index: 0, instructions: Vec::new() }
    }
}

impl Default for UiTokenAmount {
    /// The amount zero, without texts.
    fn default() -> (res: UiTokenAmount)
        ensures
            res.ui_amount == 0,
            res.decimals == 0,
            res.amount@.len() == 0,
            res.ui_amount_string@.len() == 0,
    {
        UiTokenAmount {
            ui_amount: 0,
            decimals: 0,
            amount: String::new(),
            ui_amount_string: String::new(),
        }
    }
}

impl Default for TxTokenBalance {
    /// A balance without content.
    fn default() -> (res: TxTokenBalance)
        ensures
            res.account_index == 0,
            res.mint@.len() == 0,
            res.ui_token_amount.is_none(),
            res.owner@.len() == 0,
    {
        TxTokenBalance {
            account_index: 0,
            mint: String::new(),
            ui_token_amount: None,
            owner: String::new(),
        }
    }
}

impl Default for Reward {
    /// A reward without content.
    fn default() -> (res: Reward)
        ensures
            res.pubkey@.len() == 0,
            res.lamports == 0,
            res.post_balance == 0,
            res.reward_type == 0,
            res.commission@.len() == 0,
    {
        Reward {
            pubkey: String::new(),
            lamports: 0,
            post_balance: 0,
            reward_type: 0,
            commission: String::new(),
        }
    }
}

impl Default for TransactionMeta {
    /// A meta without content.
    fn default() -> (res: TransactionMeta)
        ensures
            res.error.is_none(),
            res.fee == 0,
            res.pre_balances@.len() == 0,
            res.post_balances@.len() == 0,
            res.inner_instructions@.len() == 0,
            res.log_messages@.len() == 0,
            res.pre_token_balances@.len() == 0,
            res.post_token_balances@.len() == 0,
            res.rewards@.len() == 0,
    {
        TransactionMeta {
            error: None,
            fee: 0,
            pre_balances: Vec::new(),
            post_balances: Vec::new(),
            inner_instructions: Vec::new(),
            log_messages: Vec::new(),
            pre_token_balances: Vec::new(),
            post_token_balances: Vec::new(),
            rewards: Vec::new(),
        }
    }
}

} // verus!
