//! A matched message, and the wire update that it is sent as.

use crate::filter::data_slice::{projected, FilterAccountsDataSlice};
use crate::geyser::{
    SubscribeRequestAccountsDataSlice, SubscribeUpdateAccount, SubscribeUpdateAccountInfo,
    SubscribeUpdateBlock, SubscribeUpdateBlockMeta, SubscribeUpdateEntry, SubscribeUpdateSlot,
    SubscribeUpdateTransaction, SubscribeUpdateTransactionInfo, SubscribeUpdateTransactionStatus,
    UpdateOneof,
};
use crate::confirmed_block::TransactionError;
use crate::message::{
    MessageAccount, MessageAccountInfo, MessageBlock, MessageBlockMeta, MessageEntry, MessageSlot,
    MessageTransaction, MessageTransactionInfo,
};
use crate::shared::{clone_bytes, share};
use vstd::prelude::*;

verus! {

/// A message that matched, under the channel that it is sent on. A block is
/// the part of the block that the filter lets through.
#[derive(Debug, Clone)]
pub enum FilteredMessage<'a> {
    Slot(&'a MessageSlot),
    Account(&'a MessageAccount),
    Transaction(&'a MessageTransaction),
    TransactionStatus(&'a MessageTransaction),
    Entry(&'a MessageEntry),
    Block(MessageBlock),
    BlockMeta(&'a MessageBlockMeta),
}

/// Whether `out` is the wire form of an account record whose data is cut to
/// the slices.
pub open spec fn account_proto(
    info: MessageAccountInfo,
    slices: Seq<SubscribeRequestAccountsDataSlice>,
    out: SubscribeUpdateAccountInfo,
) -> bool {
    &&& out.pubkey@ == info.pubkey@
    &&& out.lamports == info.lamports
    &&& out.owner@ == info.owner@
    &&& out.executable == info.executable
    &&& out.rent_epoch == info.rent_epoch
    &&& out.data@ == projected(info.data@, slices)
    &&& out.write_version == info.write_version
    &&& out.txn_signature.is_some() == info.txn_signature.is_some()
    &&& out.txn_signature matches Some(bytes) ==> bytes@ == info.txn_signature.unwrap()@
}

/// Whether `out` is the wire form of a transaction record. It shares the
/// transaction and its meta with the record.
pub open spec fn transaction_proto(
    info: MessageTransactionInfo,
    out: SubscribeUpdateTransactionInfo,
) -> bool {
    &&& out.signature@ == info.signature@
    &&& out.is_vote == info.is_vote
    &&& out.transaction == Some(info.transaction)
    &&& out.meta == Some(info.meta)
    &&& out.index == info.index
}

/// Whether `out` is the wire form of an entry.
pub open spec fn entry_proto(entry: MessageEntry, out: SubscribeUpdateEntry) -> bool {
    &&& out.slot == entry.slot
    &&& out.index == entry.index
    &&& out.num_hashes == entry.num_hashes
    &&& out.hash@ == entry.hash@
    &&& out.executed_transaction_count == entry.executed_transaction_count
    &&& out.starting_transaction_index == entry.starting_transaction_index
}

/// Whether `out` is the wire form of the outcome of a transaction in a
/// slot.
pub open spec fn status_proto(message: MessageTransaction, out: SubscribeUpdateTransactionStatus)
    -> bool {
    &&& out.slot == message.slot
    &&& out.signature@ == message.transaction.signature@
    &&& out.is_vote == message.transaction.is_vote
    &&& out.index == message.transaction.index
    &&& out.err.is_some() == message.transaction.meta.err.is_some()
    &&& out.err matches Some(error) ==> error.err@ == message.transaction.meta.err.unwrap().err@
}

/// Whether `out` is the wire form of a block, its account data cut to the
/// slices.
pub open spec fn block_proto(
    block: MessageBlock,
    slices: Seq<SubscribeRequestAccountsDataSlice>,
    out: SubscribeUpdateBlock,
) -> bool {
    &&& out.slot == block.meta.block_meta.slot
    &&& out.blockhash == block.meta.block_meta.blockhash
    &&& out.rewards == block.meta.block_meta.rewards
    &&& out.block_time == block.meta.block_meta.block_time
    &&& out.block_height == block.meta.block_meta.block_height
    &&& out.parent_slot == block.meta.block_meta.parent_slot
    &&& out.parent_blockhash == block.meta.block_meta.parent_blockhash
    &&& out.executed_transaction_count == block.meta.block_meta.executed_transaction_count
    &&& out.updated_account_count == block.updated_account_count
    &&& out.entries_count == block.meta.block_meta.entries_count
    &&& out.transactions@.len() == block.transactions@.len()
    &&& forall|i: int|
        0 <= i < out.transactions@.len() ==> transaction_proto(
            *block.transactions@[i],
            #[trigger] out.transactions@[i],
        )
    &&& out.accounts@.len() == block.accounts@.len()
    &&& forall|i: int|
        0 <= i < out.accounts@.len() ==> account_proto(
            *block.accounts@[i],
            slices,
            #[trigger] out.accounts@[i],
        )
    &&& out.entries@.len() == block.entries@.len()
    &&& forall|i: int|
        0 <= i < out.entries@.len() ==> entry_proto(*block.entries@[i], #[trigger] out.entries@[i])
}

/// Whether `out` is the wire update of a matched message, account data cut
/// to the slices.
pub open spec fn proto_of(
    message: FilteredMessage,
    slices: Seq<SubscribeRequestAccountsDataSlice>,
    out: UpdateOneof,
) -> bool {
    match message {
        FilteredMessage::Slot(message) => {
            &&& out matches UpdateOneof::Slot(update)
            &&& update.slot == message.slot
            &&& update.parent == message.parent
            &&& update.status == message.status.code()
            &&& update.dead_error == message.dead_error
        },
        FilteredMessage::Account(message) => {
            &&& out matches UpdateOneof::Account(update)
            &&& update.account matches Some(account)
            &&& account_proto(*message.account, slices, account)
            &&& update.slot == message.slot
            &&& update.is_startup == message.is_startup
        },
        FilteredMessage::Transaction(message) => {
            &&& out matches UpdateOneof::Transaction(update)
            &&& update.transaction matches Some(transaction)
            &&& transaction_proto(*message.transaction, transaction)
            &&& update.slot == message.slot
        },
        FilteredMessage::TransactionStatus(message) => {
            &&& out matches UpdateOneof::TransactionStatus(update)
            &&& status_proto(*message, update)
        },
        FilteredMessage::Entry(message) => {
            &&& out matches UpdateOneof::Entry(update)
            &&& entry_proto(*message, update)
        },
        FilteredMessage::Block(message) => {
            &&& out matches UpdateOneof::Block(update)
            &&& block_proto(message, slices, update)
        },
        FilteredMessage::BlockMeta(message) => {
            &&& out matches UpdateOneof::BlockMeta(update)
            &&& update == message.block_meta
        },
    }
}

impl<'a> FilteredMessage<'a> {
    /// The wire form of an account record, its data cut to the slices.
    fn as_proto_account(message: &MessageAccountInfo, data_slice: &FilterAccountsDataSlice) -> (out:
        SubscribeUpdateAccountInfo)
        ensures
            account_proto(*message, data_slice@, out),
    {
        let txn_signature = match &message.txn_signature {
            Some(signature) => Some(signature.to_vec()),
            None => None,
        };
        SubscribeUpdateAccountInfo {
            pubkey: message.pubkey.to_vec(),
            lamports: message.lamports,
            owner: message.owner.to_vec(),
            executable: message.executable,
            rent_epoch: message.rent_epoch,
            data: data_slice.apply(&message.data),
            write_version: message.write_version,
            txn_signature,
        }
    }

    /// The wire form of a transaction record.
    fn as_proto_transaction(message: &MessageTransactionInfo) -> (out:
        SubscribeUpdateTransactionInfo)
        ensures
            transaction_proto(*message, out),
    {
        SubscribeUpdateTransactionInfo {
            signature: message.signature.to_vec(),
            is_vote: message.is_vote,
            transaction: Some(share(&message.transaction)),
            meta: Some(share(&message.meta)),
            index: message.index as u64,
        }
    }

    /// The wire form of an entry.
    fn as_proto_entry(message: &MessageEntry) -> (out: SubscribeUpdateEntry)
        ensures
            entry_proto(*message, out),
    {
        SubscribeUpdateEntry {
            slot: message.slot,
            index: message.index as u64,
            num_hashes: message.num_hashes,
            hash: message.hash.to_vec(),
            executed_transaction_count: message.executed_transaction_count,
            starting_transaction_index: message.starting_transaction_index,
        }
    }

    /// The wire form of the outcome of a transaction in a slot.
    fn as_proto_status(message: &MessageTransaction) -> (out: SubscribeUpdateTransactionStatus)
        ensures
            status_proto(*message, out),
    {
        let err = match &message.transaction.meta.err {
            Some(error) => Some(TransactionError { err: clone_bytes(&error.err) }),
            None => None,
        };
        SubscribeUpdateTransactionStatus {
            slot: message.slot,
            signature: message.transaction.signature.to_vec(),
            is_vote: message.transaction.is_vote,
            index: message.transaction.index as u64,
            err,
        }
    }

    /// The wire form of the metadata of a block.
    fn as_proto_block_meta(message: &MessageBlockMeta) -> (out: SubscribeUpdateBlockMeta)
        ensures
            out == message.block_meta,
    {
        let rewards = match &message.block_meta.rewards {
            Some(rewards) => Some(share(rewards)),
            None => None,
        };
        SubscribeUpdateBlockMeta {
            slot: message.block_meta.slot,
            blockhash: message.block_meta.blockhash.clone(),
            rewards,
            block_time: message.block_meta.block_time,
            block_height: message.block_meta.block_height,
            parent_slot: message.block_meta.parent_slot,
            parent_blockhash: message.block_meta.parent_blockhash.clone(),
            executed_transaction_count: message.block_meta.executed_transaction_count,
            entries_count: message.block_meta.entries_count,
        }
    }

    /// The wire form of a block, its account data cut to the slices.
    fn as_proto_block(message: &MessageBlock, data_slice: &FilterAccountsDataSlice) -> (out:
        SubscribeUpdateBlock)
        ensures
            block_proto(*message, data_slice@, out),
    {
        let mut transactions: Vec<SubscribeUpdateTransactionInfo> = Vec::new();
        let mut i: usize = 0;
        while i < message.transactions.len()
            invariant
                i <= message.transactions.len(),
                transactions@.len() == i,
                forall|j: int|
                    0 <= j < i ==> transaction_proto(
                        *message.transactions@[j],
                        #[trigger] transactions@[j],
                    ),
            decreases message.transactions.len() - i,
        {
            transactions.push(Self::as_proto_transaction(&message.transactions[i]));
            i += 1;
        }
        let mut accounts: Vec<SubscribeUpdateAccountInfo> = Vec::new();
        let mut i: usize = 0;
        while i < message.accounts.len()
            invariant
                i <= message.accounts.len(),
                accounts@.len() == i,
                forall|j: int|
                    0 <= j < i ==> account_proto(
                        *message.accounts@[j],
                        data_slice@,
                        #[trigger] accounts@[j],
                    ),
            decreases message.accounts.len() - i,
        {
            accounts.push(Self::as_proto_account(&message.accounts[i], data_slice));
            i += 1;
        }
        let mut entries: Vec<SubscribeUpdateEntry> = Vec::new();
        let mut i: usize = 0;
        while i < message.entries.len()
            invariant
                i <= message.entries.len(),
                entries@.len() == i,
                forall|j: int|
                    0 <= j < i ==> entry_proto(*message.entries@[j], #[trigger] entries@[j]),
            decreases message.entries.len() - i,
        {
            entries.push(Self::as_proto_entry(&message.entries[i]));
            i += 1;
        }
        let meta = Self::as_proto_block_meta(&message.meta);
        SubscribeUpdateBlock {
            slot: meta.slot,
            blockhash: meta.blockhash,
            rewards: meta.rewards,
            block_time: meta.block_time,
            block_height: meta.block_height,
            parent_slot: meta.parent_slot,
            parent_blockhash: meta.parent_blockhash,
            executed_transaction_count: meta.executed_transaction_count,
            transactions,
            updated_account_count: message.updated_account_count,
            accounts,
            entries_count: meta.entries_count,
            entries,
        }
    }

    /// The wire update that the message is sent as, account data cut to the
    /// slices.
    pub fn as_proto(&self, accounts_data_slice: &FilterAccountsDataSlice) -> (out: UpdateOneof)
        ensures
            proto_of(*self, accounts_data_slice@, out),
    {
        match self {
            FilteredMessage::Slot(message) => {
                let dead_error = match &message.dead_error {
                    Some(error) => Some(error.clone()),
                    None => None,
                };
                UpdateOneof::Slot(
                    SubscribeUpdateSlot {
                        slot: message.slot,
                        parent: message.parent,
                        status: message.status.to_i32(),
                        dead_error,
                    },
                )
            },
            FilteredMessage::Account(message) => UpdateOneof::Account(
                SubscribeUpdateAccount {
                    account: Some(Self::as_proto_account(&message.account, accounts_data_slice)),
                    slot: message.slot,
                    is_startup: message.is_startup,
                },
            ),
            FilteredMessage::Transaction(message) => UpdateOneof::Transaction(
                SubscribeUpdateTransaction {
                    transaction: Some(Self::as_proto_transaction(&message.transaction)),
                    slot: message.slot,
                },
            ),
            FilteredMessage::TransactionStatus(message) => UpdateOneof::TransactionStatus(
                Self::as_proto_status(message),
            ),
            FilteredMessage::Entry(message) => UpdateOneof::Entry(Self::as_proto_entry(message)),
            FilteredMessage::Block(message) => UpdateOneof::Block(
                Self::as_proto_block(message, accounts_data_slice),
            ),
            FilteredMessage::BlockMeta(message) => UpdateOneof::BlockMeta(
                Self::as_proto_block_meta(message),
            ),
        }
    }
}

} // verus!
