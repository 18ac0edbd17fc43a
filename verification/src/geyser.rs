//! The messages of the subscription stream: what a client asks for and what
//! a server sends.

use crate::confirmed_block::{
    BlockHeight, Rewards, Transaction, TransactionError, TransactionStatusMeta, UnixTimestamp,
};
use std::sync::Arc;
use vstd::prelude::*;

verus! {

/// Filters of one kind, each under its name. No name occurs twice.
#[derive(Debug, PartialEq, Eq)]
pub struct FilterMap<T> {
    entries: Vec<(String, T)>,
}

/// Whether no two entries have the same name.
pub open spec fn names_unique<T>(entries: Seq<(Seq<char>, T)>) -> bool {
    forall|i: int, j: int|
        0 <= i < j < entries.len() ==> (#[trigger] entries[i]).0 != (#[trigger] entries[j]).0
}

/// Whether `index` is the first place at which `name` stands.
pub open spec fn first_at<T>(entries: Seq<(Seq<char>, T)>, name: Seq<char>, index: int) -> bool {
    &&& 0 <= index < entries.len()
    &&& entries[index].0 == name
    &&& forall|j: int| 0 <= j < index ==> (#[trigger] entries[j]).0 != name
}

/// The entries after `name` was given `value`: the first entry of that name
/// is replaced where it stands, and a new name comes last.
pub open spec fn with_entry<T>(entries: Seq<(Seq<char>, T)>, name: Seq<char>, value: T) -> Seq<
    (Seq<char>, T),
> {
    if exists|index: int| first_at(entries, name, index) {
        entries.update(choose|index: int| first_at(entries, name, index), (name, value))
    } else {
        entries.push((name, value))
    }
}

/// What a list of entries holds: each name as its text, with its filter.
pub closed spec fn entries_view<T>(entries: Seq<(String, T)>) -> Seq<(Seq<char>, T)> {
    entries.map_values(|entry: (String, T)| (entry.0@, entry.1))
}

impl<T> View for FilterMap<T> {
    type V = Seq<(Seq<char>, T)>;

    closed spec fn view(&self) -> Seq<(Seq<char>, T)> {
        entries_view(self.entries@)
    }
}

impl<T> FilterMap<T> {
    /// What every map holds to: no name occurs twice.
    #[verifier::type_invariant]
    pub open spec fn names_differ(self) -> bool {
        names_unique(self@)
    }

    /// No filters.
    pub fn new() -> (res: FilterMap<T>)
        ensures
            res@ == Seq::<(Seq<char>, T)>::empty(),
    {
        let entries: Vec<(String, T)> = Vec::new();
        assert(entries_view(entries@) =~= Seq::empty());
        FilterMap { entries }
    }

    /// The number of filters. No two of them have the same name.
    pub fn len(&self) -> (n: usize)
        ensures
            n == self@.len(),
            names_unique(self@),
    {
        proof {
            use_type_invariant(self);
        }
        self.entries.len()
    }

    /// The name of the entry at `index`.
    pub fn name(&self, index: usize) -> (name: &String)
        requires
            index < self@.len(),
        ensures
            name@ == self@[index as int].0,
    {
        &self.entries[index].0
    }

    /// The filter of the entry at `index`.
    pub fn filter(&self, index: usize) -> (filter: &T)
        requires
            index < self@.len(),
        ensures
            *filter == self@[index as int].1,
    {
        &self.entries[index].1
    }

    /// Puts `value` under `name`, in place of what stood under that name.
    /// The names stay apart.
    pub fn insert(&mut self, name: String, value: T)
        ensures
            final(self)@ == with_entry(old(self)@, name@, value),
            names_unique(final(self)@),
    {
        proof {
            use_type_invariant(&*self);
        }
        let ghost before = self@;
        let mut entries: Vec<(String, T)> = Vec::new();
        assert(entries_view(entries@) =~= Seq::empty());
        std::mem::swap(&mut self.entries, &mut entries);
        let len = entries.len();
        let mut at: usize = len;
        let mut i: usize = 0;
        while i < len && at == len
            invariant
                i <= len,
                at <= len,
                len == entries@.len(),
                entries_view(entries@) == before,
                at == len ==> forall|j: int| 0 <= j < i ==> (#[trigger] before[j]).0 != name@,
                at < len ==> first_at(before, name@, at as int),
            decreases len - i,
        {
            assert(before[i as int].0 == entries@[i as int].0@);
            if entries[i].0 == name {
                at = i;
            }
            i += 1;
        }
        let ghost added = (name@, value);
        if at < len {
            entries.set(at, (name, value));
            proof {
                let updated = before.update(at as int, added);
                assert(entries_view(entries@) =~= updated);
                let chosen = choose|index: int| first_at(before, added.0, index);
                assert(chosen == at) by {
                    if chosen < at {
                        assert(before[chosen].0 != added.0);
                    }
                    if at < chosen {
                        assert(before[at as int].0 != added.0);
                    }
                }
                assert forall|a: int, b: int| 0 <= a < b < updated.len() implies (
                #[trigger] updated[a]).0 != (#[trigger] updated[b]).0 by {
                    assert(before[a].0 != before[b].0);
                }
            }
        } else {
            entries.push((name, value));
            proof {
                let pushed = before.push(added);
                assert(entries_view(entries@) =~= pushed);
                assert(!exists|index: int| first_at(before, added.0, index));
                assert forall|a: int, b: int| 0 <= a < b < pushed.len() implies (
                #[trigger] pushed[a]).0 != (#[trigger] pushed[b]).0 by {
                    if b < before.len() {
                        assert(before[a].0 != before[b].0);
                    } else {
                        assert(before[a].0 != added.0);
                    }
                }
            }
        }
        self.entries = entries;
    }
}

impl<T: Clone> Clone for FilterMap<T> {
    /// A map with the same names in the same order, each with a clone of
    /// its filter.
    fn clone(&self) -> (res: FilterMap<T>)
        ensures
            res@.len() == self@.len(),
            forall|i: int|
                0 <= i < res@.len() ==> (#[trigger] res@[i]).0 == self@[i].0
                    && vstd::pervasive::cloned(self@[i].1, res@[i].1),
    {
        proof {
            use_type_invariant(self);
        }
        let ghost before = self@;
        let mut entries: Vec<(String, T)> = Vec::new();
        let mut i: usize = 0;
        while i < self.entries.len()
            invariant
                i <= self.entries.len(),
                before == entries_view(self.entries@),
                entries@.len() == i,
                forall|j: int|
                    0 <= j < i ==> (#[trigger] entries_view(entries@)[j]).0 == before[j].0
                        && vstd::pervasive::cloned(before[j].1, entries_view(entries@)[j].1),
            decreases self.entries.len() - i,
        {
            let ghost shown = entries_view(entries@);
            let name = self.entries[i].0.clone();
            let filter = self.entries[i].1.clone();
            entries.push((name, filter));
            assert forall|j: int| 0 <= j < i + 1 implies (#[trigger] entries_view(entries@)[j]).0
                == before[j].0 && vstd::pervasive::cloned(
                before[j].1,
                entries_view(entries@)[j].1,
            ) by {
                if j < i {
                    assert(entries_view(entries@)[j] == shown[j]);
                }
            }
            i += 1;
        }
        assert forall|a: int, b: int| 0 <= a < b < entries_view(entries@).len() implies (
        #[trigger] entries_view(entries@)[a]).0 != (#[trigger] entries_view(entries@)[b]).0 by {
            assert(before[a].0 != before[b].0);
        }
        FilterMap { entries }
    }
}

/// A byte literal of a memcmp predicate, in one of its three forms.
#[derive(Clone, Debug, PartialEq, Eq)]
pub enum AccountsFilterMemcmpOneof {
    Bytes(Vec<u8>),
    Base58(String),
    Base64(String),
}

/// Compares account data at `offset` with a byte literal.
#[derive(Clone, Debug, PartialEq, Eq, Default)]
pub struct SubscribeRequestFilterAccountsFilterMemcmp {
    pub offset: u64,
    pub data: Option<AccountsFilterMemcmpOneof>,
}

/// A comparison of an account's balance with a value.
#[derive(Clone, Copy, Debug, PartialEq, Eq)]
pub enum AccountsFilterLamports {
    Eq(u64),
    Ne(u64),
    Lt(u64),
    Gt(u64),
}

/// A predicate on an account's balance.
#[derive(Clone, Copy, Debug, PartialEq, Eq, Default)]
pub struct SubscribeRequestFilterAccountsFilterLamports {
    pub cmp: Option<AccountsFilterLamports>,
}

/// A predicate on an account's data or balance.
#[derive(Clone, Debug, PartialEq, Eq)]
pub enum AccountsFilterDataOneof {
    Memcmp(SubscribeRequestFilterAccountsFilterMemcmp),
    Datasize(u64),
    TokenAccountState(bool),
    Lamports(SubscribeRequestFilterAccountsFilterLamports),
}

/// One entry of the data predicates of an account filter.
#[derive(Clone, Debug, PartialEq, Eq, Default)]
pub struct SubscribeRequestFilterAccountsFilter {
    pub filter: Option<AccountsFilterDataOneof>,
}

/// A filter on account updates.
#[derive(Clone, Debug, PartialEq, Eq, Default)]
pub struct SubscribeRequestFilterAccounts {
    pub account: Vec<String>,
    pub owner: Vec<String>,
    pub filters: Vec<SubscribeRequestFilterAccountsFilter>,
    pub nonempty_txn_signature: Option<bool>,
}

/// A filter on slot updates.
#[derive(Clone, Copy, Debug, PartialEq, Eq, Default)]
pub struct SubscribeRequestFilterSlots {
    pub filter_by_commitment: Option<bool>,
}

/// A filter on transactions.
#[derive(Clone, Debug, PartialEq, Eq, Default)]
pub struct SubscribeRequestFilterTransactions {
    pub vote: Option<bool>,
    pub failed: Option<bool>,
    pub signature: Option<String>,
    pub account_include: Vec<String>,
    pub account_exclude: Vec<String>,
    pub account_required: Vec<String>,
}

/// A filter on blocks.
#[derive(Clone, Debug, PartialEq, Eq, Default)]
pub struct SubscribeRequestFilterBlocks {
    pub account_include: Vec<String>,
    pub include_transactions: Option<bool>,
    pub include_accounts: Option<bool>,
    pub include_entries: Option<bool>,
}

/// A filter on block metadata: every block matches.
#[derive(Clone, Copy, Debug, PartialEq, Eq, Default)]
pub struct SubscribeRequestFilterBlocksMeta {
}

/// A filter on entries: every entry matches.
#[derive(Clone, Copy, Debug, PartialEq, Eq, Default)]
pub struct SubscribeRequestFilterEntry {
}

/// The bytes `offset .. offset + length` of an account's data.
#[derive(Clone, Copy, Debug, PartialEq, Eq, Default)]
pub struct SubscribeRequestAccountsDataSlice {
    pub offset: u64,
    pub length: u64,
}

/// A ping that the server answers with a pong of the same `id`.
#[derive(Clone, Copy, Debug, PartialEq, Eq, Default)]
pub struct SubscribeRequestPing {
    pub id: i32,
}

/// What a client subscribes to.
#[derive(Clone, Debug, PartialEq, Eq)]
pub struct SubscribeRequest {
    pub accounts: FilterMap<SubscribeRequestFilterAccounts>,
    pub slots: FilterMap<SubscribeRequestFilterSlots>,
    pub transactions: FilterMap<SubscribeRequestFilterTransactions>,
    pub transactions_status: FilterMap<SubscribeRequestFilterTransactions>,
    pub blocks: FilterMap<SubscribeRequestFilterBlocks>,
    pub blocks_meta: FilterMap<SubscribeRequestFilterBlocksMeta>,
    pub entry: FilterMap<SubscribeRequestFilterEntry>,
    pub commitment: Option<i32>,
    pub accounts_data_slice: Vec<SubscribeRequestAccountsDataSlice>,
    pub ping: Option<SubscribeRequestPing>,
}

/// The state of an account after a write.
#[derive(Clone, Debug, PartialEq, Eq, Default)]
pub struct SubscribeUpdateAccountInfo {
    pub pubkey: Vec<u8>,
    pub lamports: u64,
    pub owner: Vec<u8>,
    pub executable: bool,
    pub rent_epoch: u64,
    pub data: Vec<u8>,
    pub write_version: u64,
    pub txn_signature: Option<Vec<u8>>,
}

/// An account write in a slot.
#[derive(Clone, Debug, PartialEq, Eq, Default)]
pub struct SubscribeUpdateAccount {
    pub account: Option<SubscribeUpdateAccountInfo>,
    pub slot: u64,
    pub is_startup: bool,
}

/// A change of a slot's status.
#[derive(Clone, Debug, PartialEq, Eq, Default)]
pub struct SubscribeUpdateSlot {
    pub slot: u64,
    pub parent: Option<u64>,
    pub status: i32,
    pub dead_error: Option<String>,
}

/// A transaction with what running it did. The transaction and its meta are
/// shared with the message that they came from.
#[derive(Clone, Debug, PartialEq, Eq, Default)]
pub struct SubscribeUpdateTransactionInfo {
    pub signature: Vec<u8>,
    pub is_vote: bool,
    pub transaction: Option<Arc<Transaction>>,
    pub meta: Option<Arc<TransactionStatusMeta>>,
    pub index: u64,
}

/// A transaction in a slot.
#[derive(Clone, Debug, PartialEq, Eq, Default)]
pub struct SubscribeUpdateTransaction {
    pub transaction: Option<SubscribeUpdateTransactionInfo>,
    pub slot: u64,
}

/// The outcome of a transaction in a slot, without the transaction.
#[derive(Clone, Debug, PartialEq, Eq, Default)]
pub struct SubscribeUpdateTransactionStatus {
    pub slot: u64,
    pub signature: Vec<u8>,
    pub is_vote: bool,
    pub index: u64,
    pub err: Option<TransactionError>,
}

/// An entry of a slot.
#[derive(Clone, Debug, PartialEq, Eq, Default)]
pub struct SubscribeUpdateEntry {
    pub slot: u64,
    pub index: u64,
    pub num_hashes: u64,
    pub hash: Vec<u8>,
    pub executed_transaction_count: u64,
    pub starting_transaction_index: u64,
}

/// The metadata of a block. The rewards are shared with the message that
/// they came from.
#[derive(Clone, Debug, PartialEq, Eq, Default)]
pub struct SubscribeUpdateBlockMeta {
    pub slot: u64,
    pub blockhash: String,
    pub rewards: Option<Arc<Rewards>>,
    pub block_time: Option<UnixTimestamp>,
    pub block_height: Option<BlockHeight>,
    pub parent_slot: u64,
    pub parent_blockhash: String,
    pub executed_transaction_count: u64,
    pub entries_count: u64,
}

/// A block, with the parts of it that the filter asked for.
#[derive(Clone, Debug, PartialEq, Eq, Default)]
pub struct SubscribeUpdateBlock {
    pub slot: u64,
    pub blockhash: String,
    pub rewards: Option<Arc<Rewards>>,
    pub block_time: Option<UnixTimestamp>,
    pub block_height: Option<BlockHeight>,
    pub parent_slot: u64,
    pub parent_blockhash: String,
    pub executed_transaction_count: u64,
    pub transactions: Vec<SubscribeUpdateTransactionInfo>,
    pub updated_account_count: u64,
    pub accounts: Vec<SubscribeUpdateAccountInfo>,
    pub entries_count: u64,
    pub entries: Vec<SubscribeUpdateEntry>,
}

/// A ping from the server.
#[derive(Clone, Copy, Debug, PartialEq, Eq, Default)]
pub struct SubscribeUpdatePing {
}

/// The answer to a ping.
#[derive(Clone, Copy, Debug, PartialEq, Eq, Default)]
pub struct SubscribeUpdatePong {
    pub id: i32,
}

/// The payload of an update.
#[derive(Clone, Debug, PartialEq, Eq)]
pub enum UpdateOneof {
    Account(SubscribeUpdateAccount),
    Slot(SubscribeUpdateSlot),
    Transaction(SubscribeUpdateTransaction),
    TransactionStatus(SubscribeUpdateTransactionStatus),
    Block(SubscribeUpdateBlock),
    Ping(SubscribeUpdatePing),
    Pong(SubscribeUpdatePong),
    BlockMeta(SubscribeUpdateBlockMeta),
    Entry(SubscribeUpdateEntry),
}

/// What a server sends: a payload and the names of the filters that it
/// matched.
#[derive(Clone, Debug, PartialEq, Eq)]
pub struct SubscribeUpdate {
    pub filters: Vec<String>,
    pub update_oneof: Option<UpdateOneof>,
}

impl SubscribeRequest {
    /// A request that subscribes to nothing.
    pub fn new() -> (res: SubscribeRequest)
        ensures
            res.accounts@.len() == 0,
            res.slots@.len() == 0,
            res.transactions@.len() == 0,
            res.transactions_status@.len() == 0,
            res.blocks@.len() == 0,
            res.blocks_meta@.len() == 0,
            res.entry@.len() == 0,
            res.commitment.is_none(),
            res.accounts_data_slice@.len() == 0,
            res.ping.is_none(),
    {
        SubscribeRequest {
            accounts: FilterMap::new(),
            slots: FilterMap::new(),
            transactions: FilterMap::new(),
            transactions_status: FilterMap::new(),
            blocks: FilterMap::new(),
            blocks_meta: FilterMap::new(),
            entry: FilterMap::new(),
            commitment: None,
            accounts_data_slice: Vec::new(),
            ping: None,
        }
    }
}

} // verus!
