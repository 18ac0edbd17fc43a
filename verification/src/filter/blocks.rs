//! Filters on blocks, and the part of a block that each filter lets
//! through.

use crate::filter::error::{
    any_fault, check_any, check_max, check_pubkey_max, compile_fold, decode_pubkeys,
    decoded_keys, lemma_compile_failed, lemma_compile_step, max_fault, named,
    pubkey_max_fault, FilterError, FilterResult, Outcome,
};
use crate::geyser::{FilterMap, SubscribeRequestFilterBlocks};
use crate::keys::{contains_key, intersects, keys_intersect, Pubkey};
use crate::limits::{BlocksInclude, FilterLimits, FilterLimitsBlocks, FilterLimitsCheckError};
use crate::message::{MessageAccountInfo, MessageBlock, MessageEntry, MessageTransactionInfo};
use crate::name::{FilterName, FilterNames, NamesState};
use crate::seqs::{lemma_filter_none, lemma_filter_step};
use crate::shared::share;
use std::sync::Arc;
use vstd::prelude::*;

verus! {

/// The criteria of one block filter.
#[derive(Debug, Clone)]
pub struct FilterBlocksInner {
    pub account_include: Vec<Pubkey>,
    pub include_transactions: Option<bool>,
    pub include_accounts: Option<bool>,
    pub include_entries: Option<bool>,
}

/// One block filter: its name, the keys that it looks for, and the parts of
/// a block that it asks for.
pub ghost struct BlocksEntry {
    pub name: Seq<char>,
    pub account_include: Seq<Pubkey>,
    pub include_transactions: Option<bool>,
    pub include_accounts: Option<bool>,
    pub include_entries: Option<bool>,
}

/// The fault of a part of block updates that is asked for and not handed
/// out.
pub open spec fn include_fault(field: BlocksInclude, requested: Option<bool>, allowed: bool)
    -> Option<FilterError> {
    if allowed || requested != Some(true) {
        None
    } else {
        Some(FilterError::LimitsCheck(FilterLimitsCheckError::IncludeNotAllowed { field }))
    }
}

/// What the server's limits hold against one block filter, if anything: no
/// key at all, too many keys, then transactions, accounts or entries that
/// are asked for and not handed out.
pub open spec fn blocks_limits_fault(limits: FilterLimitsBlocks, filter: SubscribeRequestFilterBlocks)
    -> Option<FilterError> {
    match any_fault(filter.account_include@.len() == 0, limits.account_include_any) {
        Some(error) => Some(error),
        None => match pubkey_max_fault(filter.account_include@.len(), limits.account_include_max) {
            Some(error) => Some(error),
            None => match include_fault(
                BlocksInclude::Transactions,
                filter.include_transactions,
                limits.include_transactions,
            ) {
                Some(error) => Some(error),
                None => match include_fault(
                    BlocksInclude::Accounts,
                    filter.include_accounts,
                    limits.include_accounts,
                ) {
                    Some(error) => Some(error),
                    None => include_fault(
                        BlocksInclude::Entries,
                        filter.include_entries,
                        limits.include_entries,
                    ),
                },
            },
        },
    }
}

/// Compiles one block filter after those in `model`: the limits are held
/// against it, its name is interned and its keys are read, in this order.
pub open spec fn blocks_added(
    limits: FilterLimitsBlocks,
    model: Seq<BlocksEntry>,
    names: NamesState,
    name: Seq<char>,
    filter: SubscribeRequestFilterBlocks,
) -> Outcome<Seq<BlocksEntry>> {
    match blocks_limits_fault(limits, filter) {
        Some(error) => Err((error, names)),
        None => match named(names, name) {
            Err(failure) => Err(failure),
            Ok(state) => match decoded_keys(
                filter.account_include@,
                limits.account_include_reject@,
            ) {
                Err(error) => Err((error, state)),
                Ok(account_include) => Ok(
                    (
                        model.push(
                            BlocksEntry {
                                name,
                                account_include,
                                include_transactions: filter.include_transactions,
                                include_accounts: filter.include_accounts,
                                include_entries: filter.include_entries,
                            },
                        ),
                        state,
                    ),
                ),
            },
        },
    }
}

/// The step that compiles one block filter under the given limits.
pub open spec fn blocks_step(limits: FilterLimitsBlocks) -> spec_fn(
    Seq<BlocksEntry>,
    NamesState,
    Seq<char>,
    SubscribeRequestFilterBlocks,
) -> Outcome<Seq<BlocksEntry>> {
    |
        model: Seq<BlocksEntry>,
        names: NamesState,
        name: Seq<char>,
        filter: SubscribeRequestFilterBlocks,
    |
        blocks_added(limits, model, names, name, filter)
}

/// The block filters that a request asks for, unless there are too many of
/// them or one is refused.
pub open spec fn blocks_compiled(
    configs: Seq<(Seq<char>, SubscribeRequestFilterBlocks)>,
    limits: FilterLimitsBlocks,
    names: NamesState,
) -> Outcome<Seq<BlocksEntry>> {
    match max_fault(configs.len(), limits.max) {
        Some(error) => Err((error, names)),
        None => compile_fold(configs, Seq::empty(), names, blocks_step(limits)),
    }
}

impl BlocksEntry {
    /// Whether the filter lets a transaction through: it looks for no key,
    /// or the transaction touches one of its keys.
    pub open spec fn keeps_transaction(self, transaction: Arc<MessageTransactionInfo>) -> bool {
        self.account_include.len() == 0 || keys_intersect(
            self.account_include,
            transaction.account_keys@,
        )
    }

    /// Whether the filter lets an account write through: it looks for no
    /// key, or the account is one of its keys.
    pub open spec fn keeps_account(self, account: Arc<MessageAccountInfo>) -> bool {
        self.account_include.len() == 0 || self.account_include.contains(account.pubkey)
    }

    /// The test of the filter on transactions.
    pub open spec fn transaction_test(self) -> spec_fn(Arc<MessageTransactionInfo>) -> bool {
        |transaction: Arc<MessageTransactionInfo>| self.keeps_transaction(transaction)
    }

    /// The test of the filter on account writes.
    pub open spec fn account_test(self) -> spec_fn(Arc<MessageAccountInfo>) -> bool {
        |account: Arc<MessageAccountInfo>| self.keeps_account(account)
    }

    /// The transactions of a block that the filter lets through: none where
    /// it asks for none, and else those that pass its test.
    pub open spec fn transactions(self, block: MessageBlock) -> Seq<Arc<MessageTransactionInfo>> {
        if self.include_transactions == Some(false) {
            Seq::empty()
        } else {
            block.transactions@.filter(self.transaction_test())
        }
    }

    /// The account writes of a block that the filter lets through: those
    /// that pass its test where it asks for accounts, and else none.
    pub open spec fn accounts(self, block: MessageBlock) -> Seq<Arc<MessageAccountInfo>> {
        if self.include_accounts == Some(true) {
            block.accounts@.filter(self.account_test())
        } else {
            Seq::empty()
        }
    }

    /// The entries of a block that the filter lets through: all where it
    /// asks for entries, and else none.
    pub open spec fn entries(self, block: MessageBlock) -> Seq<Arc<MessageEntry>> {
        if self.include_entries == Some(true) {
            block.entries@
        } else {
            Seq::empty()
        }
    }

    /// Whether `part` is what the filter lets through of `block`.
    pub open spec fn projects(self, block: MessageBlock, part: MessageBlock) -> bool {
        &&& part.meta == block.meta
        &&& part.transactions@ == self.transactions(block)
        &&& part.updated_account_count == block.updated_account_count
        &&& part.accounts@ == self.accounts(block)
        &&& part.entries@ == self.entries(block)
        &&& part.created_at == block.created_at
    }
}

impl FilterBlocksInner {
    /// The criteria under the name of their filter.
    pub open spec fn named(self, name: Seq<char>) -> BlocksEntry {
        BlocksEntry {
            name,
            account_include: self.account_include@,
            include_transactions: self.include_transactions,
            include_accounts: self.include_accounts,
            include_entries: self.include_entries,
        }
    }

    /// The transactions of a block that the filter lets through.
    fn transactions(&self, block: &MessageBlock, name: Ghost<Seq<char>>) -> (res: Vec<
        Arc<MessageTransactionInfo>,
    >)
        ensures
            res@ == self.named(name@).transactions(*block),
    {
        let mut res: Vec<Arc<MessageTransactionInfo>> = Vec::new();
        match self.include_transactions {
            Some(false) => {
                return res;
            },
            _ => {},
        }
        let ghost test = self.named(name@).transaction_test();
        let mut i: usize = 0;
        proof {
            lemma_filter_none(block.transactions@, test);
        }
        while i < block.transactions.len()
            invariant
                i <= block.transactions.len(),
                test == self.named(name@).transaction_test(),
                res@ == block.transactions@.take(i as int).filter(test),
            decreases block.transactions.len() - i,
        {
            proof {
                lemma_filter_step(block.transactions@, test, i as int);
            }
            let transaction = &block.transactions[i];
            if self.account_include.len() == 0 || intersects(
                &self.account_include,
                &transaction.account_keys,
            ) {
                res.push(share(transaction));
            }
            i += 1;
        }
        assert(block.transactions@.take(i as int) =~= block.transactions@);
        res
    }

    /// The account writes of a block that the filter lets through.
    fn accounts(&self, block: &MessageBlock, name: Ghost<Seq<char>>) -> (res: Vec<
        Arc<MessageAccountInfo>,
    >)
        ensures
            res@ == self.named(name@).accounts(*block),
    {
        let mut res: Vec<Arc<MessageAccountInfo>> = Vec::new();
        match self.include_accounts {
            Some(true) => {},
            _ => {
                return res;
            },
        }
        let ghost test = self.named(name@).account_test();
        let mut i: usize = 0;
        proof {
            lemma_filter_none(block.accounts@, test);
        }
        while i < block.accounts.len()
            invariant
                i <= block.accounts.len(),
                test == self.named(name@).account_test(),
                res@ == block.accounts@.take(i as int).filter(test),
            decreases block.accounts.len() - i,
        {
            proof {
                lemma_filter_step(block.accounts@, test, i as int);
            }
            let account = &block.accounts[i];
            if self.account_include.len() == 0 || contains_key(
                &self.account_include,
                &account.pubkey,
            ) {
                res.push(share(account));
            }
            i += 1;
        }
        assert(block.accounts@.take(i as int) =~= block.accounts@);
        res
    }

    /// The entries of a block that the filter lets through.
    fn entries(&self, block: &MessageBlock, name: Ghost<Seq<char>>) -> (res: Vec<Arc<MessageEntry>>)
        ensures
            res@ == self.named(name@).entries(*block),
    {
        let mut res: Vec<Arc<MessageEntry>> = Vec::new();
        match self.include_entries {
            Some(true) => {},
            _ => {
                return res;
            },
        }
        let mut i: usize = 0;
        while i < block.entries.len()
            invariant
                i <= block.entries.len(),
                res@ == block.entries@.take(i as int),
            decreases block.entries.len() - i,
        {
            res.push(share(&block.entries[i]));
            assert(res@ =~= block.entries@.take(i + 1));
            i += 1;
        }
        assert(block.entries@.take(i as int) =~= block.entries@);
        res
    }

    /// What the filter, which stands under the given name, lets through of
    /// a block.
    pub fn project(&self, name: &FilterName, block: &MessageBlock) -> (part: MessageBlock)
        ensures
            self.named(name@).projects(*block, part),
    {
        let name = Ghost(name@);
        MessageBlock {
            meta: share(&block.meta),
            transactions: self.transactions(block, name),
            updated_account_count: block.updated_account_count,
            accounts: self.accounts(block, name),
            entries: self.entries(block, name),
            created_at: block.created_at,
        }
    }
}

/// The block filters of a subscription.
#[derive(Debug, Clone)]
pub struct FilterBlocks {
    filters: Vec<(FilterName, FilterBlocksInner)>,
}

/// What a list of compiled filters holds.
pub closed spec fn blocks_view(filters: Seq<(FilterName, FilterBlocksInner)>) -> Seq<BlocksEntry> {
    filters.map_values(|entry: (FilterName, FilterBlocksInner)| entry.1.named(entry.0@))
}

impl View for FilterBlocks {
    type V = Seq<BlocksEntry>;

    closed spec fn view(&self) -> Seq<BlocksEntry> {
        blocks_view(self.filters@)
    }
}

/// Holds the server's limits against one block filter.
fn check_blocks_limits(limits: &FilterLimitsBlocks, filter: &SubscribeRequestFilterBlocks) -> (res:
    FilterResult<()>)
    ensures
        match blocks_limits_fault(*limits, *filter) {
            Some(error) => res == Err::<(), FilterError>(error),
            None => res.is_ok(),
        },
{
    match check_any(filter.account_include.len() == 0, limits.account_include_any) {
        Ok(()) => {},
        Err(error) => {
            return Err(error);
        },
    }
    match check_pubkey_max(filter.account_include.len(), limits.account_include_max) {
        Ok(()) => {},
        Err(error) => {
            return Err(error);
        },
    }
    match FilterLimits::check_include(
        BlocksInclude::Transactions,
        filter.include_transactions,
        limits.include_transactions,
    ) {
        Ok(()) => {},
        Err(error) => {
            return Err(FilterError::LimitsCheck(error));
        },
    }
    match FilterLimits::check_include(
        BlocksInclude::Accounts,
        filter.include_accounts,
        limits.include_accounts,
    ) {
        Ok(()) => {},
        Err(error) => {
            return Err(FilterError::LimitsCheck(error));
        },
    }
    match FilterLimits::check_include(
        BlocksInclude::Entries,
        filter.include_entries,
        limits.include_entries,
    ) {
        Ok(()) => Ok(()),
        Err(error) => Err(FilterError::LimitsCheck(error)),
    }
}

impl FilterBlocks {
    /// No filters.
    pub fn empty() -> (res: FilterBlocks)
        ensures
            res@ == Seq::<BlocksEntry>::empty(),
    {
        let res = FilterBlocks { filters: Vec::new() };
        assert(res@ =~= Seq::empty());
        res
    }

    /// The number of filters.
    pub fn len(&self) -> (n: usize)
        ensures
            n == self@.len(),
    {
        self.filters.len()
    }

    /// Adds a filter: its criteria, already read, under its name.
    pub fn push(&mut self, name: FilterName, inner: FilterBlocksInner)
        ensures
            final(self)@ == old(self)@.push(inner.named(name@)),
    {
        let ghost before = self@;
        let ghost added = inner.named(name@);
        self.filters.push((name, inner));
        assert(self@ =~= before.push(added));
    }

    /// Compiles one filter of a request.
    fn compile_one(
        &mut self,
        name: &str,
        filter: &SubscribeRequestFilterBlocks,
        limits: &FilterLimitsBlocks,
        names: &mut FilterNames,
    ) -> (res: FilterResult<()>)
        ensures
            match blocks_added(*limits, old(self)@, old(names)@, name@, *filter) {
                Ok((model, state)) => res.is_ok() && final(self)@ == model && final(names)@
                    == state,
                Err((error, state)) => res == Err::<(), FilterError>(error) && final(names)@
                    == state,
            },
    {
        match check_blocks_limits(limits, filter) {
            Ok(()) => {},
            Err(error) => {
                return Err(error);
            },
        }
        let handle = match names.get(name) {
            Ok(handle) => handle,
            Err(error) => {
                return Err(FilterError::Name(error));
            },
        };
        let account_include = match decode_pubkeys(
            &filter.account_include,
            &limits.account_include_reject,
        ) {
            Ok(keys) => keys,
            Err(error) => {
                return Err(error);
            },
        };
        self.push(
            handle,
            FilterBlocksInner {
                account_include,
                include_transactions: filter.include_transactions,
                include_accounts: filter.include_accounts,
                include_entries: filter.include_entries,
            },
        );
        Ok(())
    }

    /// Compiles the block filters of a request.
    pub fn new(
        configs: &FilterMap<SubscribeRequestFilterBlocks>,
        limits: &FilterLimitsBlocks,
        names: &mut FilterNames,
    ) -> (res: FilterResult<FilterBlocks>)
        ensures
            match blocks_compiled(configs@, *limits, old(names)@) {
                Ok((model, state)) => res.is_ok() && res.unwrap()@ == model && final(names)@
                    == state,
                Err((error, state)) => res == Err::<FilterBlocks, FilterError>(error) && final(names)@
                    == state,
            },
    {
        match check_max(configs.len(), limits.max) {
            Ok(()) => {},
            Err(error) => {
                return Err(error);
            },
        }
        let ghost step = blocks_step(*limits);
        let ghost start = names@;
        let mut this = FilterBlocks::empty();
        let mut i: usize = 0;
        assert(configs@.take(0) =~= Seq::empty());
        while i < configs.len()
            invariant
                i <= configs@.len(),
                step == blocks_step(*limits),
                start == old(names)@,
                max_fault(configs@.len(), limits.max).is_none(),
                compile_fold(configs@.take(i as int), Seq::empty(), start, step) == Ok::<
                    (Seq<BlocksEntry>, NamesState),
                    (FilterError, NamesState),
                >((this@, names@)),
            decreases configs@.len() - i,
        {
            proof {
                lemma_compile_step(configs@, Seq::empty(), start, step, i as int);
            }
            match this.compile_one(configs.name(i).as_str(), configs.filter(i), limits, names) {
                Ok(()) => {},
                Err(error) => {
                    proof {
                        lemma_compile_failed(configs@, Seq::empty(), start, step, i + 1);
                    }
                    return Err(error);
                },
            }
            i += 1;
        }
        assert(configs@.take(i as int) =~= configs@);
        Ok(this)
    }

    /// For each filter, in order, its name and what it lets through of the
    /// block.
    pub fn matched(&self, block: &MessageBlock) -> (res: Vec<(FilterName, MessageBlock)>)
        ensures
            res@.len() == self@.len(),
            forall|i: int|
                0 <= i < res@.len() ==> (#[trigger] res@[i]).0@ == self@[i].name && self@[i].projects(
                    *block,
                    res@[i].1,
                ),
    {
        let mut res: Vec<(FilterName, MessageBlock)> = Vec::new();
        let mut i: usize = 0;
        while i < self.filters.len()
            invariant
                i <= self.filters.len(),
                res@.len() == i,
                self@.len() == self.filters@.len(),
                forall|j: int|
                    0 <= j < i ==> (#[trigger] res@[j]).0@ == self@[j].name && self@[j].projects(
                        *block,
                        res@[j].1,
                    ),
            decreases self.filters.len() - i,
        {
            let name = self.filters[i].0.clone();
            let part = self.filters[i].1.project(&name, block);
            assert(self@[i as int] == self.filters@[i as int].1.named(self.filters@[i as int].0@));
            res.push((name, part));
            i += 1;
        }
        res
    }
}

impl Default for FilterBlocks {
    /// No filters.
    fn default() -> (res: FilterBlocks)
        ensures
            res@ == Seq::<BlocksEntry>::empty(),
    {
        FilterBlocks::empty()
    }
}

} // verus!
