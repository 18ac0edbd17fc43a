//! Filters on transactions.

use crate::filter::error::{
    any_fault, check_any, check_max, check_pubkey_max, compile_fold, decode_pubkeys,
    decoded_keys, lemma_compile_failed, lemma_compile_step, max_fault, named, pubkey_max_fault,
    FilterError, FilterResult, Outcome,
};
use crate::geyser::{FilterMap, SubscribeRequestFilterTransactions};
use crate::keys::{
    intersects, is_subset, keys_intersect, keys_subset, signature_from_text, Pubkey, Signature,
};
use crate::limits::FilterLimitsTransactions;
use crate::message::MessageTransactionInfo;
use crate::name::{names_view, FilterName, FilterNames, NamesState};
use crate::seqs::{lemma_select_none, lemma_select_step, select};
use vstd::prelude::*;

verus! {

/// Which of the two transaction channels a filter serves.
#[derive(Debug, Clone, Copy, PartialEq, Eq, Structural)]
pub enum FilterTransactionsType {
    Transaction,
    TransactionStatus,
}

/// The criteria of one transaction filter.
#[derive(Debug, Clone)]
pub struct FilterTransactionsInner {
    pub vote: Option<bool>,
    pub failed: Option<bool>,
    pub signature: Option<Signature>,
    pub account_include: Vec<Pubkey>,
    pub account_exclude: Vec<Pubkey>,
    pub account_required: Vec<Pubkey>,
}

/// One transaction filter: its name and its criteria.
pub ghost struct TransactionsEntry {
    pub name: Seq<char>,
    pub vote: Option<bool>,
    pub failed: Option<bool>,
    pub signature: Option<Signature>,
    pub account_include: Seq<Pubkey>,
    pub account_exclude: Seq<Pubkey>,
    pub account_required: Seq<Pubkey>,
}

/// The signature that a text stands for.
pub open spec fn signature_of(bytes: Seq<u8>) -> Signature {
    choose|signature: Signature| signature@ == bytes
}

/// The signature criterion that a request asks for, unless its text is no
/// signature.
pub open spec fn wanted_signature(text: Option<String>) -> Result<Option<Signature>, FilterError> {
    match text {
        None => Ok(None),
        Some(text) => match signature_from_text(text@) {
            Ok(bytes) => Ok(Some(signature_of(bytes))),
            Err(error) => Err(FilterError::InvalidSignature(error)),
        },
    }
}

/// What the server's limits hold against one transaction filter, if
/// anything: no criterion at all, then too many keys to include, to exclude,
/// to require.
pub open spec fn transactions_limits_fault(
    limits: FilterLimitsTransactions,
    filter: SubscribeRequestFilterTransactions,
) -> Option<FilterError> {
    let is_empty = filter.vote.is_none() && filter.failed.is_none() && filter.account_include@.len()
        == 0 && filter.account_exclude@.len() == 0 && filter.account_required@.len() == 0;
    match any_fault(is_empty, limits.any) {
        Some(error) => Some(error),
        None => match pubkey_max_fault(filter.account_include@.len(), limits.account_include_max) {
            Some(error) => Some(error),
            None => match pubkey_max_fault(
                filter.account_exclude@.len(),
                limits.account_exclude_max,
            ) {
                Some(error) => Some(error),
                None => pubkey_max_fault(
                    filter.account_required@.len(),
                    limits.account_required_max,
                ),
            },
        },
    }
}

/// Compiles one transaction filter after those in `model`: the limits are
/// held against it, its name is interned, and its signature and its keys are
/// read, in this order; the first refusal decides.
pub open spec fn transactions_added(
    limits: FilterLimitsTransactions,
    model: Seq<TransactionsEntry>,
    names: NamesState,
    name: Seq<char>,
    filter: SubscribeRequestFilterTransactions,
) -> Outcome<Seq<TransactionsEntry>> {
    match transactions_limits_fault(limits, filter) {
        Some(error) => Err((error, names)),
        None => match named(names, name) {
            Err(failure) => Err(failure),
            Ok(state) => match wanted_signature(filter.signature) {
                Err(error) => Err((error, state)),
                Ok(signature) => match decoded_keys(
                    filter.account_include@,
                    limits.account_include_reject@,
                ) {
                    Err(error) => Err((error, state)),
                    Ok(account_include) => match decoded_keys(
                        filter.account_exclude@,
                        Seq::empty(),
                    ) {
                        Err(error) => Err((error, state)),
                        Ok(account_exclude) => match decoded_keys(
                            filter.account_required@,
                            Seq::empty(),
                        ) {
                            Err(error) => Err((error, state)),
                            Ok(account_required) => Ok(
                                (
                                    model.push(
                                        TransactionsEntry {
                                            name,
                                            vote: filter.vote,
                                            failed: filter.failed,
                                            signature,
                                            account_include,
                                            account_exclude,
                                            account_required,
                                        },
                                    ),
                                    state,
                                ),
                            ),
                        },
                    },
                },
            },
        },
    }
}

/// The step that compiles one transaction filter under the given limits.
pub open spec fn transactions_step(limits: FilterLimitsTransactions) -> spec_fn(
    Seq<TransactionsEntry>,
    NamesState,
    Seq<char>,
    SubscribeRequestFilterTransactions,
) -> Outcome<Seq<TransactionsEntry>> {
    |
        model: Seq<TransactionsEntry>,
        names: NamesState,
        name: Seq<char>,
        filter: SubscribeRequestFilterTransactions,
    |
        transactions_added(limits, model, names, name, filter)
}

/// The transaction filters that a request asks for, unless there are too
/// many of them or one is refused.
pub open spec fn transactions_compiled(
    configs: Seq<(Seq<char>, SubscribeRequestFilterTransactions)>,
    limits: FilterLimitsTransactions,
    names: NamesState,
) -> Outcome<Seq<TransactionsEntry>> {
    match max_fault(configs.len(), limits.max) {
        Some(error) => Err((error, names)),
        None => compile_fold(configs, Seq::empty(), names, transactions_step(limits)),
    }
}

impl TransactionsEntry {
    /// Whether the signature of a transaction record is the given one.
    pub open spec fn signed_by(transaction: MessageTransactionInfo, signature: Signature) -> bool {
        transaction.signature@ == signature@
    }

    /// Whether a transaction matches the filter: its vote flag, its failure
    /// and the signature of its record are as asked, where something is
    /// asked; it touches one of the keys to include, where there are any; it
    /// touches none of the keys to exclude and all of the keys to require.
    pub open spec fn matches(self, transaction: MessageTransactionInfo) -> bool {
        &&& self.vote matches Some(vote) ==> vote == transaction.is_vote
        &&& self.failed matches Some(failed) ==> failed == transaction.meta.err.is_some()
        &&& self.signature matches Some(signature) ==> TransactionsEntry::signed_by(
            transaction,
            signature,
        )
        &&& self.account_include.len() == 0 || keys_intersect(
            self.account_include,
            transaction.account_keys@,
        )
        &&& !keys_intersect(self.account_exclude, transaction.account_keys@)
        &&& keys_subset(self.account_required, transaction.account_keys@)
    }
}

/// The test of a filter against a transaction.
pub open spec fn transaction_test(transaction: MessageTransactionInfo) -> spec_fn(
    TransactionsEntry,
) -> bool {
    |entry: TransactionsEntry| entry.matches(transaction)
}

/// The name of a filter.
pub open spec fn transaction_label() -> spec_fn(TransactionsEntry) -> Seq<char> {
    |entry: TransactionsEntry| entry.name
}

/// The names of the filters that a transaction matches, in the order of the
/// filters.
pub open spec fn transactions_matched(
    entries: Seq<TransactionsEntry>,
    transaction: MessageTransactionInfo,
) -> Seq<Seq<char>> {
    select(entries, transaction_test(transaction), transaction_label())
}

impl FilterTransactionsInner {
    /// The criteria under the name of their filter.
    pub open spec fn named(self, name: Seq<char>) -> TransactionsEntry {
        TransactionsEntry {
            name,
            vote: self.vote,
            failed: self.failed,
            signature: self.signature,
            account_include: self.account_include@,
            account_exclude: self.account_exclude@,
            account_required: self.account_required@,
        }
    }

    /// Whether a transaction matches the criteria, which stand under the
    /// given name.
    pub fn is_match(&self, name: &FilterName, transaction: &MessageTransactionInfo) -> (matched:
        bool)
        ensures
            matched == self.named(name@).matches(*transaction),
    {
        match self.vote {
            Some(vote) => {
                if vote != transaction.is_vote {
                    return false;
                }
            },
            None => {},
        }
        match self.failed {
            Some(failed) => {
                if failed != transaction.meta.err.is_some() {
                    return false;
                }
            },
            None => {},
        }
        match &self.signature {
            Some(signature) => {
                proof {
                    Signature::lemma_view_injective(transaction.signature, *signature);
                }
                if !(transaction.signature == *signature) {
                    return false;
                }
            },
            None => {},
        }
        if self.account_include.len() > 0 && !intersects(
            &self.account_include,
            &transaction.account_keys,
        ) {
            return false;
        }
        if intersects(&self.account_exclude, &transaction.account_keys) {
            return false;
        }
        if !is_subset(&self.account_required, &transaction.account_keys) {
            return false;
        }
        true
    }
}

/// The transaction filters of one channel of a subscription.
#[derive(Debug, Clone)]
pub struct FilterTransactions {
    filter_type: FilterTransactionsType,
    filters: Vec<(FilterName, FilterTransactionsInner)>,
}

/// What a list of compiled filters holds.
pub closed spec fn transactions_view(filters: Seq<(FilterName, FilterTransactionsInner)>) -> Seq<
    TransactionsEntry,
> {
    filters.map_values(|entry: (FilterName, FilterTransactionsInner)| entry.1.named(entry.0@))
}

impl View for FilterTransactions {
    type V = Seq<TransactionsEntry>;

    closed spec fn view(&self) -> Seq<TransactionsEntry> {
        transactions_view(self.filters@)
    }
}

/// Reads the signature criterion of a request.
fn decode_signature(text: &Option<String>) -> (res: FilterResult<Option<Signature>>)
    ensures
        res == wanted_signature(*text),
{
    match text {
        None => Ok(None),
        Some(text) => match Signature::parse(text.as_str()) {
            Ok(signature) => {
                proof {
                    Signature::lemma_view_injective(signature_of(signature@), signature);
                }
                Ok(Some(signature))
            },
            Err(error) => Err(FilterError::InvalidSignature(error)),
        },
    }
}

/// Holds the server's limits against one transaction filter.
fn check_transactions_limits(
    limits: &FilterLimitsTransactions,
    filter: &SubscribeRequestFilterTransactions,
) -> (res: FilterResult<()>)
    ensures
        match transactions_limits_fault(*limits, *filter) {
            Some(error) => res == Err::<(), FilterError>(error),
            None => res.is_ok(),
        },
{
    let is_empty = filter.vote.is_none() && filter.failed.is_none() && filter.account_include.len()
        == 0 && filter.account_exclude.len() == 0 && filter.account_required.len() == 0;
    match check_any(is_empty, limits.any) {
        Ok(()) => {},
        Err(error) => {
            return Err(error);
        },
    }
    match check_pubkey_max(filter.account_include.len(), limits.account_include_max) {
        Ok(()) => {},
        Err(error) => {
            return Err(error);
        },
    }
    match check_pubkey_max(filter.account_exclude.len(), limits.account_exclude_max) {
        Ok(()) => {},
        Err(error) => {
            return Err(error);
        },
    }
    check_pubkey_max(filter.account_required.len(), limits.account_required_max)
}

impl FilterTransactions {
    /// No filters, for the given channel.
    pub fn empty(filter_type: FilterTransactionsType) -> (res: FilterTransactions)
        ensures
            res@ == Seq::<TransactionsEntry>::empty(),
            res.channel() == filter_type,
    {
        let res = FilterTransactions { filter_type, filters: Vec::new() };
        assert(res@ =~= Seq::empty());
        res
    }

    /// The channel that the filters serve.
    pub closed spec fn channel(self) -> FilterTransactionsType {
        self.filter_type
    }

    /// The channel that the filters serve.
    pub fn filter_type(&self) -> (filter_type: FilterTransactionsType)
        ensures
            filter_type == self.channel(),
    {
        self.filter_type
    }

    /// The number of filters.
    pub fn len(&self) -> (n: usize)
        ensures
            n == self@.len(),
    {
        self.filters.len()
    }

    /// Adds a filter: its criteria, already read, under its name.
    pub fn push(&mut self, name: FilterName, inner: FilterTransactionsInner)
        ensures
            final(self)@ == old(self)@.push(inner.named(name@)),
            final(self).channel() == old(self).channel(),
    {
        let ghost before = self@;
        let ghost added = inner.named(name@);
        self.filters.push((name, inner));
        assert(self@ =~= before.push(added));
    }

    /// Compiles one filter of a request.
    fn compile_one(
        &mut self,
        name: &str,
        filter: &SubscribeRequestFilterTransactions,
        limits: &FilterLimitsTransactions,
        names: &mut FilterNames,
    ) -> (res: FilterResult<()>)
        ensures
            final(self).channel() == old(self).channel(),
            match transactions_added(*limits, old(self)@, old(names)@, name@, *filter) {
                Ok((model, state)) => res.is_ok() && final(self)@ == model && final(names)@
                    == state,
                Err((error, state)) => res == Err::<(), FilterError>(error) && final(names)@
                    == state,
            },
    {
        match check_transactions_limits(limits, filter) {
            Ok(()) => {},
            Err(error) => {
                return Err(error);
            },
        }
        let handle = match names.get(name) {
            Ok(handle) => handle,
            Err(error) => {
                return Err(FilterError::Name(error));
            },
        };
        let signature = match decode_signature(&filter.signature) {
            Ok(signature) => signature,
            Err(error) => {
                return Err(error);
            },
        };
        let account_include = match decode_pubkeys(
            &filter.account_include,
            &limits.account_include_reject,
        ) {
            Ok(keys) => keys,
            Err(error) => {
                return Err(error);
            },
        };
        let none: Vec<Pubkey> = Vec::new();
        let account_exclude = match decode_pubkeys(&filter.account_exclude, &none) {
            Ok(keys) => keys,
            Err(error) => {
                return Err(error);
            },
        };
        let account_required = match decode_pubkeys(&filter.account_required, &none) {
            Ok(keys) => keys,
            Err(error) => {
                return Err(error);
            },
        };
        self.push(
            handle,
            FilterTransactionsInner {
                vote: filter.vote,
                failed: filter.failed,
                signature,
                account_include,
                account_exclude,
                account_required,
            },
        );
        Ok(())
    }

    /// Compiles the transaction filters of a request for one channel.
    pub fn new(
        configs: &FilterMap<SubscribeRequestFilterTransactions>,
        limits: &FilterLimitsTransactions,
        filter_type: FilterTransactionsType,
        names: &mut FilterNames,
    ) -> (res: FilterResult<FilterTransactions>)
        ensures
            match transactions_compiled(configs@, *limits, old(names)@) {
                Ok((model, state)) => {
                    &&& res.is_ok()
                    &&& res.unwrap()@ == model
                    &&& res.unwrap().channel() == filter_type
                    &&& final(names)@ == state
                },
                Err((error, state)) => res == Err::<FilterTransactions, FilterError>(error)
                    && final(names)@ == state,
            },
    {
        match check_max(configs.len(), limits.max) {
            Ok(()) => {},
            Err(error) => {
                return Err(error);
            },
        }
        let ghost step = transactions_step(*limits);
        let ghost start = names@;
        let mut this = FilterTransactions::empty(filter_type);
        let mut i: usize = 0;
        assert(configs@.take(0) =~= Seq::empty());
        while i < configs.len()
            invariant
                i <= configs@.len(),
                step == transactions_step(*limits),
                start == old(names)@,
                this.channel() == filter_type,
                max_fault(configs@.len(), limits.max).is_none(),
                compile_fold(configs@.take(i as int), Seq::empty(), start, step) == Ok::<
                    (Seq<TransactionsEntry>, NamesState),
                    (FilterError, NamesState),
                >((this@, names@)),
            decreases configs@.len() - i,
        {
            proof {
                lemma_compile_step(configs@, Seq::empty(), start, step, i as int);
            }
            match this.compile_one(configs.name(i).as_str(), configs.filter(i), limits, names) {
                Ok(()) => {},
                Err(error) => {
                    proof {
                        lemma_compile_failed(configs@, Seq::empty(), start, step, i + 1);
                    }
                    return Err(error);
                },
            }
            i += 1;
        }
        assert(configs@.take(i as int) =~= configs@);
        Ok(this)
    }

    /// The names of the filters that a transaction matches.
    pub fn matched(&self, transaction: &MessageTransactionInfo) -> (res: Vec<FilterName>)
        ensures
            names_view(res@) == transactions_matched(self@, *transaction),
    {
        let ghost test = transaction_test(*transaction);
        let ghost label = transaction_label();
        let mut res: Vec<FilterName> = Vec::new();
        let mut i: usize = 0;
        proof {
            lemma_select_none(self@, test, label);
            assert(names_view(res@) =~= Seq::empty());
        }
        while i < self.filters.len()
            invariant
                i <= self.filters.len(),
                test == transaction_test(*transaction),
                label == transaction_label(),
                names_view(res@) == select(self@.take(i as int), test, label),
            decreases self.filters.len() - i,
        {
            proof {
                lemma_select_step(self@, test, label, i as int);
            }
            let ghost shown = names_view(res@);
            let name = &self.filters[i].0;
            if self.filters[i].1.is_match(name, transaction) {
                res.push(name.clone());
                assert(names_view(res@) =~= shown.push(name@));
            }
            i += 1;
        }
        assert(self@.take(i as int) =~= self@);
        res
    }
}

} // verus!
