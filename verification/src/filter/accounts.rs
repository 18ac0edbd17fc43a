//! Filters on account updates: an index from keys to filter names for each
//! of the two key criteria, and the match procedure over it.

use crate::filter::error::{
    any_fault, check_any, check_max, check_pubkey_max, compile_fold, decode_pubkeys,
    decoded_keys, lemma_compile_failed, lemma_compile_step, max_fault, named, pubkey_max_fault,
    FilterError, FilterResult, Outcome,
};
use crate::filter::state::{FilterAccountsState, StateModel};
use crate::geyser::{FilterMap, SubscribeRequestFilterAccounts};
use crate::keys::{Pubkey, Signature};
use crate::laws::{declared, entry_label, entry_test, lemma_accounts_filter, yields_declared};
use crate::limits::FilterLimitsAccounts;
use crate::message::MessageAccountInfo;
use crate::name::{names_view, FilterName, FilterNames, NamesState};
use crate::seqs::{lemma_select_none, lemma_select_step, select};
use vstd::prelude::*;

verus! {

/// The account filters of a subscription, as the match procedure reads
/// them: per filter name what it asks of the signature and of the data, and
/// for each of the two key criteria the pairs of a key and a filter name and
/// the names of the filters that have the criterion.
pub ghost struct AccountsModel {
    pub nonempty_txn_signature: Seq<(Seq<char>, Option<bool>)>,
    pub nonempty_txn_signature_required: Seq<Seq<char>>,
    pub account: Seq<(Pubkey, Seq<char>)>,
    pub account_required: Seq<Seq<char>>,
    pub owner: Seq<(Pubkey, Seq<char>)>,
    pub owner_required: Seq<Seq<char>>,
    pub filters: Seq<(Seq<char>, StateModel)>,
}

/// For each criterion, the names of the filters whose criterion an account
/// update passes.
pub ghost struct AccountsPassed {
    pub nonempty_txn_signature: Seq<Seq<char>>,
    pub account: Seq<Seq<char>>,
    pub owner: Seq<Seq<char>>,
    pub data: Seq<Seq<char>>,
}

/// The keys of a list, each paired with a filter name.
pub open spec fn keys_named(keys: Seq<Pubkey>, name: Seq<char>) -> Seq<(Pubkey, Seq<char>)> {
    keys.map_values(|key: Pubkey| (key, name))
}

/// The names with one more, where `wanted` holds.
pub open spec fn pushed_if(names: Seq<Seq<char>>, wanted: bool, name: Seq<char>) -> Seq<Seq<char>> {
    if wanted {
        names.push(name)
    } else {
        names
    }
}

/// The test of a signature criterion against an update that has a
/// signature, or has none.
pub open spec fn signature_test(has_signature: bool) -> spec_fn((Seq<char>, Option<bool>)) -> bool {
    |entry: (Seq<char>, Option<bool>)| entry.1 == Some(has_signature)
}

/// The name of a signature criterion.
pub open spec fn signature_label() -> spec_fn((Seq<char>, Option<bool>)) -> Seq<char> {
    |entry: (Seq<char>, Option<bool>)| entry.0
}

/// The test of an index pair against a key.
pub open spec fn key_test(key: Pubkey) -> spec_fn((Pubkey, Seq<char>)) -> bool {
    |entry: (Pubkey, Seq<char>)| entry.0 == key
}

/// The name of an index pair.
pub open spec fn key_label() -> spec_fn((Pubkey, Seq<char>)) -> Seq<char> {
    |entry: (Pubkey, Seq<char>)| entry.1
}

/// The test of data predicates against data and a balance.
pub open spec fn data_test(data: Seq<u8>, lamports: u64) -> spec_fn((Seq<char>, StateModel)) -> bool {
    |entry: (Seq<char>, StateModel)| entry.1.matches(data, lamports)
}

/// The name of data predicates.
pub open spec fn data_label() -> spec_fn((Seq<char>, StateModel)) -> Seq<char> {
    |entry: (Seq<char>, StateModel)| entry.0
}

impl AccountsModel {
    /// No filters.
    pub open spec fn empty() -> AccountsModel {
        AccountsModel {
            nonempty_txn_signature: Seq::empty(),
            nonempty_txn_signature_required: Seq::empty(),
            account: Seq::empty(),
            account_required: Seq::empty(),
            owner: Seq::empty(),
            owner_required: Seq::empty(),
            filters: Seq::empty(),
        }
    }

    /// The filters with one more: its signature criterion, its keys in the
    /// two indexes, its data predicates, and its name among the filters that
    /// have a criterion, for each criterion that it has.
    pub open spec fn with(
        self,
        name: Seq<char>,
        nonempty_txn_signature: Option<bool>,
        account: Seq<Pubkey>,
        owner: Seq<Pubkey>,
        state: StateModel,
    ) -> AccountsModel {
        AccountsModel {
            nonempty_txn_signature: self.nonempty_txn_signature.push(
                (name, nonempty_txn_signature),
            ),
            nonempty_txn_signature_required: pushed_if(
                self.nonempty_txn_signature_required,
                nonempty_txn_signature.is_some(),
                name,
            ),
            account: self.account + keys_named(account, name),
            account_required: pushed_if(self.account_required, account.len() > 0, name),
            owner: self.owner + keys_named(owner, name),
            owner_required: pushed_if(self.owner_required, owner.len() > 0, name),
            filters: self.filters.push((name, state)),
        }
    }

    /// For each criterion, the names of the filters whose criterion the
    /// account update passes.
    pub open spec fn passed(self, account: MessageAccountInfo) -> AccountsPassed {
        AccountsPassed {
            nonempty_txn_signature: select(
                self.nonempty_txn_signature,
                signature_test(account.txn_signature.is_some()),
                signature_label(),
            ),
            account: select(self.account, key_test(account.pubkey), key_label()),
            owner: select(self.owner, key_test(account.owner), key_label()),
            data: select(self.filters, data_test(account.data@, account.lamports), data_label()),
        }
    }

    /// Whether a filter is emitted: for each criterion that its name has,
    /// its name is among those that passed, and so for its data predicates,
    /// if it has any.
    pub open spec fn emits(self, passed: AccountsPassed, entry: (Seq<char>, StateModel)) -> bool {
        &&& self.nonempty_txn_signature_required.contains(entry.0)
            ==> passed.nonempty_txn_signature.contains(entry.0)
        &&& self.account_required.contains(entry.0) ==> passed.account.contains(entry.0)
        &&& self.owner_required.contains(entry.0) ==> passed.owner.contains(entry.0)
        &&& !entry.1.is_empty() ==> passed.data.contains(entry.0)
    }

    /// The test of a filter, given what passed.
    pub open spec fn emit_test(self, passed: AccountsPassed) -> spec_fn(
        (Seq<char>, StateModel),
    ) -> bool {
        |entry: (Seq<char>, StateModel)| self.emits(passed, entry)
    }

    /// The names of the filters that an account update matches, in the order
    /// of the filters.
    pub open spec fn matched(self, account: MessageAccountInfo) -> Seq<Seq<char>> {
        select(self.filters, self.emit_test(self.passed(account)), data_label())
    }
}

/// What the server's limits hold against one account filter, if anything:
/// no key at all, then too many accounts, then too many owners.
pub open spec fn accounts_limits_fault(
    limits: FilterLimitsAccounts,
    filter: SubscribeRequestFilterAccounts,
) -> Option<FilterError> {
    match any_fault(filter.account@.len() == 0 && filter.owner@.len() == 0, limits.any) {
        Some(error) => Some(error),
        None => match pubkey_max_fault(filter.account@.len(), limits.account_max) {
            Some(error) => Some(error),
            None => pubkey_max_fault(filter.owner@.len(), limits.owner_max),
        },
    }
}

/// Compiles one account filter after those in `model`: its name is
/// interned, the limits are held against it, and its accounts, its owners
/// and its data predicates are read, in this order; the first refusal
/// decides.
pub open spec fn accounts_added(
    limits: FilterLimitsAccounts,
    model: AccountsModel,
    names: NamesState,
    name: Seq<char>,
    filter: SubscribeRequestFilterAccounts,
) -> Outcome<AccountsModel> {
    match named(names, name) {
        Err(failure) => Err(failure),
        Ok(state) => match accounts_limits_fault(limits, filter) {
            Some(error) => Err((error, state)),
            None => match decoded_keys(filter.account@, limits.account_reject@) {
                Err(error) => Err((error, state)),
                Ok(account) => match decoded_keys(filter.owner@, limits.owner_reject@) {
                    Err(error) => Err((error, state)),
                    Ok(owner) => match StateModel::compiled(filter.filters@) {
                        Err(error) => Err((error, state)),
                        Ok(predicates) => Ok(
                            (
                                model.with(
                                    name,
                                    filter.nonempty_txn_signature,
                                    account,
                                    owner,
                                    predicates,
                                ),
                                state,
                            ),
                        ),
                    },
                },
            },
        },
    }
}

/// The step that compiles one account filter under the given limits.
pub open spec fn accounts_step(limits: FilterLimitsAccounts) -> spec_fn(
    AccountsModel,
    NamesState,
    Seq<char>,
    SubscribeRequestFilterAccounts,
) -> Outcome<AccountsModel> {
    |
        model: AccountsModel,
        names: NamesState,
        name: Seq<char>,
        filter: SubscribeRequestFilterAccounts,
    |
        accounts_added(limits, model, names, name, filter)
}

/// The account filters that a request asks for, unless there are too many
/// of them or one is refused.
pub open spec fn accounts_compiled(
    configs: Seq<(Seq<char>, SubscribeRequestFilterAccounts)>,
    limits: FilterLimitsAccounts,
    names: NamesState,
) -> Outcome<AccountsModel> {
    match max_fault(configs.len(), limits.max) {
        Some(error) => Err((error, names)),
        None => compile_fold(configs, AccountsModel::empty(), names, accounts_step(limits)),
    }
}

/// The account filters of a subscription.
#[derive(Debug, Clone)]
pub struct FilterAccounts {
    nonempty_txn_signature: Vec<(FilterName, Option<bool>)>,
    nonempty_txn_signature_required: Vec<FilterName>,
    account: Vec<(Pubkey, FilterName)>,
    account_required: Vec<FilterName>,
    owner: Vec<(Pubkey, FilterName)>,
    owner_required: Vec<FilterName>,
    filters: Vec<(FilterName, FilterAccountsState)>,
}

/// What a list of signature criteria holds.
pub closed spec fn signatures_view(entries: Seq<(FilterName, Option<bool>)>) -> Seq<
    (Seq<char>, Option<bool>),
> {
    entries.map_values(|entry: (FilterName, Option<bool>)| (entry.0@, entry.1))
}

/// What an index holds.
pub closed spec fn index_view(entries: Seq<(Pubkey, FilterName)>) -> Seq<(Pubkey, Seq<char>)> {
    entries.map_values(|entry: (Pubkey, FilterName)| (entry.0, entry.1@))
}

/// What a list of data predicates holds.
pub closed spec fn states_view(entries: Seq<(FilterName, FilterAccountsState)>) -> Seq<
    (Seq<char>, StateModel),
> {
    entries.map_values(|entry: (FilterName, FilterAccountsState)| (entry.0@, entry.1@))
}

impl View for FilterAccounts {
    type V = AccountsModel;

    closed spec fn view(&self) -> AccountsModel {
        AccountsModel {
            nonempty_txn_signature: signatures_view(self.nonempty_txn_signature@),
            nonempty_txn_signature_required: names_view(self.nonempty_txn_signature_required@),
            account: index_view(self.account@),
            account_required: names_view(self.account_required@),
            owner: index_view(self.owner@),
            owner_required: names_view(self.owner_required@),
            filters: states_view(self.filters@),
        }
    }
}

/// Whether a name is in a list.
fn holds_name(names: &Vec<FilterName>, name: &FilterName) -> (found: bool)
    ensures
        found == names_view(names@).contains(name@),
{
    let mut i: usize = 0;
    while i < names.len()
        invariant
            i <= names.len(),
            forall|j: int| 0 <= j < i ==> names_view(names@)[j] != name@,
        decreases names.len() - i,
    {
        if names[i] == *name {
            assert(names_view(names@)[i as int] == name@);
            return true;
        }
        i += 1;
    }
    false
}

/// Adds to an index the pairs of each key with a name, and the name to the
/// filters that have the criterion, where there are keys.
fn index_keys(
    index: &mut Vec<(Pubkey, FilterName)>,
    required: &mut Vec<FilterName>,
    name: &FilterName,
    keys: &Vec<Pubkey>,
)
    ensures
        index_view(final(index)@) == index_view(old(index)@) + keys_named(keys@, name@),
        names_view(final(required)@) == pushed_if(
            names_view(old(required)@),
            keys@.len() > 0,
            name@,
        ),
{
    let ghost before = index_view(index@);
    let ghost listed = names_view(required@);
    let mut i: usize = 0;
    assert(index_view(index@) =~= before + keys_named(keys@.take(0), name@));
    while i < keys.len()
        invariant
            i <= keys.len(),
            index_view(index@) == before + keys_named(keys@.take(i as int), name@),
            names_view(required@) == listed,
        decreases keys.len() - i,
    {
        let ghost shown = index_view(index@);
        index.push((keys[i], name.clone()));
        assert(index_view(index@) =~= shown.push((keys@[i as int], name@)));
        assert(before + keys_named(keys@.take(i + 1), name@) =~= (before + keys_named(
            keys@.take(i as int),
            name@,
        )).push((keys@[i as int], name@)));
        i += 1;
    }
    assert(keys@.take(i as int) =~= keys@);
    if keys.len() > 0 {
        required.push(name.clone());
        assert(names_view(required@) =~= listed.push(name@));
    }
}

/// The names of the index pairs with the given key.
fn lookup(index: &Vec<(Pubkey, FilterName)>, key: &Pubkey) -> (res: Vec<FilterName>)
    ensures
        names_view(res@) == select(index_view(index@), key_test(*key), key_label()),
{
    let ghost entries = index_view(index@);
    let ghost test = key_test(*key);
    let ghost label = key_label();
    let mut res: Vec<FilterName> = Vec::new();
    let mut i: usize = 0;
    proof {
        lemma_select_none(entries, test, label);
        assert(names_view(res@) =~= Seq::empty());
    }
    while i < index.len()
        invariant
            i <= index.len(),
            entries == index_view(index@),
            test == key_test(*key),
            label == key_label(),
            names_view(res@) == select(entries.take(i as int), test, label),
        decreases index.len() - i,
    {
        proof {
            lemma_select_step(entries, test, label, i as int);
        }
        let ghost shown = names_view(res@);
        if index[i].0 == *key {
            res.push(index[i].1.clone());
            assert(names_view(res@) =~= shown.push(index@[i as int].1@));
        }
        i += 1;
    }
    assert(entries.take(i as int) =~= entries);
    res
}

/// For each criterion, the names of the filters whose criterion an account
/// update passes.
#[derive(Debug)]
pub struct FilterAccountsMatch {
    nonempty_txn_signature: Vec<FilterName>,
    account: Vec<FilterName>,
    owner: Vec<FilterName>,
    data: Vec<FilterName>,
}

impl View for FilterAccountsMatch {
    type V = AccountsPassed;

    closed spec fn view(&self) -> AccountsPassed {
        AccountsPassed {
            nonempty_txn_signature: names_view(self.nonempty_txn_signature@),
            account: names_view(self.account@),
            owner: names_view(self.owner@),
            data: names_view(self.data@),
        }
    }
}

impl FilterAccountsMatch {
    /// Nothing passed yet.
    pub fn new() -> (res: FilterAccountsMatch)
        ensures
            res@ == (AccountsPassed {
                nonempty_txn_signature: Seq::empty(),
                account: Seq::empty(),
                owner: Seq::empty(),
                data: Seq::empty(),
            }),
    {
        let res = FilterAccountsMatch {
            nonempty_txn_signature: Vec::new(),
            account: Vec::new(),
            owner: Vec::new(),
            data: Vec::new(),
        };
        assert(names_view(res.nonempty_txn_signature@) =~= Seq::empty());
        assert(names_view(res.account@) =~= Seq::empty());
        assert(names_view(res.owner@) =~= Seq::empty());
        assert(names_view(res.data@) =~= Seq::empty());
        res
    }

    /// Notes the filters whose signature criterion the update passes.
    pub fn match_txn_signature(&mut self, filter: &FilterAccounts, txn_signature: &Option<Signature>)
        ensures
            final(self)@ == (AccountsPassed {
                nonempty_txn_signature: select(
                    filter@.nonempty_txn_signature,
                    signature_test(txn_signature.is_some()),
                    signature_label(),
                ),
                ..old(self)@
            }),
    {
        let has_signature = txn_signature.is_some();
        let ghost entries = filter@.nonempty_txn_signature;
        let ghost test = signature_test(has_signature);
        let ghost label = signature_label();
        let mut res: Vec<FilterName> = Vec::new();
        let mut i: usize = 0;
        proof {
            lemma_select_none(entries, test, label);
            assert(names_view(res@) =~= Seq::empty());
        }
        while i < filter.nonempty_txn_signature.len()
            invariant
                i <= filter.nonempty_txn_signature.len(),
                entries == filter@.nonempty_txn_signature,
                entries == signatures_view(filter.nonempty_txn_signature@),
                test == signature_test(has_signature),
                label == signature_label(),
                names_view(res@) == select(entries.take(i as int), test, label),
            decreases filter.nonempty_txn_signature.len() - i,
        {
            proof {
                lemma_select_step(entries, test, label, i as int);
            }
            let ghost shown = names_view(res@);
            let wanted = match filter.nonempty_txn_signature[i].1 {
                Some(flag) => flag == has_signature,
                None => false,
            };
            if wanted {
                res.push(filter.nonempty_txn_signature[i].0.clone());
                assert(names_view(res@) =~= shown.push(filter.nonempty_txn_signature@[i as int].0@));
            }
            i += 1;
        }
        assert(entries.take(i as int) =~= entries);
        self.nonempty_txn_signature = res;
    }

    /// Notes the filters that look for the account's key.
    pub fn match_account(&mut self, filter: &FilterAccounts, pubkey: &Pubkey)
        ensures
            final(self)@ == (AccountsPassed {
                account: select(filter@.account, key_test(*pubkey), key_label()),
                ..old(self)@
            }),
    {
        self.account = lookup(&filter.account, pubkey);
    }

    /// Notes the filters that look for the account's owner.
    pub fn match_owner(&mut self, filter: &FilterAccounts, pubkey: &Pubkey)
        ensures
            final(self)@ == (AccountsPassed {
                owner: select(filter@.owner, key_test(*pubkey), key_label()),
                ..old(self)@
            }),
    {
        self.owner = lookup(&filter.owner, pubkey);
    }

    /// Notes the filters whose data predicates the account passes.
    pub fn match_data_lamports(&mut self, filter: &FilterAccounts, data: &[u8], lamports: u64)
        ensures
            final(self)@ == (AccountsPassed {
                data: select(filter@.filters, data_test(data@, lamports), data_label()),
                ..old(self)@
            }),
    {
        let ghost entries = filter@.filters;
        let ghost test = data_test(data@, lamports);
        let ghost label = data_label();
        let mut res: Vec<FilterName> = Vec::new();
        let mut i: usize = 0;
        proof {
            lemma_select_none(entries, test, label);
            assert(names_view(res@) =~= Seq::empty());
        }
        while i < filter.filters.len()
            invariant
                i <= filter.filters.len(),
                entries == filter@.filters,
                entries == states_view(filter.filters@),
                test == data_test(data@, lamports),
                label == data_label(),
                names_view(res@) == select(entries.take(i as int), test, label),
            decreases filter.filters.len() - i,
        {
            proof {
                lemma_select_step(entries, test, label, i as int);
            }
            let ghost shown = names_view(res@);
            if filter.filters[i].1.is_match(data, lamports) {
                res.push(filter.filters[i].0.clone());
                assert(names_view(res@) =~= shown.push(filter.filters@[i as int].0@));
            }
            i += 1;
        }
        assert(entries.take(i as int) =~= entries);
        self.data = res;
    }

    /// The names of the filters that are emitted, given what passed.
    pub fn get_filters(&self, filter: &FilterAccounts) -> (res: Vec<FilterName>)
        ensures
            names_view(res@) == select(filter@.filters, filter@.emit_test(self@), data_label()),
    {
        let ghost entries = filter@.filters;
        let ghost test = filter@.emit_test(self@);
        let ghost label = data_label();
        let mut res: Vec<FilterName> = Vec::new();
        let mut i: usize = 0;
        proof {
            lemma_select_none(entries, test, label);
            assert(names_view(res@) =~= Seq::empty());
        }
        while i < filter.filters.len()
            invariant
                i <= filter.filters.len(),
                entries == filter@.filters,
                entries == states_view(filter.filters@),
                test == filter@.emit_test(self@),
                label == data_label(),
                names_view(res@) == select(entries.take(i as int), test, label),
            decreases filter.filters.len() - i,
        {
            proof {
                lemma_select_step(entries, test, label, i as int);
            }
            let ghost shown = names_view(res@);
            let name = &filter.filters[i].0;
            let state = &filter.filters[i].1;
            let emitted = (!holds_name(&filter.nonempty_txn_signature_required, name) || holds_name(
                &self.nonempty_txn_signature,
                name,
            )) && (!holds_name(&filter.account_required, name) || holds_name(&self.account, name))
                && (!holds_name(&filter.owner_required, name) || holds_name(&self.owner, name)) && (
            state.is_empty() || holds_name(&self.data, name));
            if emitted {
                res.push(name.clone());
                assert(names_view(res@) =~= shown.push(name@));
            }
            i += 1;
        }
        assert(entries.take(i as int) =~= entries);
        res
    }
}

impl FilterAccounts {
    /// No filters.
    pub fn empty() -> (res: FilterAccounts)
        ensures
            res@ == AccountsModel::empty(),
    {
        let res = FilterAccounts {
            nonempty_txn_signature: Vec::new(),
            nonempty_txn_signature_required: Vec::new(),
            account: Vec::new(),
            account_required: Vec::new(),
            owner: Vec::new(),
            owner_required: Vec::new(),
            filters: Vec::new(),
        };
        assert(res@.nonempty_txn_signature =~= Seq::empty());
        assert(res@.nonempty_txn_signature_required =~= Seq::empty());
        assert(res@.account =~= Seq::empty());
        assert(res@.account_required =~= Seq::empty());
        assert(res@.owner =~= Seq::empty());
        assert(res@.owner_required =~= Seq::empty());
        assert(res@.filters =~= Seq::empty());
        res
    }

    /// The number of filters.
    pub fn len(&self) -> (n: usize)
        ensures
            n == self@.filters.len(),
    {
        self.filters.len()
    }

    /// Holds the server's limits against one account filter.
    fn check_limits(limits: &FilterLimitsAccounts, filter: &SubscribeRequestFilterAccounts) -> (res:
        FilterResult<()>)
        ensures
            match accounts_limits_fault(*limits, *filter) {
                Some(error) => res == Err::<(), FilterError>(error),
                None => res.is_ok(),
            },
    {
        match check_any(filter.account.len() == 0 && filter.owner.len() == 0, limits.any) {
            Ok(()) => {},
            Err(error) => {
                return Err(error);
            },
        }
        match check_pubkey_max(filter.account.len(), limits.account_max) {
            Ok(()) => {},
            Err(error) => {
                return Err(error);
            },
        }
        check_pubkey_max(filter.owner.len(), limits.owner_max)
    }

    /// Adds a filter whose keys and data predicates are already read: its
    /// signature criterion, its keys in the two indexes, its data predicates,
    /// and its name among the filters that have a criterion, for each
    /// criterion that it has.
    pub fn insert(
        &mut self,
        name: FilterName,
        nonempty_txn_signature: Option<bool>,
        account: &Vec<Pubkey>,
        owner: &Vec<Pubkey>,
        state: FilterAccountsState,
    )
        ensures
            final(self)@ == old(self)@.with(
                name@,
                nonempty_txn_signature,
                account@,
                owner@,
                state@,
            ),
    {
        let ghost before = self@;
        self.nonempty_txn_signature.push((name.clone(), nonempty_txn_signature));
        assert(signatures_view(self.nonempty_txn_signature@) =~= before.nonempty_txn_signature.push(
            (name@, nonempty_txn_signature),
        ));
        if nonempty_txn_signature.is_some() {
            self.nonempty_txn_signature_required.push(name.clone());
            assert(names_view(self.nonempty_txn_signature_required@)
                =~= before.nonempty_txn_signature_required.push(name@));
        }
        index_keys(&mut self.account, &mut self.account_required, &name, account);
        index_keys(&mut self.owner, &mut self.owner_required, &name, owner);
        let ghost predicates = state@;
        let ghost label = name@;
        self.filters.push((name, state));
        assert(states_view(self.filters@) =~= before.filters.push((label, predicates)));
    }

    /// Compiles one filter of a request into the index.
    fn set(
        &mut self,
        name: &str,
        filter: &SubscribeRequestFilterAccounts,
        limits: &FilterLimitsAccounts,
        names: &mut FilterNames,
    ) -> (res: FilterResult<()>)
        ensures
            match accounts_added(*limits, old(self)@, old(names)@, name@, *filter) {
                Ok((model, state)) => res.is_ok() && final(self)@ == model && final(names)@
                    == state,
                Err((error, state)) => res == Err::<(), FilterError>(error) && final(names)@
                    == state,
            },
    {
        let handle = match names.get(name) {
            Ok(handle) => handle,
            Err(error) => {
                return Err(FilterError::Name(error));
            },
        };
        match Self::check_limits(limits, filter) {
            Ok(()) => {},
            Err(error) => {
                return Err(error);
            },
        }
        let account = match decode_pubkeys(&filter.account, &limits.account_reject) {
            Ok(keys) => keys,
            Err(error) => {
                return Err(error);
            },
        };
        let owner = match decode_pubkeys(&filter.owner, &limits.owner_reject) {
            Ok(keys) => keys,
            Err(error) => {
                return Err(error);
            },
        };
        let state = match FilterAccountsState::new(&filter.filters) {
            Ok(state) => state,
            Err(error) => {
                return Err(error);
            },
        };
        self.insert(handle, filter.nonempty_txn_signature, &account, &owner, state);
        Ok(())
    }

    /// Compiles the account filters of a request. For every account update,
    /// the compiled filters yield the names of the request's filters whose
    /// declared criteria all hold of the update, in the order of the request.
    pub fn new(
        configs: &FilterMap<SubscribeRequestFilterAccounts>,
        limits: &FilterLimitsAccounts,
        names: &mut FilterNames,
    ) -> (res: FilterResult<FilterAccounts>)
        ensures
            match accounts_compiled(configs@, *limits, old(names)@) {
                Ok((model, state)) => res.is_ok() && res.unwrap()@ == model && final(names)@
                    == state,
                Err((error, state)) => res == Err::<FilterAccounts, FilterError>(error) && final(names)@ == state,
            },
            res matches Ok(filter) ==> yields_declared(filter@, declared(configs@, *limits)),
    {
        match check_max(configs.len(), limits.max) {
            Ok(()) => {},
            Err(error) => {
                return Err(error);
            },
        }
        let ghost step = accounts_step(*limits);
        let ghost start = names@;
        let mut this = FilterAccounts::empty();
        let mut i: usize = 0;
        assert(configs@.take(0) =~= Seq::empty());
        while i < configs.len()
            invariant
                i <= configs@.len(),
                step == accounts_step(*limits),
                start == old(names)@,
                max_fault(configs@.len(), limits.max).is_none(),
                compile_fold(configs@.take(i as int), AccountsModel::empty(), start, step) == Ok::<
                    (AccountsModel, NamesState),
                    (FilterError, NamesState),
                >((this@, names@)),
            decreases configs@.len() - i,
        {
            proof {
                lemma_compile_step(configs@, AccountsModel::empty(), start, step, i as int);
            }
            match this.set(configs.name(i).as_str(), configs.filter(i), limits, names) {
                Ok(()) => {},
                Err(error) => {
                    proof {
                        lemma_compile_failed(configs@, AccountsModel::empty(), start, step, i + 1);
                    }
                    return Err(error);
                },
            }
            i += 1;
        }
        assert(configs@.take(i as int) =~= configs@);
        proof {
            use_type_invariant(configs);
            assert forall|account: MessageAccountInfo| #[trigger]
                this@.matched(account) == select(
                    declared(configs@, *limits),
                    entry_test(account),
                    entry_label(),
                ) by {
                lemma_accounts_filter(configs@, *limits, start, account);
            }
        }
        Ok(this)
    }

    /// The names of the filters that an account update matches.
    pub fn matched(&self, account: &MessageAccountInfo) -> (res: Vec<FilterName>)
        ensures
            names_view(res@) == self@.matched(*account),
    {
        let mut passed = FilterAccountsMatch::new();
        passed.match_txn_signature(self, &account.txn_signature);
        passed.match_account(self, &account.pubkey);
        passed.match_owner(self, &account.owner);
        passed.match_data_lamports(self, account.data.as_slice(), account.lamports);
        passed.get_filters(self)
    }
}

impl Default for FilterAccounts {
    /// No filters.
    fn default() -> (res: FilterAccounts)
        ensures
            res@ == AccountsModel::empty(),
    {
        FilterAccounts::empty()
    }
}

} // verus!
