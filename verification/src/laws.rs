//! What holds of the filters of a subscription, whatever the request and
//! the message.

use crate::filter::accounts::{
    accounts_compiled, accounts_step, data_label, data_test, key_label, key_test, keys_named,
    signature_label, signature_test, AccountsModel,
};
use crate::filter::blocks::{blocks_compiled, blocks_step, BlocksEntry};
use crate::filter::data_slice::{lemma_sliced_len, projected, sliced_len};
use crate::filter::error::{
    compile_fold, decoded_keys, model_of, names_of, FilterError, Outcome,
};
use crate::filter::simple::{name_step, names_compiled};
use crate::filter::slots::{slot_label, slot_test, slots_compiled, slots_matched, slots_step, SlotsEntry};
use crate::filter::state::StateModel;
use crate::filter::transactions::{
    transaction_label, transaction_test, transactions_compiled, transactions_matched,
    transactions_step, wanted_signature, TransactionsEntry,
};
use crate::filter::{decoded_commitment, FilterModel};
use crate::geyser::{
    names_unique, SubscribeRequest, SubscribeRequestAccountsDataSlice,
    SubscribeRequestFilterAccounts, SubscribeRequestFilterBlocks, SubscribeRequestFilterSlots,
    SubscribeRequestFilterTransactions,
};
use crate::keys::Pubkey;
use crate::limits::{
    FilterLimits, FilterLimitsAccounts, FilterLimitsBlocks, FilterLimitsTransactions,
};
use crate::message::{CommitmentLevel, Message, MessageAccountInfo, MessageTransactionInfo};
use crate::name::{FilterNameError, NamesState};
use crate::session::{SessionModel, SessionState};
use crate::seqs::{
    lemma_add_contains, lemma_push_contains, lemma_select_contains, lemma_select_pointwise, select,
};
use vstd::prelude::*;

verus! {

/// Where slices were asked for, a subscriber receives as many bytes of
/// account data as the slices within the data are long, the bytes of one
/// slice after those of the other.
pub proof fn lemma_projected_len(data: Seq<u8>, slices: Seq<SubscribeRequestAccountsDataSlice>)
    requires
        slices.len() > 0,
    ensures
        projected(data, slices).len() == sliced_len(data.len(), slices),
{
    lemma_sliced_len(data, slices);
}

/// A transaction yields the name of a filter exactly when a filter of that
/// name matches it: its vote flag, its failure and the signature of its
/// record are as the filter asks, it touches one of the keys to include
/// where there are any, none of the keys to exclude, and all of the keys to
/// require.
pub proof fn lemma_transaction_yielded(
    entries: Seq<TransactionsEntry>,
    transaction: MessageTransactionInfo,
    name: Seq<char>,
)
    ensures
        transactions_matched(entries, transaction).contains(name) <==> (exists|i: int|
            0 <= i < entries.len() && (#[trigger] entries[i]).matches(transaction)
                && entries[i].name == name),
{
    lemma_select_contains(entries, transaction_test(transaction), transaction_label(), name);
}

/// One account filter as the request declares it: its name, what it asks
/// of the signature, the accounts and the owners that it looks for, and its
/// data predicates.
pub ghost struct AccountsEntry {
    pub name: Seq<char>,
    pub nonempty_txn_signature: Option<bool>,
    pub account: Seq<Pubkey>,
    pub owner: Seq<Pubkey>,
    pub state: StateModel,
}

impl AccountsEntry {
    /// Whether an account update matches the filter: each criterion that
    /// the filter has holds of the update. The signature criterion asks
    /// whether the update has a signature; a key criterion asks whether the
    /// update's key is among the filter's keys.
    pub open spec fn matches(self, account: MessageAccountInfo) -> bool {
        &&& self.nonempty_txn_signature matches Some(flag) ==> flag
            == account.txn_signature.is_some()
        &&& self.account.len() > 0 ==> self.account.contains(account.pubkey)
        &&& self.owner.len() > 0 ==> self.owner.contains(account.owner)
        &&& !self.state.is_empty() ==> self.state.matches(account.data@, account.lamports)
    }
}

/// The test of a declared filter against an account update.
pub open spec fn entry_test(account: MessageAccountInfo) -> spec_fn(AccountsEntry) -> bool {
    |entry: AccountsEntry| entry.matches(account)
}

/// The name of a declared filter.
pub open spec fn entry_label() -> spec_fn(AccountsEntry) -> Seq<char> {
    |entry: AccountsEntry| entry.name
}

/// Whether no two declared filters have the same name.
pub open spec fn entry_names_unique(entries: Seq<AccountsEntry>) -> bool {
    forall|i: int, j: int|
        0 <= i < j < entries.len() ==> (#[trigger] entries[i]).name != (#[trigger] entries[j]).name
}

/// The index that the match procedure reads, built from declared filters
/// one after the other.
pub open spec fn indexed(entries: Seq<AccountsEntry>) -> AccountsModel
    decreases entries.len(),
{
    if entries.len() == 0 {
        AccountsModel::empty()
    } else {
        indexed(entries.drop_last()).with(
            entries.last().name,
            entries.last().nonempty_txn_signature,
            entries.last().account,
            entries.last().owner,
            entries.last().state,
        )
    }
}

/// Whether a declared filter of the given name satisfies `wanted`.
pub open spec fn some_named(
    entries: Seq<AccountsEntry>,
    name: Seq<char>,
    wanted: spec_fn(AccountsEntry) -> bool,
) -> bool {
    exists|i: int| 0 <= i < entries.len() && (#[trigger] entries[i]).name == name && wanted(entries[i])
}

/// What the index holds, said of the declared filters.
pub proof fn lemma_indexed(entries: Seq<AccountsEntry>)
    ensures
        indexed(entries).filters == entries.map_values(
            |entry: AccountsEntry| (entry.name, entry.state),
        ),
        indexed(entries).nonempty_txn_signature == entries.map_values(
            |entry: AccountsEntry| (entry.name, entry.nonempty_txn_signature),
        ),
        forall|name: Seq<char>| #[trigger]
            indexed(entries).nonempty_txn_signature_required.contains(name) <==> some_named(
                entries,
                name,
                |entry: AccountsEntry| entry.nonempty_txn_signature.is_some(),
            ),
        forall|name: Seq<char>| #[trigger]
            indexed(entries).account_required.contains(name) <==> some_named(
                entries,
                name,
                |entry: AccountsEntry| entry.account.len() > 0,
            ),
        forall|name: Seq<char>| #[trigger]
            indexed(entries).owner_required.contains(name) <==> some_named(
                entries,
                name,
                |entry: AccountsEntry| entry.owner.len() > 0,
            ),
        forall|key: Pubkey, name: Seq<char>| #[trigger]
            indexed(entries).account.contains((key, name)) <==> some_named(
                entries,
                name,
                |entry: AccountsEntry| entry.account.contains(key),
            ),
        forall|key: Pubkey, name: Seq<char>| #[trigger]
            indexed(entries).owner.contains((key, name)) <==> some_named(
                entries,
                name,
                |entry: AccountsEntry| entry.owner.contains(key),
            ),
    decreases entries.len(),
{
    let model = indexed(entries);
    if entries.len() == 0 {
        assert(model.filters =~= entries.map_values(
            |entry: AccountsEntry| (entry.name, entry.state),
        ));
        assert(model.nonempty_txn_signature =~= entries.map_values(
            |entry: AccountsEntry| (entry.name, entry.nonempty_txn_signature),
        ));
    } else {
        let rest = entries.drop_last();
        let last = entries.last();
        let before = indexed(rest);
        lemma_indexed(rest);
        assert(model.filters =~= entries.map_values(
            |entry: AccountsEntry| (entry.name, entry.state),
        ));
        assert(model.nonempty_txn_signature =~= entries.map_values(
            |entry: AccountsEntry| (entry.name, entry.nonempty_txn_signature),
        ));
        assert forall|name: Seq<char>| #[trigger]
            model.nonempty_txn_signature_required.contains(name) <==> some_named(
                entries,
                name,
                |entry: AccountsEntry| entry.nonempty_txn_signature.is_some(),
            ) by {
            let wanted = |entry: AccountsEntry| entry.nonempty_txn_signature.is_some();
            lemma_push_contains(before.nonempty_txn_signature_required, last.name, name);
            lemma_some_named_step(entries, name, wanted);
        }
        assert forall|name: Seq<char>| #[trigger]
            model.account_required.contains(name) <==> some_named(
                entries,
                name,
                |entry: AccountsEntry| entry.account.len() > 0,
            ) by {
            let wanted = |entry: AccountsEntry| entry.account.len() > 0;
            lemma_push_contains(before.account_required, last.name, name);
            lemma_some_named_step(entries, name, wanted);
        }
        assert forall|name: Seq<char>| #[trigger]
            model.owner_required.contains(name) <==> some_named(
                entries,
                name,
                |entry: AccountsEntry| entry.owner.len() > 0,
            ) by {
            let wanted = |entry: AccountsEntry| entry.owner.len() > 0;
            lemma_push_contains(before.owner_required, last.name, name);
            lemma_some_named_step(entries, name, wanted);
        }
        assert forall|key: Pubkey, name: Seq<char>| #[trigger]
            model.account.contains((key, name)) <==> some_named(
                entries,
                name,
                |entry: AccountsEntry| entry.account.contains(key),
            ) by {
            let wanted = |entry: AccountsEntry| entry.account.contains(key);
            lemma_add_contains(before.account, keys_named(last.account, last.name), (key, name));
            lemma_keys_named_contains(last.account, last.name, key, name);
            lemma_some_named_step(entries, name, wanted);
        }
        assert forall|key: Pubkey, name: Seq<char>| #[trigger]
            model.owner.contains((key, name)) <==> some_named(
                entries,
                name,
                |entry: AccountsEntry| entry.owner.contains(key),
            ) by {
            let wanted = |entry: AccountsEntry| entry.owner.contains(key);
            lemma_add_contains(before.owner, keys_named(last.owner, last.name), (key, name));
            lemma_keys_named_contains(last.owner, last.name, key, name);
            lemma_some_named_step(entries, name, wanted);
        }
    }
}

/// A pair is among the keys of a list paired with a name exactly when its
/// name is that name and its key is in the list.
pub proof fn lemma_keys_named_contains(
    keys: Seq<Pubkey>,
    name: Seq<char>,
    key: Pubkey,
    wanted: Seq<char>,
)
    ensures
        keys_named(keys, name).contains((key, wanted)) <==> (wanted == name && keys.contains(key)),
{
    let pairs = keys_named(keys, name);
    if pairs.contains((key, wanted)) {
        let i = choose|i: int| 0 <= i < pairs.len() && pairs[i] == (key, wanted);
        assert(keys[i] == key);
    }
    if wanted == name && keys.contains(key) {
        let i = choose|i: int| 0 <= i < keys.len() && keys[i] == key;
        assert(pairs[i] == (key, wanted));
    }
}

/// A declared filter of a name satisfies something exactly when one of the
/// filters before the last does, or the last one has the name and does.
pub proof fn lemma_some_named_step(
    entries: Seq<AccountsEntry>,
    name: Seq<char>,
    wanted: spec_fn(AccountsEntry) -> bool,
)
    requires
        entries.len() > 0,
    ensures
        some_named(entries, name, wanted) <==> (some_named(entries.drop_last(), name, wanted) || (
        entries.last().name == name && wanted(entries.last()))),
{
    let rest = entries.drop_last();
    if some_named(entries, name, wanted) {
        let i = choose|i: int|
            0 <= i < entries.len() && (#[trigger] entries[i]).name == name && wanted(entries[i]);
        if i < rest.len() {
            assert(rest[i].name == name && wanted(rest[i]));
        }
    }
    if some_named(rest, name, wanted) {
        let i = choose|i: int|
            0 <= i < rest.len() && (#[trigger] rest[i]).name == name && wanted(rest[i]);
        assert(entries[i].name == name && wanted(entries[i]));
    }
    if entries.last().name == name && wanted(entries.last()) {
        assert(entries[entries.len() - 1].name == name);
    }
}

/// Among filters with different names, a filter of the name of the filter
/// at `i` satisfies something exactly when the filter at `i` does.
pub proof fn lemma_some_named_unique(
    entries: Seq<AccountsEntry>,
    i: int,
    wanted: spec_fn(AccountsEntry) -> bool,
)
    requires
        entry_names_unique(entries),
        0 <= i < entries.len(),
    ensures
        some_named(entries, entries[i].name, wanted) <==> wanted(entries[i]),
{
    if some_named(entries, entries[i].name, wanted) {
        let j = choose|j: int|
            0 <= j < entries.len() && (#[trigger] entries[j]).name == entries[i].name && wanted(
                entries[j],
            );
        if j < i {
            assert(entries[j].name != entries[i].name);
        }
        if i < j {
            assert(entries[i].name != entries[j].name);
        }
    }
}

/// Whether an index yields, for every account update, the names of the
/// declared filters whose criteria all hold of the update, in the order of
/// the filters.
pub open spec fn yields_declared(model: AccountsModel, entries: Seq<AccountsEntry>) -> bool {
    forall|account: MessageAccountInfo| #[trigger]
        model.matched(account) == select(entries, entry_test(account), entry_label())
}

/// The match procedure over the index yields the names of the declared
/// filters that the account update matches: where no two filters have the
/// same name, a filter's name is yielded exactly when every criterion that
/// the filter has holds of the update's key, owner, signature, data and
/// balance.
pub proof fn lemma_accounts_matched(entries: Seq<AccountsEntry>, account: MessageAccountInfo)
    requires
        entry_names_unique(entries),
    ensures
        indexed(entries).matched(account) == select(entries, entry_test(account), entry_label()),
{
    let model = indexed(entries);
    let passed = model.passed(account);
    let has_signature = account.txn_signature.is_some();
    lemma_indexed(entries);
    assert forall|i: int| 0 <= i < entries.len() implies model.emits(
        passed,
        #[trigger] model.filters[i],
    ) == entries[i].matches(account) by {
        let entry = entries[i];
        let name = entry.name;
        assert(model.filters[i] == (entry.name, entry.state));
        // the signature criterion
        lemma_some_named_unique(
            entries,
            i,
            |entry: AccountsEntry| entry.nonempty_txn_signature.is_some(),
        );
        lemma_select_contains(
            model.nonempty_txn_signature,
            signature_test(has_signature),
            signature_label(),
            name,
        );
        if passed.nonempty_txn_signature.contains(name) {
            let j = choose|j: int|
                0 <= j < model.nonempty_txn_signature.len() && signature_test(has_signature)(
                    #[trigger] model.nonempty_txn_signature[j],
                ) && signature_label()(model.nonempty_txn_signature[j]) == name;
            assert(entries[j].name == name);
            if j < i {
                assert(entries[j].name != entries[i].name);
            }
            if i < j {
                assert(entries[i].name != entries[j].name);
            }
        }
        if entry.nonempty_txn_signature == Some(has_signature) {
            assert(signature_test(has_signature)(model.nonempty_txn_signature[i]));
            assert(signature_label()(model.nonempty_txn_signature[i]) == name);
        }
        // the two key criteria
        lemma_some_named_unique(entries, i, |entry: AccountsEntry| entry.account.len() > 0);
        lemma_some_named_unique(
            entries,
            i,
            |entry: AccountsEntry| entry.account.contains(account.pubkey),
        );
        lemma_index_passed(model.account, account.pubkey, name);
        lemma_some_named_unique(entries, i, |entry: AccountsEntry| entry.owner.len() > 0);
        lemma_some_named_unique(
            entries,
            i,
            |entry: AccountsEntry| entry.owner.contains(account.owner),
        );
        lemma_index_passed(model.owner, account.owner, name);
        // the data predicates
        lemma_select_contains(
            model.filters,
            data_test(account.data@, account.lamports),
            data_label(),
            name,
        );
        if passed.data.contains(name) {
            let j = choose|j: int|
                0 <= j < model.filters.len() && data_test(account.data@, account.lamports)(
                    #[trigger] model.filters[j],
                ) && data_label()(model.filters[j]) == name;
            assert(entries[j].name == name);
            if j < i {
                assert(entries[j].name != entries[i].name);
            }
            if i < j {
                assert(entries[i].name != entries[j].name);
            }
        }
        if entry.state.matches(account.data@, account.lamports) {
            assert(data_test(account.data@, account.lamports)(model.filters[i]));
            assert(data_label()(model.filters[i]) == name);
        }
    }
    lemma_select_pointwise(
        model.filters,
        model.emit_test(passed),
        data_label(),
        entries,
        entry_test(account),
        entry_label(),
    );
}

/// A name passes a key criterion exactly when the index pairs the key with
/// it.
pub proof fn lemma_index_passed(index: Seq<(Pubkey, Seq<char>)>, key: Pubkey, name: Seq<char>)
    ensures
        select(index, key_test(key), key_label()).contains(name) <==> index.contains((key, name)),
{
    lemma_select_contains(index, key_test(key), key_label(), name);
    if index.contains((key, name)) {
        let i = choose|i: int| 0 <= i < index.len() && index[i] == (key, name);
        assert(key_test(key)(index[i]) && key_label()(index[i]) == name);
    }
    if select(index, key_test(key), key_label()).contains(name) {
        let i = choose|i: int|
            0 <= i < index.len() && key_test(key)(#[trigger] index[i]) && key_label()(index[i])
                == name;
        assert(index[i] == (key, name));
    }
}

/// The keys that a list of texts stands for, and no keys where the list is
/// refused.
pub open spec fn keys_or_none(texts: Seq<String>, reject: Seq<Pubkey>) -> Seq<Pubkey> {
    match decoded_keys(texts, reject) {
        Ok(keys) => keys,
        Err(_) => Seq::empty(),
    }
}

/// The account filter that one entry of a request declares, under the
/// server's limits.
pub open spec fn declared_entry(
    limits: FilterLimitsAccounts,
    config: (Seq<char>, SubscribeRequestFilterAccounts),
) -> AccountsEntry {
    AccountsEntry {
        name: config.0,
        nonempty_txn_signature: config.1.nonempty_txn_signature,
        account: keys_or_none(config.1.account@, limits.account_reject@),
        owner: keys_or_none(config.1.owner@, limits.owner_reject@),
        state: match StateModel::compiled(config.1.filters@) {
            Ok(state) => state,
            Err(_) => StateModel::empty(),
        },
    }
}

/// The account filters that a request declares, under the server's limits.
pub open spec fn declared(
    configs: Seq<(Seq<char>, SubscribeRequestFilterAccounts)>,
    limits: FilterLimitsAccounts,
) -> Seq<AccountsEntry> {
    configs.map_values(
        |config: (Seq<char>, SubscribeRequestFilterAccounts)| declared_entry(limits, config),
    )
}

/// Compiling the account filters of a request that is accepted gives the
/// index of the filters that the request declares.
pub proof fn lemma_accounts_compiled(
    configs: Seq<(Seq<char>, SubscribeRequestFilterAccounts)>,
    limits: FilterLimitsAccounts,
    names: NamesState,
)
    requires
        compile_fold(configs, AccountsModel::empty(), names, accounts_step(limits)).is_ok(),
    ensures
        model_of(compile_fold(configs, AccountsModel::empty(), names, accounts_step(limits)))
            == indexed(declared(configs, limits)),
    decreases configs.len(),
{
    if configs.len() > 0 {
        let rest = configs.drop_last();
        lemma_accounts_compiled(rest, limits, names);
        assert(declared(configs, limits).drop_last() =~= declared(rest, limits));
        assert(declared(configs, limits).last() == declared_entry(limits, configs.last()));
    }
}

/// For every account update and every accepted request whose account
/// filters have different names, the compiled filter yields the names of the
/// filters, in the order of the request, whose declared criteria all hold of
/// the update. The names of every `FilterMap` differ, by the invariant of
/// the type, so this holds of every request that a program holds; the
/// builders `FilterAccounts::new` and `Filter::new` state it of their result.
pub proof fn lemma_accounts_filter(
    configs: Seq<(Seq<char>, SubscribeRequestFilterAccounts)>,
    limits: FilterLimitsAccounts,
    names: NamesState,
    account: MessageAccountInfo,
)
    requires
        names_unique(configs),
        accounts_compiled(configs, limits, names).is_ok(),
    ensures
        model_of(accounts_compiled(configs, limits, names)).matched(account) == select(
            declared(configs, limits),
            entry_test(account),
            entry_label(),
        ),
{
    let entries = declared(configs, limits);
    lemma_accounts_compiled(configs, limits, names);
    assert forall|i: int, j: int| 0 <= i < j < entries.len() implies (#[trigger] entries[i]).name
        != (#[trigger] entries[j]).name by {
        assert(configs[i].0 != configs[j].0);
    }
    lemma_accounts_matched(entries, account);
}

/// Whether every step that succeeds appends the entry that `entry_of` makes
/// of the filter.
pub open spec fn appends<C, E>(
    step: spec_fn(Seq<E>, NamesState, Seq<char>, C) -> Outcome<Seq<E>>,
    entry_of: spec_fn(Seq<char>, C) -> E,
) -> bool {
    forall|model: Seq<E>, names: NamesState, name: Seq<char>, config: C|
        (#[trigger] step(model, names, name, config)).is_ok() ==> model_of(
            step(model, names, name, config),
        ) == model.push(entry_of(name, config))
}

/// Where every step appends one entry, compiling gives one entry for each
/// filter of the request, in the order of the request.
pub proof fn lemma_fold_appends<C, E>(
    configs: Seq<(Seq<char>, C)>,
    names: NamesState,
    step: spec_fn(Seq<E>, NamesState, Seq<char>, C) -> Outcome<Seq<E>>,
    entry_of: spec_fn(Seq<char>, C) -> E,
)
    requires
        appends(step, entry_of),
        compile_fold(configs, Seq::empty(), names, step).is_ok(),
    ensures
        model_of(compile_fold(configs, Seq::empty(), names, step)) == configs.map_values(
            |config: (Seq<char>, C)| entry_of(config.0, config.1),
        ),
    decreases configs.len(),
{
    let entries = configs.map_values(|config: (Seq<char>, C)| entry_of(config.0, config.1));
    if configs.len() == 0 {
        assert(entries =~= Seq::empty());
    } else {
        let rest = configs.drop_last();
        lemma_fold_appends(rest, names, step, entry_of);
        let before = compile_fold(rest, Seq::empty(), names, step);
        assert(step(
            model_of(before),
            names_of(before),
            configs.last().0,
            configs.last().1,
        ).is_ok());
        assert(entries =~= rest.map_values(
            |config: (Seq<char>, C)| entry_of(config.0, config.1),
        ).push(entry_of(configs.last().0, configs.last().1)));
    }
}

/// The transaction filter that one entry of a request declares, under the
/// server's limits.
pub open spec fn transactions_entry(limits: FilterLimitsTransactions) -> spec_fn(
    Seq<char>,
    SubscribeRequestFilterTransactions,
) -> TransactionsEntry {
    |name: Seq<char>, filter: SubscribeRequestFilterTransactions|
        TransactionsEntry {
            name,
            vote: filter.vote,
            failed: filter.failed,
            signature: match wanted_signature(filter.signature) {
                Ok(signature) => signature,
                Err(_) => None,
            },
            account_include: keys_or_none(filter.account_include@, limits.account_include_reject@),
            account_exclude: keys_or_none(filter.account_exclude@, Seq::empty()),
            account_required: keys_or_none(filter.account_required@, Seq::empty()),
        }
}

/// Building the transaction filters of an accepted request and feeding the
/// compiled filter a transaction that matches what the entry at `i`
/// declares yields the name of that entry.
pub proof fn lemma_round_trip_transactions(
    configs: Seq<(Seq<char>, SubscribeRequestFilterTransactions)>,
    limits: FilterLimitsTransactions,
    names: NamesState,
    i: int,
    transaction: MessageTransactionInfo,
)
    requires
        transactions_compiled(configs, limits, names).is_ok(),
        0 <= i < configs.len(),
        transactions_entry(limits)(configs[i].0, configs[i].1).matches(transaction),
    ensures
        transactions_matched(
            model_of(transactions_compiled(configs, limits, names)),
            transaction,
        ).contains(configs[i].0),
{
    let step = transactions_step(limits);
    let entry_of = transactions_entry(limits);
    assert(appends(step, entry_of));
    lemma_fold_appends(configs, names, step, entry_of);
    let entries = model_of(transactions_compiled(configs, limits, names));
    assert(entries[i] == entry_of(configs[i].0, configs[i].1));
    lemma_transaction_yielded(entries, transaction, configs[i].0);
}

/// The slot filter that one entry of a request declares.
pub open spec fn slots_entry() -> spec_fn(Seq<char>, SubscribeRequestFilterSlots) -> SlotsEntry {
    |name: Seq<char>, filter: SubscribeRequestFilterSlots|
        SlotsEntry { name, filter_by_commitment: filter.filter_by_commitment == Some(true) }
}

/// Building the slot filters of an accepted request and feeding the
/// compiled filter a slot update that matches what the entry at `i`
/// declares yields the name of that entry: any update where the entry sets
/// no gate, and else an update whose status is the commitment level of the
/// subscription.
pub proof fn lemma_round_trip_slots(
    configs: Seq<(Seq<char>, SubscribeRequestFilterSlots)>,
    limits: crate::limits::FilterLimitsSlots,
    names: NamesState,
    i: int,
    status: CommitmentLevel,
    commitment: Option<CommitmentLevel>,
)
    requires
        slots_compiled(configs, limits, names).is_ok(),
        0 <= i < configs.len(),
        configs[i].1.filter_by_commitment != Some(true) || commitment == Some(status),
    ensures
        slots_matched(model_of(slots_compiled(configs, limits, names)), status, commitment).contains(
            configs[i].0,
        ),
{
    let step = slots_step();
    let entry_of = slots_entry();
    assert(appends(step, entry_of));
    lemma_fold_appends(configs, names, step, entry_of);
    let entries = model_of(slots_compiled(configs, limits, names));
    assert(entries[i] == entry_of(configs[i].0, configs[i].1));
    assert(slot_test(status, commitment)(entries[i]));
    lemma_select_contains(entries, slot_test(status, commitment), slot_label(), configs[i].0);
}

/// The label that one entry of a request declares.
pub open spec fn label_entry<C>() -> spec_fn(Seq<char>, C) -> Seq<char> {
    |name: Seq<char>, filter: C| name
}

/// Building the entry filters, or the block-meta filters, of an accepted
/// request gives the names of the request, in order: every entry, and the
/// metadata of every block, yields each of them.
pub proof fn lemma_round_trip_names<C>(
    configs: Seq<(Seq<char>, C)>,
    max: usize,
    names: NamesState,
    i: int,
)
    requires
        names_compiled(configs, max, names).is_ok(),
        0 <= i < configs.len(),
    ensures
        model_of(names_compiled(configs, max, names)).len() == configs.len(),
        model_of(names_compiled(configs, max, names))[i] == configs[i].0,
{
    let step = name_step::<C>();
    let entry_of = label_entry::<C>();
    assert(appends(step, entry_of));
    lemma_fold_appends(configs, names, step, entry_of);
}

/// The block filter that one entry of a request declares, under the
/// server's limits.
pub open spec fn blocks_entry(limits: FilterLimitsBlocks) -> spec_fn(
    Seq<char>,
    SubscribeRequestFilterBlocks,
) -> BlocksEntry {
    |name: Seq<char>, filter: SubscribeRequestFilterBlocks|
        BlocksEntry {
            name,
            account_include: keys_or_none(filter.account_include@, limits.account_include_reject@),
            include_transactions: filter.include_transactions,
            include_accounts: filter.include_accounts,
            include_entries: filter.include_entries,
        }
}

/// Building the block filters of an accepted request gives one filter for
/// each entry of the request, with the entry's name, keys and flags: every
/// block is sent once under each of these names.
pub proof fn lemma_round_trip_blocks(
    configs: Seq<(Seq<char>, SubscribeRequestFilterBlocks)>,
    limits: FilterLimitsBlocks,
    names: NamesState,
    i: int,
)
    requires
        blocks_compiled(configs, limits, names).is_ok(),
        0 <= i < configs.len(),
    ensures
        model_of(blocks_compiled(configs, limits, names)).len() == configs.len(),
        model_of(blocks_compiled(configs, limits, names))[i] == blocks_entry(limits)(
            configs[i].0,
            configs[i].1,
        ),
{
    let step = blocks_step(limits);
    let entry_of = blocks_entry(limits);
    assert(appends(step, entry_of));
    lemma_fold_appends(configs, names, step, entry_of);
}

/// Building the account filters of an accepted request whose filters have
/// different names, as those of every `FilterMap` do, and feeding the
/// compiled filter an account update that matches what the entry at `i`
/// declares yields the name of that entry.
pub proof fn lemma_round_trip_accounts(
    configs: Seq<(Seq<char>, SubscribeRequestFilterAccounts)>,
    limits: FilterLimitsAccounts,
    names: NamesState,
    i: int,
    account: MessageAccountInfo,
)
    requires
        names_unique(configs),
        accounts_compiled(configs, limits, names).is_ok(),
        0 <= i < configs.len(),
        declared_entry(limits, configs[i]).matches(account),
    ensures
        model_of(accounts_compiled(configs, limits, names)).matched(account).contains(configs[i].0),
{
    lemma_accounts_filter(configs, limits, names, account);
    let entries = declared(configs, limits);
    assert(entry_test(account)(entries[i]) && entry_label()(entries[i]) == configs[i].0);
    lemma_select_contains(entries, entry_test(account), entry_label(), configs[i].0);
}

/// Whether a step looks at the registry only to intern the filter's name:
/// where it succeeds, the registry afterwards is the one that asking for the
/// name gives; and where it succeeds with one registry, it succeeds with
/// every registry that takes the name, and compiles the same.
pub open spec fn regular<C, M>(step: spec_fn(M, NamesState, Seq<char>, C) -> Outcome<M>) -> bool {
    &&& forall|model: M, names: NamesState, name: Seq<char>, config: C|
        (#[trigger] step(model, names, name, config)).is_ok() ==> names.get(name) == Ok::<
            NamesState,
            FilterNameError,
        >(names_of(step(model, names, name, config)))
    &&& forall|model: M, names: NamesState, other: NamesState, name: Seq<char>, config: C|
        (#[trigger] step(model, names, name, config)).is_ok() && (#[trigger] other.get(
            name,
        )).is_ok() ==> step(model, other, name, config) == Ok::<
            (M, NamesState),
            (FilterError, NamesState),
        >((model_of(step(model, names, name, config)), other.get(name).unwrap()))
}

/// After compiling with success, the registry holds the name of every
/// filter, and all that it held before.
pub proof fn lemma_fold_names<C, M>(
    configs: Seq<(Seq<char>, C)>,
    init: M,
    names: NamesState,
    step: spec_fn(M, NamesState, Seq<char>, C) -> Outcome<M>,
)
    requires
        regular(step),
        compile_fold(configs, init, names, step).is_ok(),
    ensures
        names_of(compile_fold(configs, init, names, step)).extends(names),
        forall|i: int|
            0 <= i < configs.len() ==> names_of(compile_fold(configs, init, names, step)).holds(
                (#[trigger] configs[i]).0,
            ),
    decreases configs.len(),
{
    if configs.len() > 0 {
        let rest = configs.drop_last();
        let before = compile_fold(rest, init, names, step);
        lemma_fold_names(rest, init, names, step);
        let middle = names_of(before);
        let outcome = step(model_of(before), middle, configs.last().0, configs.last().1);
        assert(outcome.is_ok());
        middle.lemma_get_extends(configs.last().0);
        let after = names_of(outcome);
        after.lemma_extends_trans(middle, names);
        assert forall|i: int| 0 <= i < configs.len() implies after.holds(
            (#[trigger] configs[i]).0,
        ) by {
            if i < rest.len() {
                assert(middle.holds(rest[i].0));
            }
        }
    }
}

/// Compiling once more, with a registry that holds all that the registry
/// held after a first success, succeeds and compiles the same.
pub proof fn lemma_fold_again<C, M>(
    configs: Seq<(Seq<char>, C)>,
    init: M,
    step: spec_fn(M, NamesState, Seq<char>, C) -> Outcome<M>,
    first: NamesState,
    again: NamesState,
)
    requires
        regular(step),
        compile_fold(configs, init, first, step).is_ok(),
        again.extends(names_of(compile_fold(configs, init, first, step))),
    ensures
        compile_fold(configs, init, again, step).is_ok(),
        model_of(compile_fold(configs, init, again, step)) == model_of(
            compile_fold(configs, init, first, step),
        ),
        names_of(compile_fold(configs, init, again, step)).extends(again),
    decreases configs.len(),
{
    if configs.len() > 0 {
        let rest = configs.drop_last();
        let name = configs.last().0;
        let config = configs.last().1;
        let before = compile_fold(rest, init, first, step);
        let outcome = step(model_of(before), names_of(before), name, config);
        assert(outcome.is_ok());
        lemma_fold_names(configs, init, first, step);
        names_of(before).lemma_get_extends(name);
        again.lemma_extends_trans(names_of(outcome), names_of(before));
        lemma_fold_again(rest, init, step, first, again);
        let second = compile_fold(rest, init, again, step);
        assert(names_of(compile_fold(configs, init, first, step)).holds(configs[configs.len() - 1].0));
        assert(again.holds(name));
        assert(names_of(second).holds(name));
        names_of(second).lemma_get_held(name);
        names_of(second).lemma_get_extends(name);
        let after = names_of(second).get(name).unwrap();
        after.lemma_extends_trans(names_of(second), again);
        assert(step(model_of(second), names_of(second), name, config) == Ok::<
            (M, NamesState),
            (FilterError, NamesState),
        >((model_of(outcome), after)));
    }
}

/// Each kind of filter is compiled by a step that looks at the registry
/// only to intern the filter's name.
pub proof fn lemma_steps_regular(limits: FilterLimits)
    ensures
        regular(accounts_step(limits.accounts)),
        regular(slots_step()),
        regular(transactions_step(limits.transactions)),
        regular(transactions_step(limits.transactions_status)),
        regular(name_step::<crate::geyser::SubscribeRequestFilterEntry>()),
        regular(blocks_step(limits.blocks)),
        regular(name_step::<crate::geyser::SubscribeRequestFilterBlocksMeta>()),
{
}

/// Installing the request that was just installed gives the same filter:
/// where a request is accepted, it is accepted again with the registry that
/// the first time left, and compiles to the same filter.
#[verifier::rlimit(40)]
pub proof fn lemma_install_again(config: SubscribeRequest, limits: FilterLimits, names: NamesState)
    requires
        FilterModel::compiled(config, limits, names).is_ok(),
    ensures
        FilterModel::compiled(
            config,
            limits,
            names_of(FilterModel::compiled(config, limits, names)),
        ).is_ok(),
        model_of(
            FilterModel::compiled(
                config,
                limits,
                names_of(FilterModel::compiled(config, limits, names)),
            ),
        ) == model_of(FilterModel::compiled(config, limits, names)),
{
    lemma_steps_regular(limits);
    let empty = Seq::<Seq<char>>::empty();
    // the first time
    let a = compile_fold(config.accounts@, AccountsModel::empty(), names, accounts_step(limits.accounts));
    let s = compile_fold(config.slots@, Seq::empty(), names_of(a), slots_step());
    let t = compile_fold(
        config.transactions@,
        Seq::empty(),
        names_of(s),
        transactions_step(limits.transactions),
    );
    let u = compile_fold(
        config.transactions_status@,
        Seq::empty(),
        names_of(t),
        transactions_step(limits.transactions_status),
    );
    let e = compile_fold(config.entry@, empty, names_of(u), name_step());
    let b = compile_fold(config.blocks@, Seq::empty(), names_of(e), blocks_step(limits.blocks));
    let m = compile_fold(config.blocks_meta@, empty, names_of(b), name_step());
    let last = names_of(m);
    assert(names_of(FilterModel::compiled(config, limits, names)) == last);
    lemma_fold_names(config.blocks_meta@, empty, names_of(b), name_step());
    lemma_fold_names(config.blocks@, Seq::empty(), names_of(e), blocks_step(limits.blocks));
    lemma_fold_names(config.entry@, empty, names_of(u), name_step());
    lemma_fold_names(
        config.transactions_status@,
        Seq::empty(),
        names_of(t),
        transactions_step(limits.transactions_status),
    );
    lemma_fold_names(
        config.transactions@,
        Seq::empty(),
        names_of(s),
        transactions_step(limits.transactions),
    );
    lemma_fold_names(config.slots@, Seq::empty(), names_of(a), slots_step());
    lemma_fold_names(config.accounts@, AccountsModel::empty(), names, accounts_step(limits.accounts));
    last.lemma_extends_trans(names_of(b), names_of(e));
    last.lemma_extends_trans(names_of(e), names_of(u));
    last.lemma_extends_trans(names_of(u), names_of(t));
    last.lemma_extends_trans(names_of(t), names_of(s));
    last.lemma_extends_trans(names_of(s), names_of(a));
    // the second time
    lemma_fold_again(
        config.accounts@,
        AccountsModel::empty(),
        accounts_step(limits.accounts),
        names,
        last,
    );
    let a2 = compile_fold(config.accounts@, AccountsModel::empty(), last, accounts_step(limits.accounts));
    names_of(a2).lemma_extends_trans(last, names_of(s));
    lemma_fold_again(config.slots@, Seq::empty(), slots_step(), names_of(a), names_of(a2));
    let s2 = compile_fold(config.slots@, Seq::empty(), names_of(a2), slots_step());
    names_of(s2).lemma_extends_trans(names_of(a2), last);
    names_of(s2).lemma_extends_trans(last, names_of(t));
    lemma_fold_again(
        config.transactions@,
        Seq::empty(),
        transactions_step(limits.transactions),
        names_of(s),
        names_of(s2),
    );
    let t2 = compile_fold(
        config.transactions@,
        Seq::empty(),
        names_of(s2),
        transactions_step(limits.transactions),
    );
    names_of(t2).lemma_extends_trans(names_of(s2), last);
    names_of(t2).lemma_extends_trans(last, names_of(u));
    lemma_fold_again(
        config.transactions_status@,
        Seq::empty(),
        transactions_step(limits.transactions_status),
        names_of(t),
        names_of(t2),
    );
    let u2 = compile_fold(
        config.transactions_status@,
        Seq::empty(),
        names_of(t2),
        transactions_step(limits.transactions_status),
    );
    names_of(u2).lemma_extends_trans(names_of(t2), last);
    names_of(u2).lemma_extends_trans(last, names_of(e));
    lemma_fold_again(config.entry@, empty, name_step(), names_of(u), names_of(u2));
    let e2 = compile_fold(config.entry@, empty, names_of(u2), name_step());
    names_of(e2).lemma_extends_trans(names_of(u2), last);
    names_of(e2).lemma_extends_trans(last, names_of(b));
    lemma_fold_again(
        config.blocks@,
        Seq::empty(),
        blocks_step(limits.blocks),
        names_of(e),
        names_of(e2),
    );
    let b2 = compile_fold(config.blocks@, Seq::empty(), names_of(e2), blocks_step(limits.blocks));
    names_of(b2).lemma_extends_trans(names_of(e2), last);
    lemma_fold_again(config.blocks_meta@, empty, name_step(), names_of(b), names_of(b2));
}

/// Installing the same request twice in a row on a session delivers as
/// installing it once: where the first request makes the session active, the
/// second leaves it active with the same filter, so that every later message
/// is sent as the same updates.
pub proof fn lemma_session_idempotent(session: SessionModel, request: SubscribeRequest)
    requires
        session.state != SessionState::Closing,
        FilterModel::compiled(request, session.limits, session.names).is_ok(),
    ensures
        session.requested(request).state == SessionState::Active,
        session.requested(request).requested(request).state == SessionState::Active,
        session.requested(request).requested(request).filter == session.requested(request).filter,
{
    lemma_install_again(request, session.limits, session.names);
}

/// What compiling a request gives for each kind of filter, where the
/// request is accepted: the filters of the kind, compiled with the registry
/// that the kinds before it left.
pub proof fn lemma_compiled_kinds(config: SubscribeRequest, limits: FilterLimits, names: NamesState)
    requires
        FilterModel::compiled(config, limits, names).is_ok(),
    ensures
        ({
            let model = model_of(FilterModel::compiled(config, limits, names));
            let a = accounts_compiled(config.accounts@, limits.accounts, names);
            let s = slots_compiled(config.slots@, limits.slots, names_of(a));
            let t = transactions_compiled(config.transactions@, limits.transactions, names_of(s));
            let u = transactions_compiled(
                config.transactions_status@,
                limits.transactions_status,
                names_of(t),
            );
            let e = names_compiled(config.entry@, limits.entries.max, names_of(u));
            let b = blocks_compiled(config.blocks@, limits.blocks, names_of(e));
            let m = names_compiled(config.blocks_meta@, limits.blocks_meta.max, names_of(b));
            &&& a.is_ok() && model.accounts == model_of(a)
            &&& s.is_ok() && model.slots == model_of(s)
            &&& t.is_ok() && model.transactions == model_of(t)
            &&& u.is_ok() && model.transactions_status == model_of(u)
            &&& e.is_ok() && model.entries == model_of(e)
            &&& b.is_ok() && model.blocks == model_of(b)
            &&& m.is_ok() && model.blocks_meta == model_of(m)
            &&& decoded_commitment(config.commitment) == Ok::<CommitmentLevel, FilterError>(
                model.commitment,
            )
            &&& model.accounts_data_slice == config.accounts_data_slice@
        }),
{
}

/// The account record of a message, where it is an account update.
pub open spec fn account_record(message: Message) -> MessageAccountInfo {
    match message {
        Message::Account(update) => *update.account,
        _ => arbitrary(),
    }
}

/// The transaction record of a message, where it is a transaction.
pub open spec fn transaction_record(message: Message) -> MessageTransactionInfo {
    match message {
        Message::Transaction(update) => *update.transaction,
        _ => arbitrary(),
    }
}

/// The status of a message, where it is a slot update.
pub open spec fn slot_status(message: Message) -> CommitmentLevel {
    match message {
        Message::Slot(update) => update.status,
        _ => arbitrary(),
    }
}

/// Building the filter of an accepted request and feeding it the message
/// that one of the request's filters asks for yields the name of that
/// filter, at the position of the filter's channel:
/// an account update that matches an account filter, where the account
/// filters have different names, as those of every `FilterMap` do; a
/// transaction that matches a filter of the
/// transaction channel or of the status channel; a slot update whose status
/// a slot filter lets through; any entry and any block metadata. A block is
/// sent once under the name of each block filter.
pub proof fn lemma_round_trip(
    config: SubscribeRequest,
    limits: FilterLimits,
    names: NamesState,
    message: Message,
    commitment: Option<CommitmentLevel>,
    i: int,
)
    requires
        FilterModel::compiled(config, limits, names).is_ok(),
        0 <= i,
    ensures
        ({
            let model = model_of(FilterModel::compiled(config, limits, names));
            let yielded = model.matched(message, commitment);
            &&& (message is Account && names_unique(config.accounts@) && i < config.accounts@.len()
                && declared_entry(limits.accounts, config.accounts@[i]).matches(
                account_record(message),
            )) ==> yielded[0].contains(config.accounts@[i].0)
            &&& (message is Transaction && i < config.transactions@.len() && transactions_entry(
                limits.transactions,
            )(config.transactions@[i].0, config.transactions@[i].1).matches(
                transaction_record(message),
            )) ==> yielded[0].contains(config.transactions@[i].0)
            &&& (message is Transaction && i < config.transactions_status@.len()
                && transactions_entry(limits.transactions_status)(
                config.transactions_status@[i].0,
                config.transactions_status@[i].1,
            ).matches(transaction_record(message))) ==> yielded[1].contains(
                config.transactions_status@[i].0,
            )
            &&& (message is Slot && i < config.slots@.len() && (
            config.slots@[i].1.filter_by_commitment != Some(true) || commitment == Some(
                slot_status(message),
            ))) ==> yielded[0].contains(config.slots@[i].0)
            &&& (message is Entry && i < config.entry@.len()) ==> yielded[0].contains(
                config.entry@[i].0,
            )
            &&& (message is BlockMeta && i < config.blocks_meta@.len()) ==> yielded[0].contains(
                config.blocks_meta@[i].0,
            )
            &&& (message is Block && i < config.blocks@.len()) ==> yielded.len()
                == config.blocks@.len() && yielded[i] == seq![config.blocks@[i].0]
        }),
{
    lemma_compiled_kinds(config, limits, names);
    let model = model_of(FilterModel::compiled(config, limits, names));
    let a = accounts_compiled(config.accounts@, limits.accounts, names);
    let s = slots_compiled(config.slots@, limits.slots, names_of(a));
    let t = transactions_compiled(config.transactions@, limits.transactions, names_of(s));
    let u = transactions_compiled(
        config.transactions_status@,
        limits.transactions_status,
        names_of(t),
    );
    let e = names_compiled(config.entry@, limits.entries.max, names_of(u));
    let b = blocks_compiled(config.blocks@, limits.blocks, names_of(e));
    if message is Account && names_unique(config.accounts@) && i < config.accounts@.len()
        && declared_entry(limits.accounts, config.accounts@[i]).matches(account_record(message)) {
        lemma_round_trip_accounts(
            config.accounts@,
            limits.accounts,
            names,
            i,
            account_record(message),
        );
    }
    if message is Transaction && i < config.transactions@.len() && transactions_entry(
        limits.transactions,
    )(config.transactions@[i].0, config.transactions@[i].1).matches(transaction_record(message)) {
        lemma_round_trip_transactions(
            config.transactions@,
            limits.transactions,
            names_of(s),
            i,
            transaction_record(message),
        );
    }
    if message is Transaction && i < config.transactions_status@.len() && transactions_entry(
        limits.transactions_status,
    )(config.transactions_status@[i].0, config.transactions_status@[i].1).matches(
        transaction_record(message),
    ) {
        lemma_round_trip_transactions(
            config.transactions_status@,
            limits.transactions_status,
            names_of(t),
            i,
            transaction_record(message),
        );
    }
    if message is Slot && i < config.slots@.len() && (config.slots@[i].1.filter_by_commitment
        != Some(true) || commitment == Some(slot_status(message))) {
        lemma_round_trip_slots(
            config.slots@,
            limits.slots,
            names_of(a),
            i,
            slot_status(message),
            commitment,
        );
    }
    if message is Entry && i < config.entry@.len() {
        lemma_round_trip_names(config.entry@, limits.entries.max, names_of(u), i);
        assert(model.entries[i] == config.entry@[i].0);
    }
    if message is BlockMeta && i < config.blocks_meta@.len() {
        lemma_round_trip_names(config.blocks_meta@, limits.blocks_meta.max, names_of(b), i);
        assert(model.blocks_meta[i] == config.blocks_meta@[i].0);
    }
    if message is Block && i < config.blocks@.len() {
        lemma_round_trip_blocks(config.blocks@, limits.blocks, names_of(e), i);
    }
}

} // verus!
