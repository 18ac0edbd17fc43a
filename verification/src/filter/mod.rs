//! The compiled filter of one subscription.

pub mod accounts;
pub mod blocks;
pub mod data_slice;
pub mod error;
pub mod projection;
pub mod simple;
pub mod slots;
pub mod state;
pub mod transactions;

pub use data_slice::FilterAccountsDataSlice;
pub use error::{FilterError, FilterResult};
pub use projection::FilteredMessage;

use crate::filter::accounts::{accounts_compiled, AccountsModel, FilterAccounts};
use crate::filter::blocks::{blocks_compiled, BlocksEntry, FilterBlocks};
use crate::filter::data_slice::slices_fault;
use crate::filter::error::Outcome;
use crate::filter::projection::proto_of;
use crate::filter::simple::{names_compiled, FilterBlocksMeta, FilterEntries};
use crate::filter::slots::{slots_compiled, slots_matched, FilterSlots, SlotsEntry};
use crate::filter::transactions::{
    transactions_compiled, transactions_matched, FilterTransactions, FilterTransactionsType,
    TransactionsEntry,
};
use crate::laws::{declared, yields_declared};
use crate::geyser::{
    SubscribeRequest, SubscribeRequestAccountsDataSlice, SubscribeUpdate, SubscribeUpdatePong,
    UpdateOneof,
};
use crate::limits::FilterLimits;
use crate::message::{CommitmentLevel, Message};
use crate::name::{names_view, FilterName, FilterNames, NamesState};
use crate::seqs::{lemma_filter_none, lemma_filter_step};
use vstd::prelude::*;

verus! {

/// What a compiled filter holds: the filters of each kind, the commitment
/// level, the data slices and the ping of the subscription.
pub ghost struct FilterModel {
    pub accounts: AccountsModel,
    pub slots: Seq<SlotsEntry>,
    pub transactions: Seq<TransactionsEntry>,
    pub transactions_status: Seq<TransactionsEntry>,
    pub entries: Seq<Seq<char>>,
    pub blocks: Seq<BlocksEntry>,
    pub blocks_meta: Seq<Seq<char>>,
    pub commitment: CommitmentLevel,
    pub accounts_data_slice: Seq<SubscribeRequestAccountsDataSlice>,
    pub ping: Option<i32>,
}

/// The level with the given number on the wire; `Dead` for the last number
/// and beyond.
pub open spec fn level_of(code: i32) -> CommitmentLevel {
    if code == 0 {
        CommitmentLevel::Processed
    } else if code == 1 {
        CommitmentLevel::Confirmed
    } else if code == 2 {
        CommitmentLevel::Finalized
    } else if code == 3 {
        CommitmentLevel::FirstShredReceived
    } else if code == 4 {
        CommitmentLevel::Completed
    } else if code == 5 {
        CommitmentLevel::CreatedBank
    } else {
        CommitmentLevel::Dead
    }
}

/// The commitment level that a request asks for: processed where it asks
/// for none, and a refusal where its number stands for no level.
pub open spec fn decoded_commitment(commitment: Option<i32>) -> Result<CommitmentLevel, FilterError> {
    match commitment {
        None => Ok(CommitmentLevel::Processed),
        Some(code) => if 0 <= code <= 6 {
            Ok(level_of(code))
        } else {
            Err(FilterError::InvalidCommitment { commitment: code })
        },
    }
}

/// The label of each text of a list.
pub open spec fn labels(filters: Seq<String>) -> Seq<Seq<char>> {
    filters.map_values(|name: String| name@)
}

/// The positions of the name lists that are not empty, in order.
pub open spec fn delivered(matched: Seq<Seq<Seq<char>>>) -> Seq<int> {
    Seq::new(matched.len(), |i: int| i).filter(|i: int| matched[i].len() > 0)
}

impl FilterModel {
    /// The filter that lets nothing through.
    pub open spec fn empty() -> FilterModel {
        FilterModel {
            accounts: AccountsModel::empty(),
            slots: Seq::empty(),
            transactions: Seq::empty(),
            transactions_status: Seq::empty(),
            entries: Seq::empty(),
            blocks: Seq::empty(),
            blocks_meta: Seq::empty(),
            commitment: CommitmentLevel::Processed,
            accounts_data_slice: Seq::empty(),
            ping: None,
        }
    }

    /// The filter that a request asks for, unless the request is refused.
    /// The kinds are compiled in the order accounts, slots, transactions,
    /// transaction statuses, entries, blocks, block metadata; then come the
    /// commitment level and the data slices. The first refusal decides.
    pub open spec fn compiled(config: SubscribeRequest, limits: FilterLimits, names: NamesState)
        -> Outcome<FilterModel> {
        match accounts_compiled(config.accounts@, limits.accounts, names) {
            Err(failure) => Err(failure),
            Ok((accounts, names)) => match slots_compiled(config.slots@, limits.slots, names) {
                Err(failure) => Err(failure),
                Ok((slots, names)) => match transactions_compiled(
                    config.transactions@,
                    limits.transactions,
                    names,
                ) {
                    Err(failure) => Err(failure),
                    Ok((transactions, names)) => match transactions_compiled(
                        config.transactions_status@,
                        limits.transactions_status,
                        names,
                    ) {
                        Err(failure) => Err(failure),
                        Ok((transactions_status, names)) => match names_compiled(
                            config.entry@,
                            limits.entries.max,
                            names,
                        ) {
                            Err(failure) => Err(failure),
                            Ok((entries, names)) => match blocks_compiled(
                                config.blocks@,
                                limits.blocks,
                                names,
                            ) {
                                Err(failure) => Err(failure),
                                Ok((blocks, names)) => match names_compiled(
                                    config.blocks_meta@,
                                    limits.blocks_meta.max,
                                    names,
                                ) {
                                    Err(failure) => Err(failure),
                                    Ok((blocks_meta, names)) => match decoded_commitment(
                                        config.commitment,
                                    ) {
                                        Err(error) => Err((error, names)),
                                        Ok(commitment) => match slices_fault(
                                            config.accounts_data_slice@,
                                            limits.accounts.data_slice_max,
                                        ) {
                                            Some(error) => Err((error, names)),
                                            None => Ok(
                                                (
                                                    FilterModel {
                                                        accounts,
                                                        slots,
                                                        transactions,
                                                        transactions_status,
                                                        entries,
                                                        blocks,
                                                        blocks_meta,
                                                        commitment,
                                                        accounts_data_slice: config.accounts_data_slice@,
                                                        ping: match config.ping {
                                                            Some(ping) => Some(ping.id),
                                                            None => None,
                                                        },
                                                    },
                                                    names,
                                                ),
                                            ),
                                        },
                                    },
                                },
                            },
                        },
                    },
                },
            },
        }
    }

    /// For each update that a message may be sent as, the names of the
    /// filters that it matches. An account, a slot, an entry or the metadata
    /// of a block may be sent as one update; a transaction as two, on the
    /// transaction channel and on the status channel; a block as one update
    /// for each block filter. Only slot filters look at the commitment
    /// level.
    pub open spec fn matched(self, message: Message, commitment: Option<CommitmentLevel>) -> Seq<
        Seq<Seq<char>>,
    > {
        match message {
            Message::Account(message) => seq![self.accounts.matched(*message.account)],
            Message::Slot(message) => seq![slots_matched(self.slots, message.status, commitment)],
            Message::Transaction(message) => seq![
                transactions_matched(self.transactions, *message.transaction),
                transactions_matched(self.transactions_status, *message.transaction),
            ],
            Message::Entry(_) => seq![self.entries],
            Message::Block(_) => self.blocks.map_values(|entry: BlocksEntry| seq![entry.name]),
            Message::BlockMeta(_) => seq![self.blocks_meta],
        }
    }

    /// Whether `filtered` is what the update at `index` carries of a
    /// message: the message itself under its channel, and for a block the
    /// part that the block filter at `index` lets through.
    pub open spec fn carries(self, message: Message, index: int, filtered: FilteredMessage) -> bool {
        match message {
            Message::Account(message) => filtered == FilteredMessage::Account(&message),
            Message::Slot(message) => filtered == FilteredMessage::Slot(&message),
            Message::Transaction(message) => if index == 0 {
                filtered == FilteredMessage::Transaction(&message)
            } else {
                filtered == FilteredMessage::TransactionStatus(&message)
            },
            Message::Entry(message) => filtered == FilteredMessage::Entry(&*message),
            Message::Block(message) => {
                &&& 0 <= index < self.blocks.len()
                &&& filtered matches FilteredMessage::Block(part)
                &&& self.blocks[index].projects(*message, part)
            },
            Message::BlockMeta(message) => filtered == FilteredMessage::BlockMeta(&*message),
        }
    }

    /// Whether `update` is the wire update for the position `index` of a
    /// message: it is labelled with the names matched there and carries the
    /// wire form of what the position carries, account data cut to the
    /// subscription's slices.
    pub open spec fn sends(
        self,
        message: Message,
        commitment: Option<CommitmentLevel>,
        index: int,
        update: SubscribeUpdate,
    ) -> bool {
        &&& 0 <= index < self.matched(message, commitment).len()
        &&& labels(update.filters@) == self.matched(message, commitment)[index]
        &&& update.update_oneof matches Some(out)
        &&& exists|filtered: FilteredMessage|
            self.carries(message, index, filtered) && #[trigger] proto_of(
                filtered,
                self.accounts_data_slice,
                out,
            )
    }
}

/// The compiled filter of one subscription.
#[derive(Debug, Clone)]
pub struct Filter {
    accounts: FilterAccounts,
    slots: FilterSlots,
    transactions: FilterTransactions,
    transactions_status: FilterTransactions,
    entries: FilterEntries,
    blocks: FilterBlocks,
    blocks_meta: FilterBlocksMeta,
    commitment: CommitmentLevel,
    accounts_data_slice: FilterAccountsDataSlice,
    ping: Option<i32>,
}

impl View for Filter {
    type V = FilterModel;

    closed spec fn view(&self) -> FilterModel {
        FilterModel {
            accounts: self.accounts@,
            slots: self.slots@,
            transactions: self.transactions@,
            transactions_status: self.transactions_status@,
            entries: self.entries@,
            blocks: self.blocks@,
            blocks_meta: self.blocks_meta@,
            commitment: self.commitment,
            accounts_data_slice: self.accounts_data_slice@,
            ping: self.ping,
        }
    }
}

impl Default for Filter {
    /// The filter that lets nothing through.
    fn default() -> (res: Filter)
        ensures
            res@ == FilterModel::empty(),
    {
        Filter {
            accounts: FilterAccounts::empty(),
            slots: FilterSlots::empty(),
            transactions: FilterTransactions::empty(FilterTransactionsType::Transaction),
            transactions_status: FilterTransactions::empty(
                FilterTransactionsType::TransactionStatus,
            ),
            entries: FilterEntries::empty(),
            blocks: FilterBlocks::empty(),
            blocks_meta: FilterBlocksMeta::empty(),
            commitment: CommitmentLevel::Processed,
            accounts_data_slice: FilterAccountsDataSlice::empty(),
            ping: None,
        }
    }
}

/// The sum of two counts, or the largest count where the sum is beyond it.
pub fn capped_sum(a: usize, b: usize) -> (sum: usize)
    ensures
        sum == if a + b <= usize::MAX {
            a + b
        } else {
            usize::MAX as int
        },
{
    if a > usize::MAX - b {
        usize::MAX
    } else {
        a + b
    }
}

/// The owned text of each name.
fn names_to_strings(names: &Vec<FilterName>) -> (res: Vec<String>)
    ensures
        labels(res@) == names_view(names@),
{
    let mut res: Vec<String> = Vec::new();
    let mut i: usize = 0;
    assert(labels(res@) =~= names_view(names@).take(0));
    while i < names.len()
        invariant
            i <= names.len(),
            labels(res@) == names_view(names@).take(i as int),
        decreases names.len() - i,
    {
        let ghost shown = labels(res@);
        res.push(names[i].to_string());
        assert(labels(res@) =~= shown.push(names@[i as int]@));
        assert(labels(res@) =~= names_view(names@).take(i + 1));
        i += 1;
    }
    assert(names_view(names@).take(i as int) =~= names_view(names@));
    res
}

impl Filter {
    /// Compiles the filter that a request asks for, interning the names of
    /// its filters. For every account update, its account filters yield the
    /// names of the request's account filters whose declared criteria all
    /// hold of the update, in the order of the request.
    pub fn new(config: &SubscribeRequest, limits: &FilterLimits, names: &mut FilterNames) -> (res:
        FilterResult<Filter>)
        ensures
            match FilterModel::compiled(*config, *limits, old(names)@) {
                Ok((model, state)) => res.is_ok() && res.unwrap()@ == model && final(names)@
                    == state,
                Err((error, state)) => res == Err::<Filter, FilterError>(error) && final(names)@
                    == state,
            },
            res matches Ok(filter) ==> yields_declared(
                filter@.accounts,
                declared(config.accounts@, limits.accounts),
            ),
    {
        let accounts = match FilterAccounts::new(&config.accounts, &limits.accounts, names) {
            Ok(filter) => filter,
            Err(error) => {
                return Err(error);
            },
        };
        let slots = match FilterSlots::new(&config.slots, &limits.slots, names) {
            Ok(filter) => filter,
            Err(error) => {
                return Err(error);
            },
        };
        let transactions = match FilterTransactions::new(
            &config.transactions,
            &limits.transactions,
            FilterTransactionsType::Transaction,
            names,
        ) {
            Ok(filter) => filter,
            Err(error) => {
                return Err(error);
            },
        };
        let transactions_status = match FilterTransactions::new(
            &config.transactions_status,
            &limits.transactions_status,
            FilterTransactionsType::TransactionStatus,
            names,
        ) {
            Ok(filter) => filter,
            Err(error) => {
                return Err(error);
            },
        };
        let entries = match FilterEntries::new(&config.entry, &limits.entries, names) {
            Ok(filter) => filter,
            Err(error) => {
                return Err(error);
            },
        };
        let blocks = match FilterBlocks::new(&config.blocks, &limits.blocks, names) {
            Ok(filter) => filter,
            Err(error) => {
                return Err(error);
            },
        };
        let blocks_meta = match FilterBlocksMeta::new(
            &config.blocks_meta,
            &limits.blocks_meta,
            names,
        ) {
            Ok(filter) => filter,
            Err(error) => {
                return Err(error);
            },
        };
        let commitment = match Self::decode_commitment(config.commitment) {
            Ok(commitment) => commitment,
            Err(error) => {
                return Err(error);
            },
        };
        let accounts_data_slice = match FilterAccountsDataSlice::new(
            &config.accounts_data_slice,
            limits.accounts.data_slice_max,
        ) {
            Ok(slices) => slices,
            Err(error) => {
                return Err(error);
            },
        };
        let ping = match &config.ping {
            Some(ping) => Some(ping.id),
            None => None,
        };
        Ok(
            Filter {
                accounts,
                slots,
                transactions,
                transactions_status,
                entries,
                blocks,
                blocks_meta,
                commitment,
                accounts_data_slice,
                ping,
            },
        )
    }

    /// The commitment level that a request asks for.
    fn decode_commitment(commitment: Option<i32>) -> (res: FilterResult<CommitmentLevel>)
        ensures
            res == decoded_commitment(commitment),
    {
        match commitment {
            None => Ok(CommitmentLevel::Processed),
            Some(code) => match CommitmentLevel::from_i32(code) {
                Some(level) => Ok(level),
                None => Err(FilterError::InvalidCommitment { commitment: code }),
            },
        }
    }

    /// The number of filters of each kind, and of all kinds together; the
    /// total stops at the largest count.
    pub fn get_metrics(&self) -> (res: [(&'static str, usize); 8])
        ensures
            res@[0].0@ == "accounts"@ && res@[0].1 == self@.accounts.filters.len(),
            res@[1].0@ == "slots"@ && res@[1].1 == self@.slots.len(),
            res@[2].0@ == "transactions"@ && res@[2].1 == self@.transactions.len(),
            res@[3].0@ == "transactions_status"@ && res@[3].1 == self@.transactions_status.len(),
            res@[4].0@ == "entries"@ && res@[4].1 == self@.entries.len(),
            res@[5].0@ == "blocks"@ && res@[5].1 == self@.blocks.len(),
            res@[6].0@ == "blocks_meta"@ && res@[6].1 == self@.blocks_meta.len(),
            res@[7].0@ == "all"@,
            res@[7].1 == {
                let total = self@.accounts.filters.len() + self@.slots.len()
                    + self@.transactions.len() + self@.transactions_status.len()
                    + self@.entries.len() + self@.blocks.len() + self@.blocks_meta.len();
                if total <= usize::MAX {
                    total as int
                } else {
                    usize::MAX as int
                }
            },
    {
        let accounts = self.accounts.len();
        let slots = self.slots.len();
        let transactions = self.transactions.len();
        let transactions_status = self.transactions_status.len();
        let entries = self.entries.len();
        let blocks = self.blocks.len();
        let blocks_meta = self.blocks_meta.len();
        let all = capped_sum(
            capped_sum(
                capped_sum(
                    capped_sum(
                        capped_sum(capped_sum(accounts, slots), transactions),
                        transactions_status,
                    ),
                    entries,
                ),
                blocks,
            ),
            blocks_meta,
        );
        [
            ("accounts", accounts),
            ("slots", slots),
            ("transactions", transactions),
            ("transactions_status", transactions_status),
            ("entries", entries),
            ("blocks", blocks),
            ("blocks_meta", blocks_meta),
            ("all", all),
        ]
    }

    /// The commitment level of the subscription.
    pub fn get_commitment_level(&self) -> (level: CommitmentLevel)
        ensures
            level == self@.commitment,
    {
        self.commitment
    }

    /// The data slices of the subscription.
    pub fn get_accounts_data_slice(&self) -> (slices: &FilterAccountsDataSlice)
        ensures
            slices@ == self@.accounts_data_slice,
    {
        &self.accounts_data_slice
    }

    /// For each update that the message may be sent as, the names of the
    /// filters that it matches and what the update carries. A position whose
    /// names are empty is not to be sent.
    pub fn get_filters<'a>(&'a self, message: &'a Message, commitment: Option<CommitmentLevel>) -> (res:
        Vec<(Vec<FilterName>, FilteredMessage<'a>)>)
        ensures
            res@.len() == self@.matched(*message, commitment).len(),
            forall|i: int|
                0 <= i < res@.len() ==> names_view((#[trigger] res@[i]).0@) == self@.matched(
                    *message,
                    commitment,
                )[i] && self@.carries(*message, i, res@[i].1),
    {
        let mut res: Vec<(Vec<FilterName>, FilteredMessage<'a>)> = Vec::new();
        match message {
            Message::Account(message) => {
                res.push((self.accounts.matched(&message.account), FilteredMessage::Account(message)));
            },
            Message::Slot(message) => {
                res.push((self.slots.matched(message, commitment), FilteredMessage::Slot(message)));
            },
            Message::Transaction(message) => {
                res.push(
                    (
                        self.transactions.matched(&message.transaction),
                        FilteredMessage::Transaction(message),
                    ),
                );
                res.push(
                    (
                        self.transactions_status.matched(&message.transaction),
                        FilteredMessage::TransactionStatus(message),
                    ),
                );
            },
            Message::Entry(message) => {
                res.push((self.entries.matched(), FilteredMessage::Entry(message)));
            },
            Message::Block(message) => {
                let mut parts = self.blocks.matched(message);
                let ghost all = parts@;
                let ghost model = self@;
                let mut i: usize = parts.len();
                // The parts are taken from the back and put in front, so that they keep
                // their order.
                let mut back: Vec<(Vec<FilterName>, FilteredMessage<'a>)> = Vec::new();
                while i > 0
                    invariant
                        i == parts@.len(),
                        i <= all.len(),
                        parts@ == all.take(i as int),
                        all.len() == model.blocks.len(),
                        back@.len() == all.len() - i,
                        forall|j: int|
                            0 <= j < all.len() ==> (#[trigger] all[j]).0@ == model.blocks[j].name
                                && model.blocks[j].projects(**message, all[j].1),
                        forall|k: int|
                            0 <= k < back@.len() ==> names_view((#[trigger] back@[k]).0@)
                                == seq![model.blocks[all.len() - 1 - k].name] && (
                            back@[k].1 matches FilteredMessage::Block(part)
                                && model.blocks[all.len() - 1 - k].projects(**message, part)),
                    decreases i,
                {
                    let last = parts.pop();
                    let (name, part) = last.unwrap();
                    assert(parts@ =~= all.take(i - 1));
                    assert(all[i - 1].0@ == model.blocks[i - 1].name);
                    let ghost label = name@;
                    let mut names: Vec<FilterName> = Vec::new();
                    names.push(name);
                    assert(names_view(names@) =~= seq![label]);
                    back.push((names, FilteredMessage::Block(part)));
                    i -= 1;
                }
                let mut k: usize = back.len();
                let ghost total = back@;
                while k > 0
                    invariant
                        k == back@.len(),
                        k <= total.len(),
                        back@ == total.take(k as int),
                        total.len() == model.blocks.len(),
                        res@.len() == total.len() - k,
                        forall|n: int|
                            0 <= n < total.len() ==> names_view((#[trigger] total[n]).0@)
                                == seq![model.blocks[total.len() - 1 - n].name] && (
                            total[n].1 matches FilteredMessage::Block(part)
                                && model.blocks[total.len() - 1 - n].projects(**message, part)),
                        forall|j: int|
                            0 <= j < res@.len() ==> names_view((#[trigger] res@[j]).0@)
                                == seq![model.blocks[j].name] && (
                            res@[j].1 matches FilteredMessage::Block(part) && model.blocks[j].projects(
                                **message,
                                part,
                            )),
                    decreases k,
                {
                    let last = back.pop();
                    assert(back@ =~= total.take(k - 1));
                    let ghost n = k - 1;
                    assert(names_view(total[n].0@) == seq![model.blocks[total.len() - 1 - n].name]);
                    res.push(last.unwrap());
                    k -= 1;
                }
            },
            Message::BlockMeta(message) => {
                res.push((self.blocks_meta.matched(), FilteredMessage::BlockMeta(message)));
            },
        }
        res
    }

    /// The wire updates that the message is sent as: one for each position
    /// at which it matches a filter, in order.
    pub fn get_update(&self, message: &Message, commitment: Option<CommitmentLevel>) -> (res: Vec<
        SubscribeUpdate,
    >)
        ensures
            res@.len() == delivered(self@.matched(*message, commitment)).len(),
            forall|k: int|
                0 <= k < res@.len() ==> self@.sends(
                    *message,
                    commitment,
                    delivered(self@.matched(*message, commitment))[k],
                    #[trigger] res@[k],
                ),
    {
        let found = self.get_filters(message, commitment);
        let ghost matched = self@.matched(*message, commitment);
        let ghost positions = Seq::new(matched.len(), |i: int| i);
        let ghost wanted = |i: int| matched[i].len() > 0;
        let mut res: Vec<SubscribeUpdate> = Vec::new();
        let mut i: usize = 0;
        proof {
            lemma_filter_none(positions, wanted);
        }
        while i < found.len()
            invariant
                i <= found.len(),
                matched == self@.matched(*message, commitment),
                positions == Seq::new(matched.len(), |i: int| i),
                wanted == |i: int| matched[i].len() > 0,
                found@.len() == matched.len(),
                forall|j: int|
                    0 <= j < found@.len() ==> names_view((#[trigger] found@[j]).0@) == matched[j]
                        && self@.carries(*message, j, found@[j].1),
                res@.len() == positions.take(i as int).filter(wanted).len(),
                forall|k: int|
                    0 <= k < res@.len() ==> self@.sends(
                        *message,
                        commitment,
                        positions.take(i as int).filter(wanted)[k],
                        #[trigger] res@[k],
                    ),
            decreases found.len() - i,
        {
            proof {
                lemma_filter_step(positions, wanted, i as int);
            }
            let ghost before = positions.take(i as int).filter(wanted);
            assert(names_view(found@[i as int].0@) == matched[i as int]);
            if found[i].0.len() > 0 {
                let filters = names_to_strings(&found[i].0);
                let out = found[i].1.as_proto(&self.accounts_data_slice);
                let update = SubscribeUpdate { filters, update_oneof: Some(out) };
                assert(self@.carries(*message, i as int, found@[i as int].1));
                assert(proto_of(found@[i as int].1, self@.accounts_data_slice, out));
                assert(self@.sends(*message, commitment, i as int, update));
                res.push(update);
                assert(forall|k: int|
                    0 <= k < before.len() ==> before.push(i as int)[k] == before[k]);
            }
            i += 1;
        }
        assert(positions.take(i as int) =~= positions);
        res
    }

    /// The pong that answers the ping of the request, if it had one. It
    /// carries the ping's id and no filter name.
    pub fn get_pong_msg(&self) -> (res: Option<SubscribeUpdate>)
        ensures
            match self@.ping {
                Some(id) => {
                    &&& res matches Some(update)
                    &&& update.filters@.len() == 0
                    &&& update.update_oneof == Some(UpdateOneof::Pong(SubscribeUpdatePong { id }))
                },
                None => res.is_none(),
            },
    {
        match self.ping {
            Some(id) => Some(
                SubscribeUpdate {
                    filters: Vec::new(),
                    update_oneof: Some(UpdateOneof::Pong(SubscribeUpdatePong { id })),
                },
            ),
            None => None,
        }
    }
}

} // verus!
