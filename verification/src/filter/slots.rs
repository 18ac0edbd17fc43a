//! Filters on slot updates.

use crate::filter::error::{
    check_max, compile_fold, lemma_compile_failed, lemma_compile_step, max_fault, named,
    FilterError, FilterResult, Outcome,
};
use crate::geyser::{FilterMap, SubscribeRequestFilterSlots};
use crate::limits::FilterLimitsSlots;
use crate::message::{CommitmentLevel, MessageSlot};
use crate::name::{names_view, FilterName, FilterNames, NamesState};
use crate::seqs::{lemma_select_none, lemma_select_step, select};
use vstd::prelude::*;

verus! {

/// The criterion of one slot filter.
#[derive(Debug, Clone, Copy)]
pub struct FilterSlotsInner {
    pub filter_by_commitment: bool,
}

impl FilterSlotsInner {
    /// The criterion that a request asks for: no gate where none is asked.
    pub fn new(filter: SubscribeRequestFilterSlots) -> (res: FilterSlotsInner)
        ensures
            res.filter_by_commitment == (filter.filter_by_commitment == Some(true)),
    {
        FilterSlotsInner {
            filter_by_commitment: match filter.filter_by_commitment {
                Some(flag) => flag,
                None => false,
            },
        }
    }
}

/// One slot filter: its name and whether it lets through only the slot
/// updates of the subscription's commitment level.
pub ghost struct SlotsEntry {
    pub name: Seq<char>,
    pub filter_by_commitment: bool,
}

impl SlotsEntry {
    /// Whether a slot update of the given status matches the filter of a
    /// subscription with the given commitment level.
    pub open spec fn matches(self, status: CommitmentLevel, commitment: Option<CommitmentLevel>)
        -> bool {
        !self.filter_by_commitment || commitment == Some(status)
    }
}

/// Compiles one slot filter after those in `model`.
pub open spec fn slots_added(
    model: Seq<SlotsEntry>,
    names: NamesState,
    name: Seq<char>,
    filter: SubscribeRequestFilterSlots,
) -> Outcome<Seq<SlotsEntry>> {
    match named(names, name) {
        Err(failure) => Err(failure),
        Ok(state) => Ok(
            (
                model.push(
                    SlotsEntry {
                        name,
                        filter_by_commitment: filter.filter_by_commitment == Some(true),
                    },
                ),
                state,
            ),
        ),
    }
}

/// The step that compiles one slot filter.
pub open spec fn slots_step() -> spec_fn(
    Seq<SlotsEntry>,
    NamesState,
    Seq<char>,
    SubscribeRequestFilterSlots,
) -> Outcome<Seq<SlotsEntry>> {
    |model: Seq<SlotsEntry>, names: NamesState, name: Seq<char>, filter: SubscribeRequestFilterSlots|
        slots_added(model, names, name, filter)
}

/// The slot filters that a request asks for, unless there are too many of
/// them or a name is refused.
pub open spec fn slots_compiled(
    configs: Seq<(Seq<char>, SubscribeRequestFilterSlots)>,
    limits: FilterLimitsSlots,
    names: NamesState,
) -> Outcome<Seq<SlotsEntry>> {
    match max_fault(configs.len(), limits.max) {
        Some(error) => Err((error, names)),
        None => compile_fold(configs, Seq::empty(), names, slots_step()),
    }
}

/// The test of a filter against a slot update.
pub open spec fn slot_test(status: CommitmentLevel, commitment: Option<CommitmentLevel>) -> spec_fn(
    SlotsEntry,
) -> bool {
    |entry: SlotsEntry| entry.matches(status, commitment)
}

/// The name of a filter.
pub open spec fn slot_label() -> spec_fn(SlotsEntry) -> Seq<char> {
    |entry: SlotsEntry| entry.name
}

/// The names of the filters that a slot update matches, in the order of the
/// filters.
pub open spec fn slots_matched(
    entries: Seq<SlotsEntry>,
    status: CommitmentLevel,
    commitment: Option<CommitmentLevel>,
) -> Seq<Seq<char>> {
    select(entries, slot_test(status, commitment), slot_label())
}

/// The slot filters of a subscription.
#[derive(Debug, Clone)]
pub struct FilterSlots {
    filters: Vec<(FilterName, FilterSlotsInner)>,
}

/// What a list of compiled filters holds.
pub closed spec fn slots_view(filters: Seq<(FilterName, FilterSlotsInner)>) -> Seq<SlotsEntry> {
    filters.map_values(
        |entry: (FilterName, FilterSlotsInner)|
            SlotsEntry { name: entry.0@, filter_by_commitment: entry.1.filter_by_commitment },
    )
}

impl View for FilterSlots {
    type V = Seq<SlotsEntry>;

    closed spec fn view(&self) -> Seq<SlotsEntry> {
        slots_view(self.filters@)
    }
}

impl FilterSlots {
    /// No filters.
    pub fn empty() -> (res: FilterSlots)
        ensures
            res@ == Seq::<SlotsEntry>::empty(),
    {
        let res = FilterSlots { filters: Vec::new() };
        assert(res@ =~= Seq::empty());
        res
    }

    /// The number of filters.
    pub fn len(&self) -> (n: usize)
        ensures
            n == self@.len(),
    {
        self.filters.len()
    }

    /// Compiles the slot filters of a request.
    pub fn new(
        configs: &FilterMap<SubscribeRequestFilterSlots>,
        limits: &FilterLimitsSlots,
        names: &mut FilterNames,
    ) -> (res: FilterResult<FilterSlots>)
        ensures
            match slots_compiled(configs@, *limits, old(names)@) {
                Ok((model, state)) => res.is_ok() && res.unwrap()@ == model && final(names)@
                    == state,
                Err((error, state)) => res == Err::<FilterSlots, FilterError>(error) && final(names)@ == state,
            },
    {
        match check_max(configs.len(), limits.max) {
            Ok(()) => {},
            Err(error) => {
                return Err(error);
            },
        }
        let ghost step = slots_step();
        let ghost start = names@;
        let mut filters: Vec<(FilterName, FilterSlotsInner)> = Vec::new();
        let mut i: usize = 0;
        assert(configs@.take(0) =~= Seq::empty());
        assert(slots_view(filters@) =~= Seq::empty());
        while i < configs.len()
            invariant
                i <= configs@.len(),
                step == slots_step(),
                start == old(names)@,
                max_fault(configs@.len(), limits.max).is_none(),
                compile_fold(configs@.take(i as int), Seq::empty(), start, step) == Ok::<
                    (Seq<SlotsEntry>, NamesState),
                    (FilterError, NamesState),
                >((slots_view(filters@), names@)),
            decreases configs@.len() - i,
        {
            proof {
                lemma_compile_step(configs@, Seq::empty(), start, step, i as int);
            }
            let ghost before = slots_view(filters@);
            match names.get(configs.name(i).as_str()) {
                Ok(handle) => {
                    let inner = FilterSlotsInner::new(*configs.filter(i));
                    let ghost added = SlotsEntry {
                        name: handle@,
                        filter_by_commitment: inner.filter_by_commitment,
                    };
                    filters.push((handle, inner));
                    assert(slots_view(filters@) =~= before.push(added));
                },
                Err(error) => {
                    proof {
                        lemma_compile_failed(configs@, Seq::empty(), start, step, i + 1);
                    }
                    return Err(FilterError::Name(error));
                },
            }
            i += 1;
        }
        assert(configs@.take(i as int) =~= configs@);
        Ok(FilterSlots { filters })
    }

    /// The names of the filters that a slot update matches, for a
    /// subscription with the given commitment level.
    pub fn matched(&self, message: &MessageSlot, commitment: Option<CommitmentLevel>) -> (res: Vec<
        FilterName,
    >)
        ensures
            names_view(res@) == slots_matched(self@, message.status, commitment),
    {
        let ghost test = slot_test(message.status, commitment);
        let ghost label = slot_label();
        let same_level = match commitment {
            Some(level) => level == message.status,
            None => false,
        };
        let mut res: Vec<FilterName> = Vec::new();
        let mut i: usize = 0;
        proof {
            lemma_select_none(self@, test, label);
            assert(names_view(res@) =~= Seq::empty());
        }
        while i < self.filters.len()
            invariant
                i <= self.filters.len(),
                test == slot_test(message.status, commitment),
                label == slot_label(),
                same_level == (commitment == Some(message.status)),
                names_view(res@) == select(self@.take(i as int), test, label),
            decreases self.filters.len() - i,
        {
            proof {
                lemma_select_step(self@, test, label, i as int);
            }
            let ghost shown = names_view(res@);
            if !self.filters[i].1.filter_by_commitment || same_level {
                let name = self.filters[i].0.clone();
                res.push(name);
                assert(names_view(res@) =~= shown.push(self.filters@[i as int].0@));
            }
            i += 1;
        }
        assert(self@.take(i as int) =~= self@);
        res
    }
}

impl Default for FilterSlotsInner {
    /// No gate.
    fn default() -> (res: FilterSlotsInner)
        ensures
            !res.filter_by_commitment,
    {
        FilterSlotsInner { filter_by_commitment: false }
    }
}

impl Default for FilterSlots {
    /// No filters.
    fn default() -> (res: FilterSlots)
        ensures
            res@ == Seq::<SlotsEntry>::empty(),
    {
        FilterSlots::empty()
    }
}

} // verus!
