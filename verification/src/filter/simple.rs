//! Filters on entries and on block metadata: every message matches every
//! filter.

use crate::filter::error::{
    check_max, compile_fold, lemma_compile_failed, lemma_compile_step, max_fault, named,
    FilterError, FilterResult, Outcome,
};
use crate::geyser::{FilterMap, SubscribeRequestFilterBlocksMeta, SubscribeRequestFilterEntry};
use crate::limits::{FilterLimitsBlocksMeta, FilterLimitsEntries};
use crate::name::{names_view, FilterName, FilterNames, NamesState};
use vstd::prelude::*;

verus! {

/// Interns one name after those in `model`.
pub open spec fn name_added<C>(model: Seq<Seq<char>>, names: NamesState, name: Seq<char>, filter: C)
    -> Outcome<Seq<Seq<char>>> {
    match named(names, name) {
        Err(failure) => Err(failure),
        Ok(state) => Ok((model.push(name), state)),
    }
}

/// The step that interns one name.
pub open spec fn name_step<C>() -> spec_fn(Seq<Seq<char>>, NamesState, Seq<char>, C) -> Outcome<
    Seq<Seq<char>>,
> {
    |model: Seq<Seq<char>>, names: NamesState, name: Seq<char>, filter: C|
        name_added(model, names, name, filter)
}

/// The names of the filters that a request asks for, unless there are more
/// than `max` of them or a name is refused.
pub open spec fn names_compiled<C>(configs: Seq<(Seq<char>, C)>, max: usize, names: NamesState)
    -> Outcome<Seq<Seq<char>>> {
    match max_fault(configs.len(), max) {
        Some(error) => Err((error, names)),
        None => compile_fold(configs, Seq::empty(), names, name_step::<C>()),
    }
}

/// Interns the names of the filters of a request.
fn compile_names<C>(configs: &FilterMap<C>, max: usize, names: &mut FilterNames) -> (res:
    FilterResult<Vec<FilterName>>)
    ensures
        match names_compiled(configs@, max, old(names)@) {
            Ok((model, state)) => res.is_ok() && names_view(res.unwrap()@) == model && final(names)@ == state,
            Err((error, state)) => res == Err::<Vec<FilterName>, FilterError>(error) && final(names)@ == state,
        },
{
    match check_max(configs.len(), max) {
        Ok(()) => {},
        Err(error) => {
            return Err(error);
        },
    }
    let ghost step = name_step::<C>();
    let ghost start = names@;
    let mut filters: Vec<FilterName> = Vec::new();
    let mut i: usize = 0;
    assert(configs@.take(0) =~= Seq::empty());
    assert(names_view(filters@) =~= Seq::empty());
    while i < configs.len()
        invariant
            i <= configs@.len(),
            step == name_step::<C>(),
            start == old(names)@,
            max_fault(configs@.len(), max).is_none(),
            compile_fold(configs@.take(i as int), Seq::empty(), start, step) == Ok::<
                (Seq<Seq<char>>, NamesState),
                (FilterError, NamesState),
            >((names_view(filters@), names@)),
        decreases configs@.len() - i,
    {
        proof {
            lemma_compile_step(configs@, Seq::empty(), start, step, i as int);
        }
        let ghost before = names_view(filters@);
        match names.get(configs.name(i).as_str()) {
            Ok(handle) => {
                let ghost added = handle@;
                filters.push(handle);
                assert(names_view(filters@) =~= before.push(added));
            },
            Err(error) => {
                proof {
                    lemma_compile_failed(configs@, Seq::empty(), start, step, i + 1);
                }
                return Err(FilterError::Name(error));
            },
        }
        i += 1;
    }
    assert(configs@.take(i as int) =~= configs@);
    Ok(filters)
}

/// A copy of a list of names.
pub fn clone_names(names: &Vec<FilterName>) -> (res: Vec<FilterName>)
    ensures
        names_view(res@) == names_view(names@),
{
    let mut res: Vec<FilterName> = Vec::new();
    let mut i: usize = 0;
    assert(names_view(res@) =~= names_view(names@).take(0));
    while i < names.len()
        invariant
            i <= names.len(),
            names_view(res@) == names_view(names@).take(i as int),
        decreases names.len() - i,
    {
        let ghost shown = names_view(res@);
        res.push(names[i].clone());
        assert(names_view(res@) =~= shown.push(names@[i as int]@));
        assert(names_view(res@) =~= names_view(names@).take(i + 1));
        i += 1;
    }
    assert(names_view(names@).take(i as int) =~= names_view(names@));
    res
}

/// The entry filters of a subscription.
#[derive(Debug, Clone)]
pub struct FilterEntries {
    filters: Vec<FilterName>,
}

impl View for FilterEntries {
    type V = Seq<Seq<char>>;

    closed spec fn view(&self) -> Seq<Seq<char>> {
        names_view(self.filters@)
    }
}

impl FilterEntries {
    /// No filters.
    pub fn empty() -> (res: FilterEntries)
        ensures
            res@ == Seq::<Seq<char>>::empty(),
    {
        let res = FilterEntries { filters: Vec::new() };
        assert(res@ =~= Seq::empty());
        res
    }

    /// The number of filters.
    pub fn len(&self) -> (n: usize)
        ensures
            n == self@.len(),
    {
        self.filters.len()
    }

    /// Compiles the entry filters of a request.
    pub fn new(
        configs: &FilterMap<SubscribeRequestFilterEntry>,
        limits: &FilterLimitsEntries,
        names: &mut FilterNames,
    ) -> (res: FilterResult<FilterEntries>)
        ensures
            match names_compiled(configs@, limits.max, old(names)@) {
                Ok((model, state)) => res.is_ok() && res.unwrap()@ == model && final(names)@
                    == state,
                Err((error, state)) => res == Err::<FilterEntries, FilterError>(error) && final(names)@ == state,
            },
    {
        match compile_names(configs, limits.max, names) {
            Ok(filters) => Ok(FilterEntries { filters }),
            Err(error) => Err(error),
        }
    }

    /// The names of the filters that an entry matches: all of them.
    pub fn matched(&self) -> (res: Vec<FilterName>)
        ensures
            names_view(res@) == self@,
    {
        clone_names(&self.filters)
    }
}

/// The block-meta filters of a subscription.
#[derive(Debug, Clone)]
pub struct FilterBlocksMeta {
    filters: Vec<FilterName>,
}

impl View for FilterBlocksMeta {
    type V = Seq<Seq<char>>;

    closed spec fn view(&self) -> Seq<Seq<char>> {
        names_view(self.filters@)
    }
}

impl FilterBlocksMeta {
    /// No filters.
    pub fn empty() -> (res: FilterBlocksMeta)
        ensures
            res@ == Seq::<Seq<char>>::empty(),
    {
        let res = FilterBlocksMeta { filters: Vec::new() };
        assert(res@ =~= Seq::empty());
        res
    }

    /// The number of filters.
    pub fn len(&self) -> (n: usize)
        ensures
            n == self@.len(),
    {
        self.filters.len()
    }

    /// Compiles the block-meta filters of a request.
    pub fn new(
        configs: &FilterMap<SubscribeRequestFilterBlocksMeta>,
        limits: &FilterLimitsBlocksMeta,
        names: &mut FilterNames,
    ) -> (res: FilterResult<FilterBlocksMeta>)
        ensures
            match names_compiled(configs@, limits.max, old(names)@) {
                Ok((model, state)) => res.is_ok() && res.unwrap()@ == model && final(names)@
                    == state,
                Err((error, state)) => res == Err::<FilterBlocksMeta, FilterError>(error) && final(names)@ == state,
            },
    {
        match compile_names(configs, limits.max, names) {
            Ok(filters) => Ok(FilterBlocksMeta { filters }),
            Err(error) => Err(error),
        }
    }

    /// The names of the filters that a block's metadata matches: all of
    /// them.
    pub fn matched(&self) -> (res: Vec<FilterName>)
        ensures
            names_view(res@) == self@,
    {
        clone_names(&self.filters)
    }
}

impl Default for FilterEntries {
    /// No filters.
    fn default() -> (res: FilterEntries)
        ensures
            res@ == Seq::<Seq<char>>::empty(),
    {
        FilterEntries::empty()
    }
}

impl Default for FilterBlocksMeta {
    /// No filters.
    fn default() -> (res: FilterBlocksMeta)
        ensures
            res@ == Seq::<Seq<char>>::empty(),
    {
        FilterBlocksMeta::empty()
    }
}

} // verus!
