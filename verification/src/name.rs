//! Filter names and the per-connection registry that interns them.

use vstd::prelude::*;
use vstd::utf8::encode_utf8;

verus! {

/// Why the registry refuses a name.
#[derive(Clone, Copy, Debug, PartialEq, Eq, Structural)]
pub enum FilterNameError {
    /// The name takes `size` bytes, more than the `limit` allowed.
    NameTooLong { limit: usize, size: usize },
    /// The registry already holds `limit` names.
    TooManyNames { limit: usize },
}

/// The label of one filter of a subscription, echoed on every update that
/// the filter matches.
#[derive(Debug, Eq)]
pub struct FilterName {
    name: String,
}

impl View for FilterName {
    type V = Seq<char>;

    closed spec fn view(&self) -> Seq<char> {
        self.name@
    }
}

/// The labels that a list of names stands for, in order.
pub open spec fn names_view(names: Seq<FilterName>) -> Seq<Seq<char>> {
    names.map_values(|name: FilterName| name@)
}

impl FilterName {
    /// The name with the given text.
    pub fn new(name: &str) -> (res: FilterName)
        ensures
            res@ == name@,
    {
        FilterName { name: name.to_owned() }
    }

    /// The name's text.
    pub fn as_str(&self) -> (text: &str)
        ensures
            text@ == self@,
    {
        self.name.as_str()
    }

    /// The name's text, owned.
    pub fn to_string(&self) -> (text: String)
        ensures
            text@ == self@,
    {
        self.name.clone()
    }
}

impl Clone for FilterName {
    fn clone(&self) -> (res: FilterName)
        ensures
            res == *self,
    {
        FilterName { name: self.name.clone() }
    }
}

impl PartialEq for FilterName {
    fn eq(&self, other: &FilterName) -> (r: bool) {
        self.name == other.name
    }
}

impl vstd::std_specs::cmp::PartialEqSpecImpl for FilterName {
    open spec fn obeys_eq_spec() -> bool {
        true
    }

    open spec fn eq_spec(&self, other: &FilterName) -> bool {
        self@ == other@
    }
}

/// One interned name with the time at which it was last asked for.
pub struct NameEntry {
    name: FilterName,
    seen_at: u64,
}

/// What a registry holds: its limits, its clock, and each interned label
/// with the clock value at which it was last asked for.
pub ghost struct NamesState {
    pub name_size_limit: usize,
    pub names_size_limit: usize,
    pub cleanup_interval: u64,
    pub clock: u64,
    pub names: Seq<(Seq<char>, u64)>,
}

/// The number of bytes that a text takes, as `str::len` counts them.
pub open spec fn text_size(text: Seq<char>) -> usize {
    encode_utf8(text).len() as usize
}

impl NamesState {
    /// Whether the label is interned.
    pub open spec fn holds(self, name: Seq<char>) -> bool {
        exists|i: int| 0 <= i < self.names.len() && (#[trigger] self.names[i]).0 == name
    }

    /// The state with every entry of that label marked as seen now.
    pub open spec fn touched(self, name: Seq<char>) -> NamesState {
        NamesState {
            names: self.names.map_values(
                |entry: (Seq<char>, u64)|
                    if entry.0 == name {
                        (entry.0, self.clock)
                    } else {
                        entry
                    },
            ),
            ..self
        }
    }

    /// What asking for a label does: an interned label is reused and marked
    /// as seen; a new one is refused when it is too long or the registry is
    /// full, and interned otherwise.
    pub open spec fn get(self, name: Seq<char>) -> Result<NamesState, FilterNameError> {
        if self.holds(name) {
            Ok(self.touched(name))
        } else if text_size(name) > self.name_size_limit {
            Err(FilterNameError::NameTooLong { limit: self.name_size_limit, size: text_size(name) })
        } else if self.names.len() >= self.names_size_limit {
            Err(FilterNameError::TooManyNames { limit: self.names_size_limit })
        } else {
            Ok(NamesState { names: self.names.push((name, self.clock)), ..self })
        }
    }

    /// Whether an entry last seen at `seen_at` is still within the retention
    /// window at time `now`.
    pub open spec fn retained(self, seen_at: u64, now: u64) -> bool {
        now - seen_at <= self.cleanup_interval
    }

    /// What a cleanup at time `now` does: where the clock has moved on, it
    /// is set to `now` and the entries outside the retention window go.
    pub open spec fn cleaned(self, now: u64) -> NamesState {
        if now <= self.clock {
            self
        } else {
            NamesState {
                clock: now,
                names: self.names.filter(|entry: (Seq<char>, u64)| self.retained(entry.1, now)),
                ..self
            }
        }
    }
}

impl NamesState {
    /// Whether this registry has the limits and the clock of an earlier one
    /// and holds every label that the earlier one held.
    pub open spec fn extends(self, earlier: NamesState) -> bool {
        &&& self.name_size_limit == earlier.name_size_limit
        &&& self.names_size_limit == earlier.names_size_limit
        &&& self.cleanup_interval == earlier.cleanup_interval
        &&& self.clock == earlier.clock
        &&& forall|name: Seq<char>| earlier.holds(name) ==> self.holds(name)
    }

    /// Asking for a label that is held succeeds.
    pub proof fn lemma_get_held(self, name: Seq<char>)
        requires
            self.holds(name),
        ensures
            self.get(name).is_ok(),
    {
    }

    /// After a label was asked for with success, the registry holds it, and
    /// all that it held before.
    pub proof fn lemma_get_extends(self, name: Seq<char>)
        requires
            self.get(name).is_ok(),
        ensures
            self.get(name).unwrap().holds(name),
            self.get(name).unwrap().extends(self),
    {
        let after = self.get(name).unwrap();
        if self.holds(name) {
            assert forall|other: Seq<char>| self.holds(other) implies after.holds(other) by {
                let i = choose|i: int|
                    0 <= i < self.names.len() && (#[trigger] self.names[i]).0 == other;
                assert(after.names[i].0 == other);
            }
        } else {
            assert(after.names[self.names.len() as int].0 == name);
            assert forall|other: Seq<char>| self.holds(other) implies after.holds(other) by {
                let i = choose|i: int|
                    0 <= i < self.names.len() && (#[trigger] self.names[i]).0 == other;
                assert(after.names[i].0 == other);
            }
        }
    }

    /// Extending is transitive.
    pub proof fn lemma_extends_trans(self, middle: NamesState, earlier: NamesState)
        requires
            self.extends(middle),
            middle.extends(earlier),
        ensures
            self.extends(earlier),
    {
    }
}

/// What a list of entries holds.
pub closed spec fn entries_view(entries: Seq<NameEntry>) -> Seq<(Seq<char>, u64)> {
    entries.map_values(|entry: NameEntry| (entry.name@, entry.seen_at))
}

/// The registry of one connection's filter names.
pub struct FilterNames {
    name_size_limit: usize,
    names_size_limit: usize,
    cleanup_interval: u64,
    clock: u64,
    entries: Vec<NameEntry>,
}

impl View for FilterNames {
    type V = NamesState;

    closed spec fn view(&self) -> NamesState {
        NamesState {
            name_size_limit: self.name_size_limit,
            names_size_limit: self.names_size_limit,
            cleanup_interval: self.cleanup_interval,
            clock: self.clock,
            names: entries_view(self.entries@),
        }
    }
}

impl FilterNames {
    /// An empty registry that takes names of at most `name_size_limit`
    /// bytes, at most `names_size_limit` of them, and keeps a name for
    /// `cleanup_interval` clock units after it was last asked for.
    pub fn new(name_size_limit: usize, names_size_limit: usize, cleanup_interval: u64) -> (res:
        FilterNames)
        ensures
            res@ == (NamesState {
                name_size_limit,
                names_size_limit,
                cleanup_interval,
                clock: 0,
                names: Seq::empty(),
            }),
    {
        let res = FilterNames {
            name_size_limit,
            names_size_limit,
            cleanup_interval,
            clock: 0,
            entries: Vec::new(),
        };
        assert(res@.names =~= Seq::empty());
        res
    }

    /// How many names are interned.
    pub fn len(&self) -> (n: usize)
        ensures
            n == self@.names.len(),
    {
        self.entries.len()
    }

    /// The handle of a name, interning the name where it is new.
    pub fn get(&mut self, name: &str) -> (res: Result<FilterName, FilterNameError>)
        ensures
            match old(self)@.get(name@) {
                Ok(state) => res.is_ok() && res.unwrap()@ == name@ && final(self)@ == state,
                Err(error) => res == Err::<FilterName, FilterNameError>(error) && final(self)@
                    == old(self)@,
            },
    {
        let ghost before = self@;
        let handle = FilterName::new(name);
        let mut touched: Vec<NameEntry> = Vec::new();
        let mut found = false;
        let mut i: usize = 0;
        while i < self.entries.len()
            invariant
                i <= self.entries.len(),
                self@ == before,
                handle@ == name@,
                found == (exists|j: int| 0 <= j < i && (#[trigger] before.names[j]).0 == name@),
                entries_view(touched@) =~= before.touched(name@).names.take(i as int),
            decreases self.entries.len() - i,
        {
            let ghost shown = entries_view(touched@);
            assert(before.names[i as int] == (
                self.entries@[i as int].name@,
                self.entries@[i as int].seen_at,
            ));
            let seen_at = if self.entries[i].name == handle {
                found = true;
                self.clock
            } else {
                self.entries[i].seen_at
            };
            touched.push(NameEntry { name: self.entries[i].name.clone(), seen_at });
            assert(entries_view(touched@) =~= shown.push(before.touched(name@).names[i as int]));
            i += 1;
        }
        if found {
            assert(before.holds(name@));
            assert(before.touched(name@).names.take(i as int) =~= before.touched(name@).names);
            self.entries = touched;
            return Ok(handle);
        }
        assert(!before.holds(name@));
        let size = name.len();
        if size > self.name_size_limit {
            return Err(FilterNameError::NameTooLong { limit: self.name_size_limit, size });
        }
        if self.entries.len() >= self.names_size_limit {
            return Err(FilterNameError::TooManyNames { limit: self.names_size_limit });
        }
        self.entries.push(NameEntry { name: handle.clone(), seen_at: self.clock });
        assert(entries_view(self.entries@) =~= before.names.push((name@, before.clock)));
        Ok(handle)
    }

    /// Moves the clock to `now` and forgets the names that were last asked
    /// for more than the retention window before that.
    pub fn try_clean(&mut self, now: u64)
        ensures
            final(self)@ == old(self)@.cleaned(now),
    {
        if now <= self.clock {
            return ;
        }
        let ghost before = self@;
        let ghost keep = |entry: (Seq<char>, u64)| before.retained(entry.1, now);
        let mut kept: Vec<NameEntry> = Vec::new();
        let mut i: usize = 0;
        proof {
            crate::seqs::lemma_filter_none(before.names, keep);
            assert(entries_view(kept@) =~= Seq::empty());
        }
        while i < self.entries.len()
            invariant
                i <= self.entries.len(),
                self@ == before,
                now > before.clock,
                keep == |entry: (Seq<char>, u64)| before.retained(entry.1, now),
                entries_view(kept@) == before.names.take(i as int).filter(keep),
            decreases self.entries.len() - i,
        {
            proof {
                crate::seqs::lemma_filter_step(before.names, keep, i as int);
            }
            let ghost shown = entries_view(kept@);
            assert(before.names[i as int] == (
                self.entries@[i as int].name@,
                self.entries@[i as int].seen_at,
            ));
            let seen_at = self.entries[i].seen_at;
            if seen_at >= now || now - seen_at <= self.cleanup_interval {
                kept.push(NameEntry { name: self.entries[i].name.clone(), seen_at });
                assert(entries_view(kept@) =~= shown.push(before.names[i as int]));
            }
            i += 1;
        }
        assert(before.names.take(i as int) =~= before.names);
        self.entries = kept;
        self.clock = now;
    }
}

} // verus!
