//! The predicates of an account filter on the data and the balance of an
//! account.

use crate::codec::{base58_decoded, base64_decoded, decode_base58, decode_base64};
use crate::filter::error::{FilterError, FilterResult};
use crate::geyser::{
    AccountsFilterDataOneof, AccountsFilterLamports, AccountsFilterMemcmpOneof,
    SubscribeRequestFilterAccountsFilter,
};
use crate::name::text_size;
use crate::token::{token_account_shape, valid_token_account};
use vstd::prelude::*;

verus! {

/// The most data predicates that one account filter may have.
pub const MAX_FILTERS: usize = 4;

/// The most bytes that a byte literal may have.
pub const MAX_DATA_SIZE: usize = 128;

/// The most bytes that the base58 text of a byte literal may have.
pub const MAX_DATA_BASE58_SIZE: usize = 175;

/// The most bytes that the base64 text of a byte literal may have.
pub const MAX_DATA_BASE64_SIZE: usize = 172;

/// A comparison of an account's balance with a value.
#[derive(Debug, Clone, Copy, PartialEq, Eq, Structural)]
pub enum FilterAccountsLamports {
    Eq(u64),
    Ne(u64),
    Lt(u64),
    Gt(u64),
}

impl FilterAccountsLamports {
    /// Whether a balance passes: `Eq` asks whether the balance is the value
    /// and `Ne` whether it is not; `Lt` asks whether the balance is less
    /// than the value, and `Gt` whether it is greater.
    pub open spec fn holds(self, lamports: u64) -> bool {
        match self {
            FilterAccountsLamports::Eq(value) => lamports == value,
            FilterAccountsLamports::Ne(value) => lamports != value,
            FilterAccountsLamports::Lt(value) => lamports < value,
            FilterAccountsLamports::Gt(value) => lamports > value,
        }
    }

    /// The comparison that a request asks for.
    pub open spec fn of_request(request: AccountsFilterLamports) -> FilterAccountsLamports {
        match request {
            AccountsFilterLamports::Eq(value) => FilterAccountsLamports::Eq(value),
            AccountsFilterLamports::Ne(value) => FilterAccountsLamports::Ne(value),
            AccountsFilterLamports::Lt(value) => FilterAccountsLamports::Lt(value),
            AccountsFilterLamports::Gt(value) => FilterAccountsLamports::Gt(value),
        }
    }

    /// Whether a balance passes.
    pub fn is_match(self, lamports: u64) -> (matched: bool)
        ensures
            matched == self.holds(lamports),
    {
        match self {
            FilterAccountsLamports::Eq(value) => lamports == value,
            FilterAccountsLamports::Ne(value) => lamports != value,
            FilterAccountsLamports::Lt(value) => lamports < value,
            FilterAccountsLamports::Gt(value) => lamports > value,
        }
    }
}

impl From<&AccountsFilterLamports> for FilterAccountsLamports {
    fn from(request: &AccountsFilterLamports) -> (res: FilterAccountsLamports) {
        match request {
            AccountsFilterLamports::Eq(value) => FilterAccountsLamports::Eq(*value),
            AccountsFilterLamports::Ne(value) => FilterAccountsLamports::Ne(*value),
            AccountsFilterLamports::Lt(value) => FilterAccountsLamports::Lt(*value),
            AccountsFilterLamports::Gt(value) => FilterAccountsLamports::Gt(*value),
        }
    }
}

impl vstd::std_specs::convert::FromSpecImpl<&AccountsFilterLamports> for FilterAccountsLamports {
    open spec fn obeys_from_spec() -> bool {
        true
    }

    open spec fn from_spec(request: &AccountsFilterLamports) -> FilterAccountsLamports {
        FilterAccountsLamports::of_request(*request)
    }
}

/// Whether the data holds `bytes` at `offset`.
pub open spec fn region_equals(data: Seq<u8>, offset: u64, bytes: Seq<u8>) -> bool {
    &&& offset + bytes.len() <= data.len()
    &&& data.subrange(offset as int, offset + bytes.len()) == bytes
}

/// Whether the data holds `bytes` at `offset`.
pub fn region_matches(data: &[u8], offset: u64, bytes: &Vec<u8>) -> (matched: bool)
    ensures
        matched == region_equals(data@, offset, bytes@),
{
    if offset as u128 + bytes.len() as u128 > data.len() as u128 {
        return false;
    }
    let start: usize = offset as usize;
    let mut k: usize = 0;
    while k < bytes.len()
        invariant
            k <= bytes.len(),
            start == offset,
            start + bytes.len() <= data.len(),
            forall|j: int| 0 <= j < k ==> data@[start + j] == bytes@[j],
        decreases bytes.len() - k,
    {
        if data[start + k] != bytes[k] {
            assert(data@.subrange(offset as int, offset + bytes.len())[k as int] != bytes@[k as int]);
            return false;
        }
        k += 1;
    }
    assert(data@.subrange(offset as int, offset + bytes.len()) =~= bytes@);
    true
}

/// The data predicates of one account filter.
pub ghost struct StateModel {
    pub memcmp: Seq<(u64, Seq<u8>)>,
    pub datasize: Option<u64>,
    pub token_account_state: bool,
    pub lamports: Seq<FilterAccountsLamports>,
}

/// A byte literal, unless it is longer than allowed.
pub open spec fn sized(bytes: Seq<u8>) -> Result<Seq<u8>, FilterError> {
    if bytes.len() > MAX_DATA_SIZE {
        Err(FilterError::MemcmpDataTooLarge)
    } else {
        Ok(bytes)
    }
}

/// The bytes that a byte literal stands for, unless it is missing, too long
/// or badly encoded. The length of an encoded text is looked at before the
/// text is decoded, and the number of bytes after.
pub open spec fn literal_bytes(data: Option<AccountsFilterMemcmpOneof>) -> Result<
    Seq<u8>,
    FilterError,
> {
    match literal_decoded(data) {
        Err(error) => Err(error),
        Ok(bytes) => sized(bytes),
    }
}

impl StateModel {
    /// No predicate.
    pub open spec fn empty() -> StateModel {
        StateModel {
            memcmp: Seq::empty(),
            datasize: None,
            token_account_state: false,
            lamports: Seq::empty(),
        }
    }

    /// Whether there is no predicate.
    pub open spec fn is_empty(self) -> bool {
        &&& self.memcmp.len() == 0
        &&& self.datasize.is_none()
        &&& !self.token_account_state
        &&& self.lamports.len() == 0
    }

    /// Whether an account with this data and balance passes every predicate:
    /// the data has the asked size, it has the shape of a token account where
    /// that is asked, the balance passes each comparison, and the data holds
    /// each byte literal at its offset.
    pub open spec fn matches(self, data: Seq<u8>, lamports: u64) -> bool {
        &&& self.datasize matches Some(size) ==> data.len() == size
        &&& self.token_account_state ==> token_account_shape(data)
        &&& forall|i: int|
            0 <= i < self.lamports.len() ==> (#[trigger] self.lamports[i]).holds(lamports)
        &&& forall|i: int|
            0 <= i < self.memcmp.len() ==> region_equals(
                data,
                (#[trigger] self.memcmp[i]).0,
                self.memcmp[i].1,
            )
    }

    /// The predicates with one more, unless that one is refused.
    pub open spec fn added(self, filter: SubscribeRequestFilterAccountsFilter) -> Result<
        StateModel,
        FilterError,
    > {
        match filter.filter {
            None => Err(FilterError::DataPredicateMissing),
            Some(AccountsFilterDataOneof::Memcmp(wanted)) => match literal_bytes(wanted.data) {
                Err(error) => Err(error),
                Ok(bytes) => Ok(
                    StateModel { memcmp: self.memcmp.push((wanted.offset, bytes)), ..self },
                ),
            },
            Some(AccountsFilterDataOneof::Datasize(size)) => if self.datasize.is_some() {
                Err(FilterError::DatasizeUsedTwice)
            } else {
                Ok(StateModel { datasize: Some(size), ..self })
            },
            Some(AccountsFilterDataOneof::TokenAccountState(value)) => if !value {
                Err(FilterError::TokenAccountStateMustBeTrue)
            } else {
                Ok(StateModel { token_account_state: true, ..self })
            },
            Some(AccountsFilterDataOneof::Lamports(wanted)) => match wanted.cmp {
                None => Err(FilterError::LamportsCmpMissing),
                Some(request) => Ok(
                    StateModel {
                        lamports: self.lamports.push(FilterAccountsLamports::of_request(request)),
                        ..self
                    },
                ),
            },
        }
    }

    /// The predicates of a list, added one after the other; the first one
    /// that is refused decides.
    pub open spec fn added_all(filters: Seq<SubscribeRequestFilterAccountsFilter>) -> Result<
        StateModel,
        FilterError,
    >
        decreases filters.len(),
    {
        if filters.len() == 0 {
            Ok(StateModel::empty())
        } else {
            match StateModel::added_all(filters.drop_last()) {
                Err(error) => Err(error),
                Ok(state) => state.added(filters.last()),
            }
        }
    }

    /// The predicates that a request asks for, unless there are too many of
    /// them or one is refused.
    pub open spec fn compiled(filters: Seq<SubscribeRequestFilterAccountsFilter>) -> Result<
        StateModel,
        FilterError,
    > {
        if filters.len() > MAX_FILTERS {
            Err(FilterError::TooManyDataPredicates { max: MAX_FILTERS })
        } else {
            StateModel::added_all(filters)
        }
    }

    /// A refusal among the first predicates is the outcome of the whole
    /// list.
    pub proof fn lemma_added_all_failed(
        filters: Seq<SubscribeRequestFilterAccountsFilter>,
        i: int,
    )
        requires
            0 <= i <= filters.len(),
            StateModel::added_all(filters.take(i)).is_err(),
        ensures
            StateModel::added_all(filters) == StateModel::added_all(filters.take(i)),
        decreases filters.len() - i,
    {
        if i < filters.len() {
            assert(filters.take(i + 1).drop_last() =~= filters.take(i));
            StateModel::lemma_added_all_failed(filters, i + 1);
        } else {
            assert(filters.take(i) =~= filters);
        }
    }
}

/// The data predicates of one account filter.
#[derive(Debug, Clone)]
pub struct FilterAccountsState {
    memcmp: Vec<(u64, Vec<u8>)>,
    datasize: Option<u64>,
    token_account_state: bool,
    lamports: Vec<FilterAccountsLamports>,
}

impl View for FilterAccountsState {
    type V = StateModel;

    closed spec fn view(&self) -> StateModel {
        StateModel {
            memcmp: self.memcmp@.map_values(|entry: (u64, Vec<u8>)| (entry.0, entry.1@)),
            datasize: self.datasize,
            token_account_state: self.token_account_state,
            lamports: self.lamports@,
        }
    }
}

/// The bytes that a byte literal stands for, before their number is looked
/// at.
pub open spec fn literal_decoded(data: Option<AccountsFilterMemcmpOneof>) -> Result<
    Seq<u8>,
    FilterError,
> {
    match data {
        None => Err(FilterError::MemcmpDataMissing),
        Some(AccountsFilterMemcmpOneof::Bytes(bytes)) => Ok(bytes@),
        Some(AccountsFilterMemcmpOneof::Base58(text)) => if text_size(text@)
            > MAX_DATA_BASE58_SIZE {
            Err(FilterError::MemcmpDataTooLarge)
        } else {
            match base58_decoded(text@) {
                None => Err(FilterError::InvalidMemcmpEncoding),
                Some(bytes) => Ok(bytes),
            }
        },
        Some(AccountsFilterMemcmpOneof::Base64(text)) => if text_size(text@)
            > MAX_DATA_BASE64_SIZE {
            Err(FilterError::MemcmpDataTooLarge)
        } else {
            match base64_decoded(text@) {
                None => Err(FilterError::InvalidMemcmpEncoding),
                Some(bytes) => Ok(bytes),
            }
        },
    }
}

/// The bytes of a byte literal, before their number is looked at.
fn decode_literal(data: &Option<AccountsFilterMemcmpOneof>) -> (res: FilterResult<Vec<u8>>)
    ensures
        match literal_decoded(*data) {
            Ok(bytes) => res.is_ok() && res.unwrap()@ == bytes,
            Err(error) => res == Err::<Vec<u8>, FilterError>(error),
        },
{
    let bytes = match data {
        None => {
            return Err(FilterError::MemcmpDataMissing);
        },
        Some(AccountsFilterMemcmpOneof::Bytes(bytes)) => crate::shared::clone_bytes(bytes),
        Some(AccountsFilterMemcmpOneof::Base58(text)) => {
            if text.as_str().len() > MAX_DATA_BASE58_SIZE {
                return Err(FilterError::MemcmpDataTooLarge);
            }
            match decode_base58(text.as_str()) {
                Some(bytes) => bytes,
                None => {
                    return Err(FilterError::InvalidMemcmpEncoding);
                },
            }
        },
        Some(AccountsFilterMemcmpOneof::Base64(text)) => {
            if text.as_str().len() > MAX_DATA_BASE64_SIZE {
                return Err(FilterError::MemcmpDataTooLarge);
            }
            match decode_base64(text.as_str()) {
                Some(bytes) => bytes,
                None => {
                    return Err(FilterError::InvalidMemcmpEncoding);
                },
            }
        },
    };
    Ok(bytes)
}

/// Whether the data holds each byte literal at its offset.
fn regions_match(regions: &Vec<(u64, Vec<u8>)>, data: &[u8]) -> (matched: bool)
    ensures
        matched == (forall|i: int|
            0 <= i < regions@.len() ==> region_equals(
                data@,
                (#[trigger] regions@[i]).0,
                regions@[i].1@,
            )),
{
    let mut k: usize = 0;
    while k < regions.len()
        invariant
            k <= regions.len(),
            forall|j: int|
                0 <= j < k ==> region_equals(data@, (#[trigger] regions@[j]).0, regions@[j].1@),
        decreases regions.len() - k,
    {
        if !region_matches(data, regions[k].0, &regions[k].1) {
            return false;
        }
        k += 1;
    }
    true
}

/// Whether the balance passes each comparison.
fn balances_match(wanted: &Vec<FilterAccountsLamports>, lamports: u64) -> (matched: bool)
    ensures
        matched == (forall|i: int| 0 <= i < wanted@.len() ==> (#[trigger] wanted@[i]).holds(lamports)),
{
    let mut i: usize = 0;
    while i < wanted.len()
        invariant
            i <= wanted.len(),
            forall|j: int| 0 <= j < i ==> (#[trigger] wanted@[j]).holds(lamports),
        decreases wanted.len() - i,
    {
        if !wanted[i].is_match(lamports) {
            return false;
        }
        i += 1;
    }
    true
}

impl FilterAccountsState {
    /// Adds a comparison of the data at `offset` with a byte literal that is
    /// already decoded, unless the literal is too long.
    pub fn add_memcmp(&mut self, offset: u64, bytes: Vec<u8>) -> (res: FilterResult<()>)
        ensures
            match sized(bytes@) {
                Ok(literal) => res.is_ok() && final(self)@ == (StateModel {
                    memcmp: old(self)@.memcmp.push((offset, literal)),
                    ..old(self)@
                }),
                Err(error) => res == Err::<(), FilterError>(error) && final(self)@ == old(self)@,
            },
    {
        if bytes.len() > MAX_DATA_SIZE {
            return Err(FilterError::MemcmpDataTooLarge);
        }
        let ghost before = self@;
        let ghost view = bytes@;
        self.memcmp.push((offset, bytes));
        assert(self@.memcmp =~= before.memcmp.push((offset, view)));
        Ok(())
    }

    /// Adds one predicate, unless it is refused.
    fn add(&mut self, filter: &SubscribeRequestFilterAccountsFilter) -> (res: FilterResult<()>)
        ensures
            match old(self)@.added(*filter) {
                Ok(state) => res.is_ok() && final(self)@ == state,
                Err(error) => res == Err::<(), FilterError>(error),
            },
    {
        let ghost before = self@;
        match &filter.filter {
            Some(AccountsFilterDataOneof::Memcmp(wanted)) => {
                match decode_literal(&wanted.data) {
                    Ok(bytes) => {
                        match self.add_memcmp(wanted.offset, bytes) {
                            Ok(()) => {},
                            Err(error) => {
                                return Err(error);
                            },
                        }
                    },
                    Err(error) => {
                        return Err(error);
                    },
                }
            },
            Some(AccountsFilterDataOneof::Datasize(size)) => {
                if self.datasize.is_some() {
                    return Err(FilterError::DatasizeUsedTwice);
                }
                self.datasize = Some(*size);
            },
            Some(AccountsFilterDataOneof::TokenAccountState(value)) => {
                if !*value {
                    return Err(FilterError::TokenAccountStateMustBeTrue);
                }
                self.token_account_state = true;
            },
            Some(AccountsFilterDataOneof::Lamports(wanted)) => {
                match &wanted.cmp {
                    Some(request) => {
                        self.lamports.push(FilterAccountsLamports::from(request));
                    },
                    None => {
                        return Err(FilterError::LamportsCmpMissing);
                    },
                }
            },
            None => {
                return Err(FilterError::DataPredicateMissing);
            },
        }
        Ok(())
    }

    /// No predicate.
    fn empty() -> (res: FilterAccountsState)
        ensures
            res@ == StateModel::empty(),
    {
        let res = FilterAccountsState {
            memcmp: Vec::new(),
            datasize: None,
            token_account_state: false,
            lamports: Vec::new(),
        };
        assert(res@.memcmp =~= Seq::empty());
        res
    }

    /// Compiles the data predicates of one account filter.
    pub fn new(filters: &Vec<SubscribeRequestFilterAccountsFilter>) -> (res: FilterResult<
        FilterAccountsState,
    >)
        ensures
            match StateModel::compiled(filters@) {
                Ok(state) => res.is_ok() && res.unwrap()@ == state,
                Err(error) => res == Err::<FilterAccountsState, FilterError>(error),
            },
    {
        if filters.len() > MAX_FILTERS {
            return Err(FilterError::TooManyDataPredicates { max: MAX_FILTERS });
        }
        let mut this = FilterAccountsState::empty();
        assert(filters@.take(0) =~= Seq::empty());
        let mut i: usize = 0;
        while i < filters.len()
            invariant
                i <= filters.len(),
                filters.len() <= MAX_FILTERS,
                StateModel::added_all(filters@.take(i as int)) == Ok::<StateModel, FilterError>(
                    this@,
                ),
            decreases filters.len() - i,
        {
            proof {
                assert(filters@.take(i + 1).drop_last() =~= filters@.take(i as int));
                if this@.added(filters@[i as int]).is_err() {
                    StateModel::lemma_added_all_failed(filters@, i + 1);
                }
            }
            match this.add(&filters[i]) {
                Ok(()) => {},
                Err(error) => {
                    return Err(error);
                },
            }
            i += 1;
        }
        assert(filters@.take(i as int) =~= filters@);
        Ok(this)
    }

    /// Whether there is no predicate.
    pub fn is_empty(&self) -> (empty: bool)
        ensures
            empty == self@.is_empty(),
    {
        self.memcmp.len() == 0 && self.datasize.is_none() && !self.token_account_state
            && self.lamports.len() == 0
    }

    /// Whether an account with this data and balance passes every
    /// predicate.
    pub fn is_match(&self, data: &[u8], lamports: u64) -> (matched: bool)
        ensures
            matched == self@.matches(data@, lamports),
    {
        match self.datasize {
            Some(size) => {
                if !len_is(data, size) {
                    return false;
                }
            },
            None => {},
        }
        if self.token_account_state && !valid_token_account(data) {
            return false;
        }
        assert(self@.lamports == self.lamports@);
        if !balances_match(&self.lamports, lamports) {
            let ghost i = choose|i: int|
                0 <= i < self.lamports@.len() && !(#[trigger] self.lamports@[i]).holds(lamports);
            assert(!self@.lamports[i].holds(lamports));
            return false;
        }
        let matched = regions_match(&self.memcmp, data);
        proof {
            assert forall|i: int| 0 <= i < self.memcmp@.len() implies (#[trigger] self@.memcmp[i])
                == (self.memcmp@[i].0, self.memcmp@[i].1@) by {}
            if matched {
                assert forall|i: int| 0 <= i < self@.memcmp.len() implies region_equals(
                    data@,
                    (#[trigger] self@.memcmp[i]).0,
                    self@.memcmp[i].1,
                ) by {
                    assert(region_equals(data@, self.memcmp@[i].0, self.memcmp@[i].1@));
                }
            } else {
                let i = choose|i: int|
                    0 <= i < self.memcmp@.len() && !region_equals(
                        data@,
                        (#[trigger] self.memcmp@[i]).0,
                        self.memcmp@[i].1@,
                    );
                assert(!region_equals(data@, self@.memcmp[i].0, self@.memcmp[i].1));
            }
        }
        matched
    }
}

/// Whether the data is `size` bytes long.
pub fn len_is(data: &[u8], size: u64) -> (same: bool)
    ensures
        same == (data@.len() == size),
{
    data.len() as u64 == size
}

impl Default for FilterAccountsState {
    /// No predicate.
    fn default() -> (res: FilterAccountsState)
        ensures
            res@ == StateModel::empty(),
    {
        FilterAccountsState::empty()
    }
}

} // verus!
