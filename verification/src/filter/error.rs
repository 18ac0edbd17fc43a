//! Why a subscription request is refused, and how the filters of one kind
//! are compiled one after the other.

use crate::keys::{keys_differ, lemma_with_key, push_key, with_key, ParseKeyError, Pubkey};
use crate::limits::{FilterLimits, FilterLimitsCheckError};
use crate::name::{FilterNameError, NamesState};
use vstd::prelude::*;

verus! {

/// Why a subscription request is refused.
#[derive(Clone, Copy, Debug, PartialEq, Eq)]
pub enum FilterError {
    /// A filter name that the registry refuses.
    Name(FilterNameError),
    /// A request beyond the server's limits.
    LimitsCheck(FilterLimitsCheckError),
    /// A commitment level that does not exist.
    InvalidCommitment { commitment: i32 },
    /// A text that is no public key.
    InvalidPubkey(ParseKeyError),
    /// A text that is no signature.
    InvalidSignature(ParseKeyError),
    /// More data predicates in one account filter than the `max` allowed.
    TooManyDataPredicates { max: usize },
    /// A data predicate without content.
    DataPredicateMissing,
    /// A byte comparison without a byte literal.
    MemcmpDataMissing,
    /// A byte literal that is not valid base58 or base64.
    InvalidMemcmpEncoding,
    /// A byte literal that is too long, encoded or decoded.
    MemcmpDataTooLarge,
    /// Two data-size predicates in one account filter.
    DatasizeUsedTwice,
    /// A token-account predicate that is `false`.
    TokenAccountStateMustBeTrue,
    /// A balance predicate without a comparison.
    LamportsCmpMissing,
    /// Data slices that are not sorted by their start.
    DataSliceOutOfOrder,
    /// Data slices that overlap.
    DataSliceOverlap,
}

pub type FilterResult<T> = Result<T, FilterError>;

/// The fault of a count of filters, or of data slices, that exceeds its cap.
pub open spec fn max_fault(len: nat, max: usize) -> Option<FilterError> {
    if len <= max {
        None
    } else {
        Some(FilterError::LimitsCheck(FilterLimitsCheckError::MaxExceeded { max }))
    }
}

/// The fault of a filter without criterion where the server wants one.
pub open spec fn any_fault(is_empty: bool, any: bool) -> Option<FilterError> {
    if !is_empty || any {
        None
    } else {
        Some(FilterError::LimitsCheck(FilterLimitsCheckError::AnyNotAllowed))
    }
}

/// The fault of a list of keys that is longer than its cap.
pub open spec fn pubkey_max_fault(len: nat, max: usize) -> Option<FilterError> {
    if len <= max {
        None
    } else {
        Some(FilterError::LimitsCheck(FilterLimitsCheckError::PubkeyMaxExceeded { max }))
    }
}

/// Holds a count to its cap.
pub fn check_max(len: usize, max: usize) -> (res: FilterResult<()>)
    ensures
        match max_fault(len as nat, max) {
            Some(error) => res == Err::<(), FilterError>(error),
            None => res.is_ok(),
        },
{
    match FilterLimits::check_max(len, max) {
        Ok(()) => Ok(()),
        Err(error) => Err(FilterError::LimitsCheck(error)),
    }
}

/// Refuses a filter without criterion, unless the server allows it.
pub fn check_any(is_empty: bool, any: bool) -> (res: FilterResult<()>)
    ensures
        match any_fault(is_empty, any) {
            Some(error) => res == Err::<(), FilterError>(error),
            None => res.is_ok(),
        },
{
    match FilterLimits::check_any(is_empty, any) {
        Ok(()) => Ok(()),
        Err(error) => Err(FilterError::LimitsCheck(error)),
    }
}

/// Holds the length of a list of keys to its cap.
pub fn check_pubkey_max(len: usize, max: usize) -> (res: FilterResult<()>)
    ensures
        match pubkey_max_fault(len as nat, max) {
            Some(error) => res == Err::<(), FilterError>(error),
            None => res.is_ok(),
        },
{
    match FilterLimits::check_pubkey_max(len, max) {
        Ok(()) => Ok(()),
        Err(error) => Err(FilterError::LimitsCheck(error)),
    }
}

/// What compiling gives: what was compiled and the registry afterwards, or
/// the reason of the refusal and the registry as the refusal left it.
pub type Outcome<M> = Result<(M, NamesState), (FilterError, NamesState)>;

/// What asking the registry for a name gives: the registry afterwards, or
/// the reason for which the name is refused and the registry unchanged.
pub open spec fn named(names: NamesState, name: Seq<char>) -> Result<
    NamesState,
    (FilterError, NamesState),
> {
    match names.get(name) {
        Ok(state) => Ok(state),
        Err(error) => Err((FilterError::Name(error), names)),
    }
}

/// Compiles filters one after the other: each step takes what was compiled
/// so far and the registry, and gives both back or fails; the first failure
/// is the outcome.
pub open spec fn compile_fold<C, M>(
    configs: Seq<(Seq<char>, C)>,
    init: M,
    names: NamesState,
    step: spec_fn(M, NamesState, Seq<char>, C) -> Outcome<M>,
) -> Outcome<M>
    decreases configs.len(),
{
    if configs.len() == 0 {
        Ok((init, names))
    } else {
        match compile_fold(configs.drop_last(), init, names, step) {
            Err(failure) => Err(failure),
            Ok((model, state)) => step(model, state, configs.last().0, configs.last().1),
        }
    }
}

/// Compiling one filter more is one step from what the filters before it
/// gave.
pub proof fn lemma_compile_step<C, M>(
    configs: Seq<(Seq<char>, C)>,
    init: M,
    names: NamesState,
    step: spec_fn(M, NamesState, Seq<char>, C) -> Outcome<M>,
    i: int,
)
    requires
        0 <= i < configs.len(),
    ensures
        compile_fold(configs.take(i + 1), init, names, step) == match compile_fold(
            configs.take(i),
            init,
            names,
            step,
        ) {
            Err(failure) => Err(failure),
            Ok((model, state)) => step(model, state, configs[i].0, configs[i].1),
        },
{
    assert(configs.take(i + 1).drop_last() =~= configs.take(i));
}

/// A failure among the first filters is the outcome of the whole.
pub proof fn lemma_compile_failed<C, M>(
    configs: Seq<(Seq<char>, C)>,
    init: M,
    names: NamesState,
    step: spec_fn(M, NamesState, Seq<char>, C) -> Outcome<M>,
    i: int,
)
    requires
        0 <= i <= configs.len(),
        compile_fold(configs.take(i), init, names, step).is_err(),
    ensures
        compile_fold(configs, init, names, step) == compile_fold(configs.take(i), init, names, step),
    decreases configs.len() - i,
{
    if i < configs.len() {
        lemma_compile_step(configs, init, names, step, i);
        lemma_compile_failed(configs, init, names, step, i + 1);
    } else {
        assert(configs.take(i) =~= configs);
    }
}

/// What was compiled, where compiling succeeded.
pub open spec fn model_of<M>(outcome: Outcome<M>) -> M {
    match outcome {
        Ok((model, _)) => model,
        Err(_) => arbitrary(),
    }
}

/// The registry after compiling, whether it succeeded or not.
pub open spec fn names_of<M>(outcome: Outcome<M>) -> NamesState {
    match outcome {
        Ok((_, names)) => names,
        Err((_, names)) => names,
    }
}

/// The keys that a list of texts stands for, each once, in the order in
/// which they first occur, unless one of the texts is no key or stands for a
/// key that the server rejects; the first such text decides.
pub open spec fn decoded_keys(texts: Seq<String>, reject: Seq<Pubkey>) -> Result<
    Seq<Pubkey>,
    FilterError,
>
    decreases texts.len(),
{
    if texts.len() == 0 {
        Ok(Seq::empty())
    } else {
        match decoded_keys(texts.drop_last(), reject) {
            Err(error) => Err(error),
            Ok(keys) => match decoded_key(texts.last()@, reject) {
                Err(error) => Err(error),
                Ok(key) => Ok(with_key(keys, key)),
            },
        }
    }
}

/// The key that a text stands for, unless it is no key or the server
/// rejects it.
pub open spec fn decoded_key(text: Seq<char>, reject: Seq<Pubkey>) -> Result<Pubkey, FilterError> {
    match crate::keys::pubkey_from_text(text) {
        Err(error) => Err(FilterError::InvalidPubkey(error)),
        Ok(bytes) => if reject.contains(crate::message::key_of(bytes)) {
            Err(
                FilterError::LimitsCheck(
                    FilterLimitsCheckError::PubkeyRejected { pubkey: crate::message::key_of(bytes) },
                ),
            )
        } else {
            Ok(crate::message::key_of(bytes))
        },
    }
}

/// Reads one key and holds it against the reject list.
pub fn decode_pubkey(text: &str, reject: &Vec<Pubkey>) -> (res: FilterResult<Pubkey>)
    ensures
        res == decoded_key(text@, reject@),
{
    match Pubkey::parse(text) {
        Err(error) => Err(FilterError::InvalidPubkey(error)),
        Ok(key) => {
            proof {
                Pubkey::lemma_view_injective(crate::message::key_of(key@), key);
            }
            match FilterLimits::check_pubkey_reject(&key, reject) {
                Ok(()) => Ok(key),
                Err(error) => Err(FilterError::LimitsCheck(error)),
            }
        },
    }
}

/// Reads a list of keys and holds each against the reject list. A key that
/// the list gives more than once is kept once.
pub fn decode_pubkeys(texts: &Vec<String>, reject: &Vec<Pubkey>) -> (res: FilterResult<
    Vec<Pubkey>,
>)
    ensures
        match decoded_keys(texts@, reject@) {
            Ok(keys) => res.is_ok() && res.unwrap()@ == keys,
            Err(error) => res == Err::<Vec<Pubkey>, FilterError>(error),
        },
        res matches Ok(keys) ==> keys_differ(keys@),
{
    let mut keys: Vec<Pubkey> = Vec::new();
    let mut i: usize = 0;
    assert(texts@.take(0) =~= Seq::<String>::empty());
    while i < texts.len()
        invariant
            i <= texts.len(),
            decoded_keys(texts@.take(i as int), reject@) == Ok::<Seq<Pubkey>, FilterError>(keys@),
        decreases texts.len() - i,
    {
        assert(texts@.take(i + 1).drop_last() =~= texts@.take(i as int));
        match decode_pubkey(texts[i].as_str(), reject) {
            Ok(key) => {
                push_key(&mut keys, key);
            },
            Err(error) => {
                proof {
                    lemma_decoded_keys_failed(texts@, reject@, i + 1);
                }
                return Err(error);
            },
        }
        i += 1;
    }
    assert(texts@.take(i as int) =~= texts@);
    proof {
        lemma_decoded_keys_differ(texts@, reject@);
    }
    Ok(keys)
}

/// No key occurs twice among the keys that a list of texts stands for.
pub proof fn lemma_decoded_keys_differ(texts: Seq<String>, reject: Seq<Pubkey>)
    requires
        decoded_keys(texts, reject).is_ok(),
    ensures
        keys_differ(decoded_keys(texts, reject).unwrap()),
    decreases texts.len(),
{
    if texts.len() > 0 {
        lemma_decoded_keys_differ(texts.drop_last(), reject);
        lemma_with_key(
            decoded_keys(texts.drop_last(), reject).unwrap(),
            decoded_key(texts.last()@, reject).unwrap(),
        );
    }
}

/// A failure among the first texts is the outcome of the whole list.
pub proof fn lemma_decoded_keys_failed(texts: Seq<String>, reject: Seq<Pubkey>, i: int)
    requires
        0 <= i <= texts.len(),
        decoded_keys(texts.take(i), reject).is_err(),
    ensures
        decoded_keys(texts, reject) == decoded_keys(texts.take(i), reject),
    decreases texts.len() - i,
{
    if i < texts.len() {
        assert(texts.take(i + 1).drop_last() =~= texts.take(i));
        lemma_decoded_keys_failed(texts, reject, i + 1);
    } else {
        assert(texts.take(i) =~= texts);
    }
}

} // verus!
