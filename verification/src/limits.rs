//! The caps that a server puts on subscriptions.

use crate::keys::{contains_key, Pubkey};
use vstd::prelude::*;

verus! {

/// One of the three optional parts of a block update.
#[derive(Clone, Copy, Debug, PartialEq, Eq, Structural)]
pub enum BlocksInclude {
    Transactions,
    Accounts,
    Entries,
}

/// Why a subscription goes beyond what the server allows.
#[derive(Clone, Copy, Debug, PartialEq, Eq)]
pub enum FilterLimitsCheckError {
    /// More filters of one kind, or more data slices, than the `max` allowed.
    MaxExceeded { max: usize },
    /// A filter without any criterion, where the server wants one.
    AnyNotAllowed,
    /// A list of keys longer than the `max` allowed.
    PubkeyMaxExceeded { max: usize },
    /// A key that the server does not let subscribers watch.
    PubkeyRejected { pubkey: Pubkey },
    /// A part of block updates that the server does not hand out.
    IncludeNotAllowed { field: BlocksInclude },
}

/// Caps on account filters.
#[derive(Clone, Debug)]
pub struct FilterLimitsAccounts {
    pub max: usize,
    pub any: bool,
    pub account_max: usize,
    pub account_reject: Vec<Pubkey>,
    pub owner_max: usize,
    pub owner_reject: Vec<Pubkey>,
    pub data_slice_max: usize,
}

/// Caps on slot filters.
#[derive(Clone, Debug)]
pub struct FilterLimitsSlots {
    pub max: usize,
}

/// Caps on transaction filters.
#[derive(Clone, Debug)]
pub struct FilterLimitsTransactions {
    pub max: usize,
    pub any: bool,
    pub account_include_max: usize,
    pub account_include_reject: Vec<Pubkey>,
    pub account_exclude_max: usize,
    pub account_required_max: usize,
}

/// Caps on entry filters.
#[derive(Clone, Debug)]
pub struct FilterLimitsEntries {
    pub max: usize,
}

/// Caps on block filters.
#[derive(Clone, Debug)]
pub struct FilterLimitsBlocks {
    pub max: usize,
    pub account_include_max: usize,
    pub account_include_any: bool,
    pub account_include_reject: Vec<Pubkey>,
    pub include_transactions: bool,
    pub include_accounts: bool,
    pub include_entries: bool,
}

/// Caps on block-meta filters.
#[derive(Clone, Debug)]
pub struct FilterLimitsBlocksMeta {
    pub max: usize,
}

/// All the caps of a server.
#[derive(Clone, Debug)]
pub struct FilterLimits {
    pub accounts: FilterLimitsAccounts,
    pub slots: FilterLimitsSlots,
    pub transactions: FilterLimitsTransactions,
    pub transactions_status: FilterLimitsTransactions,
    pub entries: FilterLimitsEntries,
    pub blocks: FilterLimitsBlocks,
    pub blocks_meta: FilterLimitsBlocksMeta,
}

impl Default for FilterLimitsAccounts {
    /// No cap on any count, no key rejected, and no filter without a
    /// criterion.
    fn default() -> (res: FilterLimitsAccounts)
        ensures
            res.max == usize::MAX,
            !res.any,
            res.account_max == usize::MAX,
            res.account_reject@ == Seq::<Pubkey>::empty(),
            res.owner_max == usize::MAX,
            res.owner_reject@ == Seq::<Pubkey>::empty(),
            res.data_slice_max == usize::MAX,
    {
        FilterLimitsAccounts {
            max: usize::MAX,
            any: false,
            account_max: usize::MAX,
            account_reject: Vec::new(),
            owner_max: usize::MAX,
            owner_reject: Vec::new(),
            data_slice_max: usize::MAX,
        }
    }
}

impl Default for FilterLimitsSlots {
    fn default() -> (res: FilterLimitsSlots)
        ensures
            res.max == usize::MAX,
    {
        FilterLimitsSlots { max: usize::MAX }
    }
}

impl Default for FilterLimitsTransactions {
    /// No cap on any count, no key rejected, and no filter without a
    /// criterion.
    fn default() -> (res: FilterLimitsTransactions)
        ensures
            res.max == usize::MAX,
            !res.any,
            res.account_include_max == usize::MAX,
            res.account_include_reject@ == Seq::<Pubkey>::empty(),
            res.account_exclude_max == usize::MAX,
            res.account_required_max == usize::MAX,
    {
        FilterLimitsTransactions {
            max: usize::MAX,
            any: false,
            account_include_max: usize::MAX,
            account_include_reject: Vec::new(),
            account_exclude_max: usize::MAX,
            account_required_max: usize::MAX,
        }
    }
}

impl Default for FilterLimitsEntries {
    fn default() -> (res: FilterLimitsEntries)
        ensures
            res.max == usize::MAX,
    {
        FilterLimitsEntries { max: usize::MAX }
    }
}

impl Default for FilterLimitsBlocks {
    /// No cap on any count, no key rejected, every part of a block handed
    /// out, and no filter without a key.
    fn default() -> (res: FilterLimitsBlocks)
        ensures
            res.max == usize::MAX,
            res.account_include_max == usize::MAX,
            !res.account_include_any,
            res.account_include_reject@ == Seq::<Pubkey>::empty(),
            res.include_transactions,
            res.include_accounts,
            res.include_entries,
    {
        FilterLimitsBlocks {
            max: usize::MAX,
            account_include_max: usize::MAX,
            account_include_any: false,
            account_include_reject: Vec::new(),
            include_transactions: true,
            include_accounts: true,
            include_entries: true,
        }
    }
}

impl Default for FilterLimitsBlocksMeta {
    fn default() -> (res: FilterLimitsBlocksMeta)
        ensures
            res.max == usize::MAX,
    {
        FilterLimitsBlocksMeta { max: usize::MAX }
    }
}

impl Default for FilterLimits {
    fn default() -> (res: FilterLimits)
        ensures
            res.accounts.max == usize::MAX,
            !res.accounts.any,
            res.accounts.account_max == usize::MAX,
            res.accounts.account_reject@ == Seq::<Pubkey>::empty(),
            res.accounts.owner_max == usize::MAX,
            res.accounts.owner_reject@ == Seq::<Pubkey>::empty(),
            res.accounts.data_slice_max == usize::MAX,
            res.slots.max == usize::MAX,
            res.transactions.max == usize::MAX,
            !res.transactions.any,
            res.transactions.account_include_max == usize::MAX,
            res.transactions.account_include_reject@ == Seq::<Pubkey>::empty(),
            res.transactions.account_exclude_max == usize::MAX,
            res.transactions.account_required_max == usize::MAX,
            res.transactions_status.max == usize::MAX,
            !res.transactions_status.any,
            res.transactions_status.account_include_max == usize::MAX,
            res.transactions_status.account_include_reject@ == Seq::<Pubkey>::empty(),
            res.transactions_status.account_exclude_max == usize::MAX,
            res.transactions_status.account_required_max == usize::MAX,
            res.entries.max == usize::MAX,
            res.blocks.max == usize::MAX,
            res.blocks.account_include_max == usize::MAX,
            !res.blocks.account_include_any,
            res.blocks.account_include_reject@ == Seq::<Pubkey>::empty(),
            res.blocks.include_transactions,
            res.blocks.include_accounts,
            res.blocks.include_entries,
            res.blocks_meta.max == usize::MAX,
    {
        FilterLimits {
            accounts: FilterLimitsAccounts::default(),
            slots: FilterLimitsSlots::default(),
            transactions: FilterLimitsTransactions::default(),
            transactions_status: FilterLimitsTransactions::default(),
            entries: FilterLimitsEntries::default(),
            blocks: FilterLimitsBlocks::default(),
            blocks_meta: FilterLimitsBlocksMeta::default(),
        }
    }
}

impl FilterLimits {
    /// Holds a count of filters, or of data slices, to its cap.
    pub fn check_max(len: usize, max: usize) -> (res: Result<(), FilterLimitsCheckError>)
        ensures
            res == if len <= max {
                Ok::<(), FilterLimitsCheckError>(())
            } else {
                Err::<(), FilterLimitsCheckError>(FilterLimitsCheckError::MaxExceeded { max })
            },
    {
        if len <= max {
            Ok(())
        } else {
            Err(FilterLimitsCheckError::MaxExceeded { max })
        }
    }

    /// Refuses a filter without any criterion, unless the server allows it.
    pub fn check_any(is_empty: bool, any: bool) -> (res: Result<(), FilterLimitsCheckError>)
        ensures
            res == if !is_empty || any {
                Ok::<(), FilterLimitsCheckError>(())
            } else {
                Err::<(), FilterLimitsCheckError>(FilterLimitsCheckError::AnyNotAllowed)
            },
    {
        if !is_empty || any {
            Ok(())
        } else {
            Err(FilterLimitsCheckError::AnyNotAllowed)
        }
    }

    /// Holds the length of a list of keys to its cap.
    pub fn check_pubkey_max(len: usize, max: usize) -> (res: Result<(), FilterLimitsCheckError>)
        ensures
            res == if len <= max {
                Ok::<(), FilterLimitsCheckError>(())
            } else {
                Err::<(), FilterLimitsCheckError>(FilterLimitsCheckError::PubkeyMaxExceeded { max })
            },
    {
        if len <= max {
            Ok(())
        } else {
            Err(FilterLimitsCheckError::PubkeyMaxExceeded { max })
        }
    }

    /// Refuses a key that is on the server's reject list.
    pub fn check_pubkey_reject(pubkey: &Pubkey, reject: &Vec<Pubkey>) -> (res: Result<
        (),
        FilterLimitsCheckError,
    >)
        ensures
            res == if !reject@.contains(*pubkey) {
                Ok::<(), FilterLimitsCheckError>(())
            } else {
                Err::<(), FilterLimitsCheckError>(
                    FilterLimitsCheckError::PubkeyRejected { pubkey: *pubkey },
                )
            },
    {
        if !contains_key(reject, pubkey) {
            Ok(())
        } else {
            Err(FilterLimitsCheckError::PubkeyRejected { pubkey: *pubkey })
        }
    }

    /// Refuses a part of block updates that the request asks for and the
    /// server does not hand out.
    pub fn check_include(field: BlocksInclude, requested: Option<bool>, allowed: bool) -> (res:
        Result<(), FilterLimitsCheckError>)
        ensures
            res == if allowed || requested != Some(true) {
                Ok::<(), FilterLimitsCheckError>(())
            } else {
                Err::<(), FilterLimitsCheckError>(
                    FilterLimitsCheckError::IncludeNotAllowed { field },
                )
            },
    {
        let asked = match requested {
            Some(flag) => flag,
            None => false,
        };
        if allowed || !asked {
            Ok(())
        } else {
            Err(FilterLimitsCheckError::IncludeNotAllowed { field })
        }
    }
}

} // verus!
