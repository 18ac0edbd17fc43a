//! The canonical records of the upstream feed.

use crate::confirmed_block::{Rewards, Transaction, TransactionStatusMeta, UnixTimestamp, BlockHeight};
use crate::geyser::{
    SubscribeUpdateAccount, SubscribeUpdateAccountInfo, SubscribeUpdateBlock,
    SubscribeUpdateBlockMeta, SubscribeUpdateEntry, SubscribeUpdateSlot,
    SubscribeUpdateTransaction, SubscribeUpdateTransactionInfo, UpdateOneof,
};
use crate::keys::{
    distinct, distinct_keys, keys_differ, lemma_with_key, push_key, with_key, Pubkey, Signature,
};
use crate::seqs::{first_fault, lemma_first_fault_prefix, lemma_first_fault_step};
use std::sync::Arc;
use vstd::prelude::*;

verus! {

/// How settled a slot is. The first three levels are ordered: processed,
/// then confirmed, then finalized.
#[derive(Debug, Clone, Copy, PartialEq, Eq, PartialOrd, Ord, Structural)]
pub enum CommitmentLevel {
    Processed,
    Confirmed,
    Finalized,
    FirstShredReceived,
    Completed,
    CreatedBank,
    Dead,
}

/// The status of a slot as the upstream source reports it.
#[derive(Debug, Clone, PartialEq, Eq)]
pub enum SlotStatus {
    Processed,
    Rooted,
    Confirmed,
    FirstShredReceived,
    Completed,
    CreatedBank,
    Dead(String),
}

/// Why a wire update is no canonical message.
#[derive(Debug, Clone, Copy, PartialEq, Eq, Structural)]
pub enum FromUpdateOneofError {
    InvalidCommitmentLevel,
    InvalidPubkeyLength,
    InvalidOwnerLength,
    InvalidSignatureLength,
    InvalidHashLength,
    AccountMissing,
    TransactionMissing,
    MetaMissing,
    TransactionStatusNotSupported,
    PingNotSupported,
    PongNotSupported,
}

/// A point in time: seconds and nanoseconds since the Unix epoch.
#[derive(Debug, Clone, Copy, PartialEq, Eq, Structural)]
pub struct Timestamp {
    pub seconds: i64,
    pub nanos: i32,
}

impl Timestamp {
    /// The time at which the call is made.
    ///
    /// Calls `SystemTime::now` and `prost_types::Timestamp::from`. Nothing is
    /// claimed of the result.
    #[verifier::external_body]
    pub(crate) fn now() -> Timestamp {
        let now = prost_types::Timestamp::from(std::time::SystemTime::now());
        Timestamp { seconds: now.seconds, nanos: now.nanos }
    }
}

impl CommitmentLevel {
    /// The level's name in lower case.
    pub open spec fn label(self) -> Seq<char> {
        match self {
            CommitmentLevel::Processed => "processed"@,
            CommitmentLevel::Confirmed => "confirmed"@,
            CommitmentLevel::Finalized => "finalized"@,
            CommitmentLevel::FirstShredReceived => "first_shread_received"@,
            CommitmentLevel::Completed => "completed"@,
            CommitmentLevel::CreatedBank => "created_bank"@,
            CommitmentLevel::Dead => "dead"@,
        }
    }

    /// The level's number on the wire.
    pub open spec fn code(self) -> i32 {
        match self {
            CommitmentLevel::Processed => 0,
            CommitmentLevel::Confirmed => 1,
            CommitmentLevel::Finalized => 2,
            CommitmentLevel::FirstShredReceived => 3,
            CommitmentLevel::Completed => 4,
            CommitmentLevel::CreatedBank => 5,
            CommitmentLevel::Dead => 6,
        }
    }

    /// The level that a slot status stands for.
    pub open spec fn of_status(status: SlotStatus) -> CommitmentLevel {
        match status {
            SlotStatus::Processed => CommitmentLevel::Processed,
            SlotStatus::Confirmed => CommitmentLevel::Confirmed,
            SlotStatus::Rooted => CommitmentLevel::Finalized,
            SlotStatus::FirstShredReceived => CommitmentLevel::FirstShredReceived,
            SlotStatus::Completed => CommitmentLevel::Completed,
            SlotStatus::CreatedBank => CommitmentLevel::CreatedBank,
            SlotStatus::Dead(_) => CommitmentLevel::Dead,
        }
    }

    /// The level's name in lower case.
    pub fn as_str(&self) -> (name: &'static str)
        ensures
            name@ == self.label(),
    {
        match self {
            CommitmentLevel::Processed => "processed",
            CommitmentLevel::Confirmed => "confirmed",
            CommitmentLevel::Finalized => "finalized",
            CommitmentLevel::FirstShredReceived => "first_shread_received",
            CommitmentLevel::Completed => "completed",
            CommitmentLevel::CreatedBank => "created_bank",
            CommitmentLevel::Dead => "dead",
        }
    }

    /// The level's number on the wire.
    pub fn to_i32(self) -> (code: i32)
        ensures
            code == self.code(),
    {
        match self {
            CommitmentLevel::Processed => 0,
            CommitmentLevel::Confirmed => 1,
            CommitmentLevel::Finalized => 2,
            CommitmentLevel::FirstShredReceived => 3,
            CommitmentLevel::Completed => 4,
            CommitmentLevel::CreatedBank => 5,
            CommitmentLevel::Dead => 6,
        }
    }

    /// The level with the given number on the wire, if there is one.
    pub fn from_i32(code: i32) -> (res: Option<CommitmentLevel>)
        ensures
            res.is_some() == (0 <= code <= 6),
            res matches Some(level) ==> level.code() == code,
    {
        if code == 0 {
            Some(CommitmentLevel::Processed)
        } else if code == 1 {
            Some(CommitmentLevel::Confirmed)
        } else if code == 2 {
            Some(CommitmentLevel::Finalized)
        } else if code == 3 {
            Some(CommitmentLevel::FirstShredReceived)
        } else if code == 4 {
            Some(CommitmentLevel::Completed)
        } else if code == 5 {
            Some(CommitmentLevel::CreatedBank)
        } else if code == 6 {
            Some(CommitmentLevel::Dead)
        } else {
            None
        }
    }
}

impl From<&SlotStatus> for CommitmentLevel {
    fn from(status: &SlotStatus) -> (level: CommitmentLevel) {
        match status {
            SlotStatus::Processed => CommitmentLevel::Processed,
            SlotStatus::Confirmed => CommitmentLevel::Confirmed,
            SlotStatus::Rooted => CommitmentLevel::Finalized,
            SlotStatus::FirstShredReceived => CommitmentLevel::FirstShredReceived,
            SlotStatus::Completed => CommitmentLevel::Completed,
            SlotStatus::CreatedBank => CommitmentLevel::CreatedBank,
            SlotStatus::Dead(_) => CommitmentLevel::Dead,
        }
    }
}

impl vstd::std_specs::convert::FromSpecImpl<&SlotStatus> for CommitmentLevel {
    open spec fn obeys_from_spec() -> bool {
        true
    }

    open spec fn from_spec(status: &SlotStatus) -> CommitmentLevel {
        CommitmentLevel::of_status(*status)
    }
}

/// A change of a slot's status.
#[derive(Debug, Clone, PartialEq)]
pub struct MessageSlot {
    pub slot: u64,
    pub parent: Option<u64>,
    pub status: CommitmentLevel,
    pub dead_error: Option<String>,
    pub created_at: Timestamp,
}

impl MessageSlot {
    /// The message for a status that the upstream source reports, created
    /// now.
    pub fn from_geyser(slot: u64, parent: Option<u64>, status: &SlotStatus) -> (res: MessageSlot)
        ensures
            res.slot == slot,
            res.parent == parent,
            res.status == CommitmentLevel::of_status(*status),
            match *status {
                SlotStatus::Dead(error) => res.dead_error == Some(error),
                _ => res.dead_error.is_none(),
            },
    {
        let dead_error = match status {
            SlotStatus::Dead(error) => Some(error.clone()),
            _ => None,
        };
        MessageSlot {
            slot,
            parent,
            status: CommitmentLevel::from(status),
            dead_error,
            created_at: Timestamp::now(),
        }
    }

    /// The message that a wire update stands for.
    pub fn from_update_oneof(msg: &SubscribeUpdateSlot, created_at: Timestamp) -> (res: Result<
        MessageSlot,
        FromUpdateOneofError,
    >)
        ensures
            res.is_ok() == (0 <= msg.status <= 6),
            res matches Err(error) ==> error == FromUpdateOneofError::InvalidCommitmentLevel,
            res matches Ok(message) ==> {
                &&& message.slot == msg.slot
                &&& message.parent == msg.parent
                &&& message.status.code() == msg.status
                &&& message.dead_error == msg.dead_error
                &&& message.created_at == created_at
            },
    {
        let status = match CommitmentLevel::from_i32(msg.status) {
            Some(status) => status,
            None => {
                return Err(FromUpdateOneofError::InvalidCommitmentLevel);
            },
        };
        let dead_error = match &msg.dead_error {
            Some(error) => Some(error.clone()),
            None => None,
        };
        Ok(MessageSlot { slot: msg.slot, parent: msg.parent, status, dead_error, created_at })
    }
}

/// An account write as the upstream source reports it.
#[derive(Debug, Clone, PartialEq)]
pub struct ReplicaAccountInfo {
    pub pubkey: Vec<u8>,
    pub lamports: u64,
    pub owner: Vec<u8>,
    pub executable: bool,
    pub rent_epoch: u64,
    pub data: Vec<u8>,
    pub write_version: u64,
    pub txn_signature: Option<Signature>,
}

/// The state of an account after a write.
#[derive(Debug, Clone, PartialEq)]
pub struct MessageAccountInfo {
    pub pubkey: Pubkey,
    pub lamports: u64,
    pub owner: Pubkey,
    pub executable: bool,
    pub rent_epoch: u64,
    pub data: Vec<u8>,
    pub write_version: u64,
    pub txn_signature: Option<Signature>,
}

impl MessageAccountInfo {
    /// What a wire update lacks to be an account record, if anything: a key
    /// of 32 bytes, an owner of 32 bytes, a signature of 64 bytes.
    pub open spec fn fault(msg: SubscribeUpdateAccountInfo) -> Option<FromUpdateOneofError> {
        if msg.pubkey@.len() != 32 {
            Some(FromUpdateOneofError::InvalidPubkeyLength)
        } else if msg.owner@.len() != 32 {
            Some(FromUpdateOneofError::InvalidOwnerLength)
        } else if msg.txn_signature.is_some() && msg.txn_signature.unwrap()@.len() != 64 {
            Some(FromUpdateOneofError::InvalidSignatureLength)
        } else {
            None
        }
    }

    /// Whether the record holds what the wire update holds.
    pub open spec fn holds(self, msg: SubscribeUpdateAccountInfo) -> bool {
        &&& self.pubkey@ == msg.pubkey@
        &&& self.lamports == msg.lamports
        &&& self.owner@ == msg.owner@
        &&& self.executable == msg.executable
        &&& self.rent_epoch == msg.rent_epoch
        &&& self.data@ == msg.data@
        &&& self.write_version == msg.write_version
        &&& self.txn_signature.is_some() == msg.txn_signature.is_some()
        &&& self.txn_signature matches Some(signature) ==> signature@ == msg.txn_signature.unwrap()@
    }

    /// The record of a write that the upstream source reports.
    pub fn from_geyser(info: &ReplicaAccountInfo) -> (res: MessageAccountInfo)
        requires
            info.pubkey@.len() == 32,
            info.owner@.len() == 32,
        ensures
            res.pubkey@ == info.pubkey@,
            res.lamports == info.lamports,
            res.owner@ == info.owner@,
            res.executable == info.executable,
            res.rent_epoch == info.rent_epoch,
            res.data@ == info.data@,
            res.write_version == info.write_version,
            res.txn_signature == info.txn_signature,
    {
        let pubkey = Pubkey::from_slice(info.pubkey.as_slice());
        let owner = Pubkey::from_slice(info.owner.as_slice());
        MessageAccountInfo {
            pubkey: pubkey.unwrap(),
            lamports: info.lamports,
            owner: owner.unwrap(),
            executable: info.executable,
            rent_epoch: info.rent_epoch,
            data: crate::shared::clone_bytes(&info.data),
            write_version: info.write_version,
            txn_signature: info.txn_signature,
        }
    }

    /// The record that a wire update stands for.
    pub fn from_update_oneof(msg: SubscribeUpdateAccountInfo) -> (res: Result<
        MessageAccountInfo,
        FromUpdateOneofError,
    >)
        ensures
            match MessageAccountInfo::fault(msg) {
                Some(error) => res == Err::<MessageAccountInfo, FromUpdateOneofError>(error),
                None => res.is_ok() && res.unwrap().holds(msg),
            },
    {
        let pubkey = match Pubkey::from_slice(msg.pubkey.as_slice()) {
            Some(pubkey) => pubkey,
            None => {
                return Err(FromUpdateOneofError::InvalidPubkeyLength);
            },
        };
        let owner = match Pubkey::from_slice(msg.owner.as_slice()) {
            Some(owner) => owner,
            None => {
                return Err(FromUpdateOneofError::InvalidOwnerLength);
            },
        };
        let txn_signature = match &msg.txn_signature {
            Some(bytes) => match Signature::from_slice(bytes.as_slice()) {
                Some(signature) => Some(signature),
                None => {
                    return Err(FromUpdateOneofError::InvalidSignatureLength);
                },
            },
            None => None,
        };
        Ok(
            MessageAccountInfo {
                pubkey,
                lamports: msg.lamports,
                owner,
                executable: msg.executable,
                rent_epoch: msg.rent_epoch,
                data: msg.data,
                write_version: msg.write_version,
                txn_signature,
            },
        )
    }
}

/// An account write in a slot.
#[derive(Debug, Clone, PartialEq)]
pub struct MessageAccount {
    pub account: Arc<MessageAccountInfo>,
    pub slot: u64,
    pub is_startup: bool,
    pub created_at: Timestamp,
}

impl MessageAccount {
    /// What a wire update lacks to be an account message, if anything.
    pub open spec fn fault(msg: SubscribeUpdateAccount) -> Option<FromUpdateOneofError> {
        match msg.account {
            None => Some(FromUpdateOneofError::AccountMissing),
            Some(account) => MessageAccountInfo::fault(account),
        }
    }

    /// The message for a write that the upstream source reports, created
    /// now.
    pub fn from_geyser(info: &ReplicaAccountInfo, slot: u64, is_startup: bool) -> (res:
        MessageAccount)
        requires
            info.pubkey@.len() == 32,
            info.owner@.len() == 32,
        ensures
            res.account.pubkey@ == info.pubkey@,
            res.account.lamports == info.lamports,
            res.account.owner@ == info.owner@,
            res.account.executable == info.executable,
            res.account.rent_epoch == info.rent_epoch,
            res.account.data@ == info.data@,
            res.account.write_version == info.write_version,
            res.account.txn_signature == info.txn_signature,
            res.slot == slot,
            res.is_startup == is_startup,
    {
        MessageAccount {
            account: Arc::new(MessageAccountInfo::from_geyser(info)),
            slot,
            is_startup,
            created_at: Timestamp::now(),
        }
    }

    /// The message that a wire update stands for.
    pub fn from_update_oneof(msg: SubscribeUpdateAccount, created_at: Timestamp) -> (res: Result<
        MessageAccount,
        FromUpdateOneofError,
    >)
        ensures
            match MessageAccount::fault(msg) {
                Some(error) => res == Err::<MessageAccount, FromUpdateOneofError>(error),
                None => {
                    &&& res.is_ok()
                    &&& res.unwrap().account.holds(msg.account.unwrap())
                    &&& res.unwrap().slot == msg.slot
                    &&& res.unwrap().is_startup == msg.is_startup
                    &&& res.unwrap().created_at == created_at
                },
            },
    {
        let account = match msg.account {
            Some(account) => account,
            None => {
                return Err(FromUpdateOneofError::AccountMissing);
            },
        };
        let account = match MessageAccountInfo::from_update_oneof(account) {
            Ok(account) => account,
            Err(error) => {
                return Err(error);
            },
        };
        Ok(
            MessageAccount {
                account: Arc::new(account),
                slot: msg.slot,
                is_startup: msg.is_startup,
                created_at,
            },
        )
    }
}

/// A transaction as the upstream source reports it, with the keys of the
/// accounts that it touches as the source lists them: a key may occur more
/// than once.
#[derive(Debug, Clone, PartialEq)]
pub struct ReplicaTransactionInfo {
    pub signature: Signature,
    pub is_vote: bool,
    pub transaction: Arc<Transaction>,
    pub meta: Arc<TransactionStatusMeta>,
    pub index: usize,
    pub account_keys: Vec<Pubkey>,
}

/// A transaction with what running it did.
#[derive(Debug, Clone, PartialEq)]
pub struct MessageTransactionInfo {
    pub signature: Signature,
    pub is_vote: bool,
    pub transaction: Arc<Transaction>,
    pub meta: Arc<TransactionStatusMeta>,
    pub index: usize,
    pub account_keys: Vec<Pubkey>,
}

/// The key that 32 bytes stand for.
pub open spec fn key_of(bytes: Seq<u8>) -> Pubkey {
    choose|key: Pubkey| key@ == bytes
}

/// What a raw key lacks to be a key, if anything: a length of 32 bytes.
pub open spec fn key_fault(raw: Vec<u8>) -> Option<FromUpdateOneofError> {
    if raw@.len() != 32 {
        Some(FromUpdateOneofError::InvalidPubkeyLength)
    } else {
        None
    }
}

/// The keys `acc` followed by the keys of `raw` that did not occur before,
/// in order.
pub open spec fn extend_distinct(acc: Seq<Pubkey>, raw: Seq<Vec<u8>>) -> Seq<Pubkey>
    decreases raw.len(),
{
    if raw.len() == 0 {
        acc
    } else {
        with_key(extend_distinct(acc, raw.drop_last()), key_of(raw.last()@))
    }
}

/// Where no key occurred twice before, none occurs twice among the
/// distinct keys.
pub proof fn lemma_extend_distinct_differ(acc: Seq<Pubkey>, raw: Seq<Vec<u8>>)
    requires
        keys_differ(acc),
    ensures
        keys_differ(extend_distinct(acc, raw)),
    decreases raw.len(),
{
    if raw.len() > 0 {
        lemma_extend_distinct_differ(acc, raw.drop_last());
        lemma_with_key(extend_distinct(acc, raw.drop_last()), key_of(raw.last()@));
    }
}

/// A key is among the distinct keys exactly when it was there before or one
/// of the raw keys stands for it.
pub proof fn lemma_extend_distinct_contains(acc: Seq<Pubkey>, raw: Seq<Vec<u8>>, key: Pubkey)
    ensures
        extend_distinct(acc, raw).contains(key) <==> (acc.contains(key) || exists|i: int|
            0 <= i < raw.len() && key_of(#[trigger] raw[i]@) == key),
    decreases raw.len(),
{
    if raw.len() > 0 {
        let rest = extend_distinct(acc, raw.drop_last());
        lemma_extend_distinct_contains(acc, raw.drop_last(), key);
        let last = key_of(raw.last()@);
        if rest.contains(key) {
            if !acc.contains(key) {
                let i = choose|i: int|
                    0 <= i < raw.drop_last().len() && key_of(#[trigger] raw.drop_last()[i]@) == key;
                assert(key_of(raw[i]@) == key);
            }
            if !rest.contains(last) {
                assert(rest.push(last)[0] == rest[0] || rest.len() == 0);
                let j = choose|j: int| 0 <= j < rest.len() && rest[j] == key;
                assert(rest.push(last)[j] == key);
            }
        } else {
            if (exists|i: int| 0 <= i < raw.len() && key_of(#[trigger] raw[i]@) == key) {
                let i = choose|i: int| 0 <= i < raw.len() && key_of(#[trigger] raw[i]@) == key;
                if i < raw.len() - 1 {
                    assert(key_of(raw.drop_last()[i]@) == key);
                }
                assert(last == key);
                assert(rest.push(last)[rest.len() as int] == key);
            }
            if extend_distinct(acc, raw).contains(key) {
                let full = extend_distinct(acc, raw);
                let j = choose|j: int| 0 <= j < full.len() && full[j] == key;
                if rest.contains(last) {
                } else {
                    if j < rest.len() {
                        assert(rest[j] == key);
                    }
                    assert(key_of(raw[raw.len() - 1]@) == key);
                }
            }
        }
    }
}

/// Adds to `out` the keys of `raw` that it does not hold yet, unless one of
/// them is no key.
fn collect_keys(out: &mut Vec<Pubkey>, raw: &Vec<Vec<u8>>) -> (res: Result<
    (),
    FromUpdateOneofError,
>)
    ensures
        match first_fault(raw@, |key: Vec<u8>| key_fault(key)) {
            Some(error) => res == Err::<(), FromUpdateOneofError>(error),
            None => res.is_ok() && final(out)@ == extend_distinct(old(out)@, raw@),
        },
{
    let ghost fault = |key: Vec<u8>| key_fault(key);
    let ghost before = out@;
    let mut i: usize = 0;
    assert(raw@.take(0) =~= Seq::<Vec<u8>>::empty());
    while i < raw.len()
        invariant
            i <= raw.len(),
            fault == |key: Vec<u8>| key_fault(key),
            first_fault(raw@.take(i as int), fault).is_none(),
            out@ == extend_distinct(before, raw@.take(i as int)),
        decreases raw.len() - i,
    {
        proof {
            lemma_first_fault_step(raw@, fault, i as int);
            assert(raw@.take(i + 1).drop_last() =~= raw@.take(i as int));
        }
        match Pubkey::from_slice(raw[i].as_slice()) {
            Some(key) => {
                proof {
                    let chosen = key_of(raw@[i as int]@);
                    assert(chosen@ == key@);
                    Pubkey::lemma_view_injective(chosen, key);
                }
                push_key(out, key);
            },
            None => {
                proof {
                    lemma_first_fault_prefix(raw@, fault, i + 1);
                }
                return Err(FromUpdateOneofError::InvalidPubkeyLength);
            },
        }
        i += 1;
    }
    assert(raw@.take(i as int) =~= raw@);
    Ok(())
}

impl MessageTransactionInfo {
    /// What a wire update lacks to be a transaction record, if anything: a
    /// signature of 64 bytes, the transaction, its meta.
    pub open spec fn fault(msg: SubscribeUpdateTransactionInfo) -> Option<FromUpdateOneofError> {
        if msg.signature@.len() != 64 {
            Some(FromUpdateOneofError::InvalidSignatureLength)
        } else if msg.transaction.is_none() {
            Some(FromUpdateOneofError::TransactionMissing)
        } else if msg.meta.is_none() {
            Some(FromUpdateOneofError::MetaMissing)
        } else {
            None
        }
    }

    /// Whether the record holds what the wire update holds, and no account
    /// keys yet.
    pub open spec fn holds(self, msg: SubscribeUpdateTransactionInfo) -> bool {
        &&& self.signature@ == msg.signature@
        &&& self.is_vote == msg.is_vote
        &&& Some(self.transaction) == msg.transaction
        &&& Some(self.meta) == msg.meta
        &&& self.index == msg.index as usize
        &&& self.account_keys@.len() == 0
    }

    /// The raw keys listed in the transaction's message.
    pub open spec fn static_keys(self) -> Seq<Vec<u8>> {
        match self.transaction.message {
            Some(message) => message.account_keys@,
            None => Seq::empty(),
        }
    }

    /// The first raw key of the transaction that is no key, if any: among
    /// the message's keys, then the loaded writable and the loaded read-only
    /// addresses.
    pub open spec fn keys_fault(self) -> Option<FromUpdateOneofError> {
        let fault = |key: Vec<u8>| key_fault(key);
        match first_fault(self.static_keys(), fault) {
            Some(error) => Some(error),
            None => match first_fault(self.meta.loaded_writable_addresses@, fault) {
                Some(error) => Some(error),
                None => first_fault(self.meta.loaded_readonly_addresses@, fault),
            },
        }
    }

    /// The keys of all the accounts that the transaction touches: those of
    /// its message, then the loaded writable and the loaded read-only
    /// addresses, each once.
    pub open spec fn all_keys(self) -> Seq<Pubkey> {
        extend_distinct(
            extend_distinct(
                extend_distinct(Seq::empty(), self.static_keys()),
                self.meta.loaded_writable_addresses@,
            ),
            self.meta.loaded_readonly_addresses@,
        )
    }

    /// The record of a transaction that the upstream source reports. Its
    /// account keys are the keys that the source lists, each once, in the
    /// order in which they first occur.
    pub fn from_geyser(info: &ReplicaTransactionInfo) -> (res: MessageTransactionInfo)
        ensures
            res.signature == info.signature,
            res.is_vote == info.is_vote,
            res.transaction == info.transaction,
            res.meta == info.meta,
            res.index == info.index,
            res.account_keys@ == distinct_keys(info.account_keys@),
    {
        let account_keys = distinct(&info.account_keys);
        MessageTransactionInfo {
            signature: info.signature,
            is_vote: info.is_vote,
            transaction: crate::shared::share(&info.transaction),
            meta: crate::shared::share(&info.meta),
            index: info.index,
            account_keys,
        }
    }

    /// The record that a wire update stands for, without its account keys.
    pub fn from_update_oneof(msg: SubscribeUpdateTransactionInfo) -> (res: Result<
        MessageTransactionInfo,
        FromUpdateOneofError,
    >)
        ensures
            match MessageTransactionInfo::fault(msg) {
                Some(error) => res == Err::<MessageTransactionInfo, FromUpdateOneofError>(error),
                None => res.is_ok() && res.unwrap().holds(msg),
            },
    {
        let signature = match Signature::from_slice(msg.signature.as_slice()) {
            Some(signature) => signature,
            None => {
                return Err(FromUpdateOneofError::InvalidSignatureLength);
            },
        };
        let transaction = match msg.transaction {
            Some(transaction) => transaction,
            None => {
                return Err(FromUpdateOneofError::TransactionMissing);
            },
        };
        let meta = match msg.meta {
            Some(meta) => meta,
            None => {
                return Err(FromUpdateOneofError::MetaMissing);
            },
        };
        Ok(
            MessageTransactionInfo {
                signature,
                is_vote: msg.is_vote,
                transaction,
                meta,
                index: #[verifier::truncate] (msg.index as usize),
                account_keys: Vec::new(),
            },
        )
    }

    /// Computes the account keys from the transaction and its meta. Where a
    /// raw key is no key, the record stays as it is.
    pub fn fill_account_keys(&mut self) -> (res: Result<(), FromUpdateOneofError>)
        ensures
            match old(self).keys_fault() {
                Some(error) => res == Err::<(), FromUpdateOneofError>(error) && *final(self)
                    == *old(self),
                None => {
                    &&& res.is_ok()
                    &&& final(self).account_keys@ == old(self).all_keys()
                    &&& final(self).signature == old(self).signature
                    &&& final(self).is_vote == old(self).is_vote
                    &&& final(self).transaction == old(self).transaction
                    &&& final(self).meta == old(self).meta
                    &&& final(self).index == old(self).index
                },
            },
    {
        let mut account_keys: Vec<Pubkey> = Vec::new();
        match &self.transaction.message {
            Some(message) => {
                match collect_keys(&mut account_keys, &message.account_keys) {
                    Ok(()) => {},
                    Err(error) => {
                        return Err(error);
                    },
                }
            },
            None => {
                assert(first_fault(Seq::<Vec<u8>>::empty(), |key: Vec<u8>| key_fault(key)).is_none());
            },
        }
        match collect_keys(&mut account_keys, &self.meta.loaded_writable_addresses) {
            Ok(()) => {},
            Err(error) => {
                return Err(error);
            },
        }
        match collect_keys(&mut account_keys, &self.meta.loaded_readonly_addresses) {
            Ok(()) => {},
            Err(error) => {
                return Err(error);
            },
        }
        self.account_keys = account_keys;
        Ok(())
    }
}

/// A transaction in a slot.
#[derive(Debug, Clone, PartialEq)]
pub struct MessageTransaction {
    pub transaction: Arc<MessageTransactionInfo>,
    pub slot: u64,
    pub created_at: Timestamp,
}

impl MessageTransaction {
    /// What a wire update lacks to be a transaction message, if anything.
    pub open spec fn fault(msg: SubscribeUpdateTransaction) -> Option<FromUpdateOneofError> {
        match msg.transaction {
            None => Some(FromUpdateOneofError::TransactionMissing),
            Some(transaction) => MessageTransactionInfo::fault(transaction),
        }
    }

    /// The message for a transaction that the upstream source reports,
    /// created now. Its account keys are the keys that the source lists,
    /// each once, in the order in which they first occur.
    pub fn from_geyser(info: &ReplicaTransactionInfo, slot: u64) -> (res: MessageTransaction)
        ensures
            res.transaction.signature == info.signature,
            res.transaction.is_vote == info.is_vote,
            res.transaction.transaction == info.transaction,
            res.transaction.meta == info.meta,
            res.transaction.index == info.index,
            res.transaction.account_keys@ == distinct_keys(info.account_keys@),
            res.slot == slot,
    {
        MessageTransaction {
            transaction: Arc::new(MessageTransactionInfo::from_geyser(info)),
            slot,
            created_at: Timestamp::now(),
        }
    }

    /// The message that a wire update stands for, without its account keys.
    pub fn from_update_oneof(msg: SubscribeUpdateTransaction, created_at: Timestamp) -> (res:
        Result<MessageTransaction, FromUpdateOneofError>)
        ensures
            match MessageTransaction::fault(msg) {
                Some(error) => res == Err::<MessageTransaction, FromUpdateOneofError>(error),
                None => {
                    &&& res.is_ok()
                    &&& res.unwrap().transaction.holds(msg.transaction.unwrap())
                    &&& res.unwrap().slot == msg.slot
                    &&& res.unwrap().created_at == created_at
                },
            },
    {
        let transaction = match msg.transaction {
            Some(transaction) => transaction,
            None => {
                return Err(FromUpdateOneofError::TransactionMissing);
            },
        };
        let transaction = match MessageTransactionInfo::from_update_oneof(transaction) {
            Ok(transaction) => transaction,
            Err(error) => {
                return Err(error);
            },
        };
        Ok(MessageTransaction { transaction: Arc::new(transaction), slot: msg.slot, created_at })
    }
}

/// An entry as the upstream source reports it.
#[derive(Debug, Clone, PartialEq)]
pub struct ReplicaEntryInfo {
    pub slot: u64,
    pub index: usize,
    pub num_hashes: u64,
    pub hash: Vec<u8>,
    pub executed_transaction_count: u64,
    pub starting_transaction_index: usize,
}

/// An entry of a slot.
#[derive(Debug, Clone, Copy, PartialEq)]
pub struct MessageEntry {
    pub slot: u64,
    pub index: usize,
    pub num_hashes: u64,
    pub hash: crate::keys::Hash,
    pub executed_transaction_count: u64,
    pub starting_transaction_index: u64,
    pub created_at: Timestamp,
}

impl MessageEntry {
    /// What a wire update lacks to be an entry, if anything: a hash of 32
    /// bytes.
    pub open spec fn fault(msg: SubscribeUpdateEntry) -> Option<FromUpdateOneofError> {
        if msg.hash@.len() != 32 {
            Some(FromUpdateOneofError::InvalidHashLength)
        } else {
            None
        }
    }

    /// Whether the entry holds what the wire update holds.
    pub open spec fn holds(self, msg: SubscribeUpdateEntry) -> bool {
        &&& self.slot == msg.slot
        &&& self.index == msg.index as usize
        &&& self.num_hashes == msg.num_hashes
        &&& self.hash@ == msg.hash@
        &&& self.executed_transaction_count == msg.executed_transaction_count
        &&& self.starting_transaction_index == msg.starting_transaction_index
    }

    /// The message for an entry that the upstream source reports, created
    /// now.
    pub fn from_geyser(info: &ReplicaEntryInfo) -> (res: MessageEntry)
        requires
            info.hash@.len() == 32,
        ensures
            res.slot == info.slot,
            res.index == info.index,
            res.num_hashes == info.num_hashes,
            res.hash@ == info.hash@,
            res.executed_transaction_count == info.executed_transaction_count,
            res.starting_transaction_index == info.starting_transaction_index,
    {
        let hash = crate::keys::Hash::from_slice(info.hash.as_slice());
        MessageEntry {
            slot: info.slot,
            index: info.index,
            num_hashes: info.num_hashes,
            hash: hash.unwrap(),
            executed_transaction_count: info.executed_transaction_count,
            starting_transaction_index: info.starting_transaction_index as u64,
            created_at: Timestamp::now(),
        }
    }

    /// The message that a wire update stands for.
    pub fn from_update_oneof(msg: &SubscribeUpdateEntry, created_at: Timestamp) -> (res: Result<
        MessageEntry,
        FromUpdateOneofError,
    >)
        ensures
            match MessageEntry::fault(*msg) {
                Some(error) => res == Err::<MessageEntry, FromUpdateOneofError>(error),
                None => res.is_ok() && res.unwrap().holds(*msg) && res.unwrap().created_at
                    == created_at,
            },
    {
        let hash = match crate::keys::Hash::from_slice(msg.hash.as_slice()) {
            Some(hash) => hash,
            None => {
                return Err(FromUpdateOneofError::InvalidHashLength);
            },
        };
        Ok(
            MessageEntry {
                slot: msg.slot,
                index: #[verifier::truncate] (msg.index as usize),
                num_hashes: msg.num_hashes,
                hash,
                executed_transaction_count: msg.executed_transaction_count,
                starting_transaction_index: msg.starting_transaction_index,
                created_at,
            },
        )
    }
}

/// The metadata of a block as the upstream source reports it.
#[derive(Debug, Clone, PartialEq)]
pub struct ReplicaBlockInfo {
    pub parent_slot: u64,
    pub slot: u64,
    pub parent_blockhash: String,
    pub blockhash: String,
    pub rewards: Arc<Rewards>,
    pub block_time: Option<i64>,
    pub block_height: Option<u64>,
    pub executed_transaction_count: u64,
    pub entry_count: u64,
}

/// The metadata of a block.
#[derive(Debug, Clone, PartialEq)]
pub struct MessageBlockMeta {
    pub block_meta: SubscribeUpdateBlockMeta,
    pub created_at: Timestamp,
}

impl MessageBlockMeta {
    /// The message for a block that the upstream source reports, created
    /// now.
    pub fn from_geyser(info: &ReplicaBlockInfo) -> (res: MessageBlockMeta)
        ensures
            res.block_meta.parent_slot == info.parent_slot,
            res.block_meta.slot == info.slot,
            res.block_meta.parent_blockhash == info.parent_blockhash,
            res.block_meta.blockhash == info.blockhash,
            res.block_meta.rewards == Some(info.rewards),
            res.block_meta.block_time == match info.block_time {
                Some(timestamp) => Some(UnixTimestamp { timestamp }),
                None => None,
            },
            res.block_meta.block_height == match info.block_height {
                Some(block_height) => Some(BlockHeight { block_height }),
                None => None,
            },
            res.block_meta.executed_transaction_count == info.executed_transaction_count,
            res.block_meta.entries_count == info.entry_count,
    {
        let block_time = match info.block_time {
            Some(timestamp) => Some(UnixTimestamp { timestamp }),
            None => None,
        };
        let block_height = match info.block_height {
            Some(block_height) => Some(BlockHeight { block_height }),
            None => None,
        };
        MessageBlockMeta {
            block_meta: SubscribeUpdateBlockMeta {
                parent_slot: info.parent_slot,
                slot: info.slot,
                parent_blockhash: info.parent_blockhash.clone(),
                blockhash: info.blockhash.clone(),
                rewards: Some(crate::shared::share(&info.rewards)),
                block_time,
                block_height,
                executed_transaction_count: info.executed_transaction_count,
                entries_count: info.entry_count,
            },
            created_at: Timestamp::now(),
        }
    }

    /// The message that a wire update stands for.
    pub fn from_update_oneof(block_meta: SubscribeUpdateBlockMeta, created_at: Timestamp) -> (res:
        MessageBlockMeta)
        ensures
            res.block_meta == block_meta,
            res.created_at == created_at,
    {
        MessageBlockMeta { block_meta, created_at }
    }
}

/// A block with its transactions, account writes and entries.
#[derive(Debug, Clone, PartialEq)]
pub struct MessageBlock {
    pub meta: Arc<MessageBlockMeta>,
    pub transactions: Vec<Arc<MessageTransactionInfo>>,
    pub updated_account_count: u64,
    pub accounts: Vec<Arc<MessageAccountInfo>>,
    pub entries: Vec<Arc<MessageEntry>>,
    pub created_at: Timestamp,
}

impl MessageBlock {
    /// What a wire update lacks to be a block, if anything: the first fault
    /// among its transactions, then its accounts, then its entries.
    pub open spec fn fault(msg: SubscribeUpdateBlock) -> Option<FromUpdateOneofError> {
        match first_fault(
            msg.transactions@,
            |item: SubscribeUpdateTransactionInfo| MessageTransactionInfo::fault(item),
        ) {
            Some(error) => Some(error),
            None => match first_fault(
                msg.accounts@,
                |item: SubscribeUpdateAccountInfo| MessageAccountInfo::fault(item),
            ) {
                Some(error) => Some(error),
                None => first_fault(
                    msg.entries@,
                    |item: SubscribeUpdateEntry| MessageEntry::fault(item),
                ),
            },
        }
    }

    /// Whether the block holds what the wire update holds.
    pub open spec fn holds(self, msg: SubscribeUpdateBlock, created_at: Timestamp) -> bool {
        &&& self.meta.block_meta.slot == msg.slot
        &&& self.meta.block_meta.blockhash == msg.blockhash
        &&& self.meta.block_meta.rewards == msg.rewards
        &&& self.meta.block_meta.block_time == msg.block_time
        &&& self.meta.block_meta.block_height == msg.block_height
        &&& self.meta.block_meta.parent_slot == msg.parent_slot
        &&& self.meta.block_meta.parent_blockhash == msg.parent_blockhash
        &&& self.meta.block_meta.executed_transaction_count == msg.executed_transaction_count
        &&& self.meta.block_meta.entries_count == msg.entries_count
        &&& self.meta.created_at == created_at
        &&& self.updated_account_count == msg.updated_account_count
        &&& self.created_at == created_at
        &&& self.transactions@.len() == msg.transactions@.len()
        &&& forall|i: int|
            0 <= i < self.transactions@.len() ==> (#[trigger] self.transactions@[i]).holds(
                msg.transactions@[i],
            )
        &&& self.accounts@.len() == msg.accounts@.len()
        &&& forall|i: int|
            0 <= i < self.accounts@.len() ==> (#[trigger] self.accounts@[i]).holds(msg.accounts@[i])
        &&& self.entries@.len() == msg.entries@.len()
        &&& forall|i: int|
            0 <= i < self.entries@.len() ==> (#[trigger] self.entries@[i]).holds(msg.entries@[i])
                && self.entries@[i].created_at == created_at
    }

    /// A block made of its parts, created now. It counts the account writes
    /// that it is given.
    pub fn new(
        meta: Arc<MessageBlockMeta>,
        transactions: Vec<Arc<MessageTransactionInfo>>,
        accounts: Vec<Arc<MessageAccountInfo>>,
        entries: Vec<Arc<MessageEntry>>,
    ) -> (res: MessageBlock)
        ensures
            res.meta == meta,
            res.transactions == transactions,
            res.updated_account_count == accounts@.len(),
            res.accounts == accounts,
            res.entries == entries,
    {
        MessageBlock {
            meta,
            transactions,
            updated_account_count: accounts.len() as u64,
            accounts,
            entries,
            created_at: Timestamp::now(),
        }
    }

    /// The block that a wire update stands for, its transactions without
    /// their account keys.
    pub fn from_update_oneof(msg: SubscribeUpdateBlock, created_at: Timestamp) -> (res: Result<
        MessageBlock,
        FromUpdateOneofError,
    >)
        ensures
            match MessageBlock::fault(msg) {
                Some(error) => res == Err::<MessageBlock, FromUpdateOneofError>(error),
                None => res.is_ok() && res.unwrap().holds(msg, created_at),
            },
    {
        let ghost tx_fault = |item: SubscribeUpdateTransactionInfo|
            MessageTransactionInfo::fault(item);
        let ghost account_fault = |item: SubscribeUpdateAccountInfo|
            MessageAccountInfo::fault(item);
        let ghost entry_fault = |item: SubscribeUpdateEntry| MessageEntry::fault(item);
        let ghost wire_transactions = msg.transactions@;
        let ghost wire_accounts = msg.accounts@;
        let ghost wire_entries = msg.entries@;

        let mut transactions: Vec<Arc<MessageTransactionInfo>> = Vec::new();
        assert(wire_transactions.take(0) =~= Seq::empty());
        for item in it: msg.transactions.into_iter()
            invariant
                it.seq() == wire_transactions,
                tx_fault == |item: SubscribeUpdateTransactionInfo|
                    MessageTransactionInfo::fault(item),
                transactions@.len() == it.index(),
                first_fault(wire_transactions.take(it.index() as int), tx_fault).is_none(),
                forall|j: int|
                    0 <= j < it.index() ==> (#[trigger] transactions@[j]).holds(
                        wire_transactions[j],
                    ),
        {
            proof {
                lemma_first_fault_step(wire_transactions, tx_fault, it.index() as int);
            }
            match MessageTransactionInfo::from_update_oneof(item) {
                Ok(transaction) => {
                    transactions.push(Arc::new(transaction));
                },
                Err(error) => {
                    proof {
                        lemma_first_fault_prefix(wire_transactions, tx_fault, it.index() + 1);
                    }
                    return Err(error);
                },
            }
        }
        assert(wire_transactions.take(wire_transactions.len() as int) =~= wire_transactions);

        let mut accounts: Vec<Arc<MessageAccountInfo>> = Vec::new();
        assert(wire_accounts.take(0) =~= Seq::empty());
        for item in it: msg.accounts.into_iter()
            invariant
                it.seq() == wire_accounts,
                wire_accounts == msg.accounts@,
                wire_transactions == msg.transactions@,
                account_fault == |item: SubscribeUpdateAccountInfo|
                    MessageAccountInfo::fault(item),
                tx_fault == |item: SubscribeUpdateTransactionInfo|
                    MessageTransactionInfo::fault(item),
                first_fault(wire_transactions, tx_fault).is_none(),
                accounts@.len() == it.index(),
                first_fault(wire_accounts.take(it.index() as int), account_fault).is_none(),
                forall|j: int|
                    0 <= j < it.index() ==> (#[trigger] accounts@[j]).holds(wire_accounts[j]),
        {
            proof {
                lemma_first_fault_step(wire_accounts, account_fault, it.index() as int);
            }
            match MessageAccountInfo::from_update_oneof(item) {
                Ok(account) => {
                    accounts.push(Arc::new(account));
                },
                Err(error) => {
                    proof {
                        lemma_first_fault_prefix(wire_accounts, account_fault, it.index() + 1);
                    }
                    return Err(error);
                },
            }
        }
        assert(wire_accounts.take(wire_accounts.len() as int) =~= wire_accounts);

        let mut entries: Vec<Arc<MessageEntry>> = Vec::new();
        let mut i: usize = 0;
        assert(wire_entries.take(0) =~= Seq::empty());
        while i < msg.entries.len()
            invariant
                i <= msg.entries.len(),
                msg.entries@ == wire_entries,
                wire_accounts == msg.accounts@,
                wire_transactions == msg.transactions@,
                entry_fault == |item: SubscribeUpdateEntry| MessageEntry::fault(item),
                account_fault == |item: SubscribeUpdateAccountInfo|
                    MessageAccountInfo::fault(item),
                tx_fault == |item: SubscribeUpdateTransactionInfo|
                    MessageTransactionInfo::fault(item),
                first_fault(wire_transactions, tx_fault).is_none(),
                first_fault(wire_accounts, account_fault).is_none(),
                entries@.len() == i,
                first_fault(wire_entries.take(i as int), entry_fault).is_none(),
                forall|j: int|
                    0 <= j < i ==> (#[trigger] entries@[j]).holds(wire_entries[j])
                        && entries@[j].created_at == created_at,
            decreases msg.entries.len() - i,
        {
            proof {
                lemma_first_fault_step(wire_entries, entry_fault, i as int);
            }
            match MessageEntry::from_update_oneof(&msg.entries[i], created_at) {
                Ok(entry) => {
                    entries.push(Arc::new(entry));
                },
                Err(error) => {
                    proof {
                        lemma_first_fault_prefix(wire_entries, entry_fault, i + 1);
                    }
                    return Err(error);
                },
            }
            i += 1;
        }
        assert(wire_entries.take(i as int) =~= wire_entries);

        Ok(
            MessageBlock {
                meta: Arc::new(
                    MessageBlockMeta {
                        block_meta: SubscribeUpdateBlockMeta {
                            slot: msg.slot,
                            blockhash: msg.blockhash,
                            rewards: msg.rewards,
                            block_time: msg.block_time,
                            block_height: msg.block_height,
                            parent_slot: msg.parent_slot,
                            parent_blockhash: msg.parent_blockhash,
                            executed_transaction_count: msg.executed_transaction_count,
                            entries_count: msg.entries_count,
                        },
                        created_at,
                    },
                ),
                transactions,
                updated_account_count: msg.updated_account_count,
                accounts,
                entries,
                created_at,
            },
        )
    }
}

/// A record of the upstream feed.
#[derive(Debug, Clone, PartialEq)]
pub enum Message {
    Slot(MessageSlot),
    Account(MessageAccount),
    Transaction(MessageTransaction),
    Entry(Arc<MessageEntry>),
    BlockMeta(Arc<MessageBlockMeta>),
    Block(Arc<MessageBlock>),
}

impl Message {
    /// The slot that the record belongs to.
    pub open spec fn slot(self) -> u64 {
        match self {
            Message::Slot(msg) => msg.slot,
            Message::Account(msg) => msg.slot,
            Message::Transaction(msg) => msg.slot,
            Message::Entry(msg) => msg.slot,
            Message::BlockMeta(msg) => msg.block_meta.slot,
            Message::Block(msg) => msg.meta.block_meta.slot,
        }
    }

    /// What a wire update lacks to be a record, if anything. Pings, pongs
    /// and transaction statuses are no records.
    pub open spec fn fault(oneof: UpdateOneof) -> Option<FromUpdateOneofError> {
        match oneof {
            UpdateOneof::Account(msg) => MessageAccount::fault(msg),
            UpdateOneof::Slot(msg) => if 0 <= msg.status <= 6 {
                None
            } else {
                Some(FromUpdateOneofError::InvalidCommitmentLevel)
            },
            UpdateOneof::Transaction(msg) => MessageTransaction::fault(msg),
            UpdateOneof::TransactionStatus(_) => Some(
                FromUpdateOneofError::TransactionStatusNotSupported,
            ),
            UpdateOneof::Block(msg) => MessageBlock::fault(msg),
            UpdateOneof::Ping(_) => Some(FromUpdateOneofError::PingNotSupported),
            UpdateOneof::Pong(_) => Some(FromUpdateOneofError::PongNotSupported),
            UpdateOneof::BlockMeta(_) => None,
            UpdateOneof::Entry(msg) => MessageEntry::fault(msg),
        }
    }

    /// Whether the record holds what the wire update holds.
    pub open spec fn holds(self, oneof: UpdateOneof, created_at: Timestamp) -> bool {
        match oneof {
            UpdateOneof::Account(msg) => {
                &&& self matches Message::Account(message)
                &&& message.account.holds(msg.account.unwrap())
                &&& message.slot == msg.slot
                &&& message.is_startup == msg.is_startup
                &&& message.created_at == created_at
            },
            UpdateOneof::Slot(msg) => {
                &&& self matches Message::Slot(message)
                &&& message.slot == msg.slot
                &&& message.parent == msg.parent
                &&& message.status.code() == msg.status
                &&& message.dead_error == msg.dead_error
                &&& message.created_at == created_at
            },
            UpdateOneof::Transaction(msg) => {
                &&& self matches Message::Transaction(message)
                &&& message.transaction.holds(msg.transaction.unwrap())
                &&& message.slot == msg.slot
                &&& message.created_at == created_at
            },
            UpdateOneof::Block(msg) => {
                &&& self matches Message::Block(message)
                &&& message.holds(msg, created_at)
            },
            UpdateOneof::BlockMeta(msg) => {
                &&& self matches Message::BlockMeta(message)
                &&& message.block_meta == msg
                &&& message.created_at == created_at
            },
            UpdateOneof::Entry(msg) => {
                &&& self matches Message::Entry(message)
                &&& message.holds(msg)
                &&& message.created_at == created_at
            },
            _ => false,
        }
    }

    /// The slot that the record belongs to.
    pub fn get_slot(&self) -> (slot: u64)
        ensures
            slot == self.slot(),
    {
        match self {
            Message::Slot(msg) => msg.slot,
            Message::Account(msg) => msg.slot,
            Message::Transaction(msg) => msg.slot,
            Message::Entry(msg) => msg.slot,
            Message::BlockMeta(msg) => msg.block_meta.slot,
            Message::Block(msg) => msg.meta.block_meta.slot,
        }
    }

    /// The record that a wire update stands for.
    pub fn from_update_oneof(oneof: UpdateOneof, created_at: Timestamp) -> (res: Result<
        Message,
        FromUpdateOneofError,
    >)
        ensures
            match Message::fault(oneof) {
                Some(error) => res == Err::<Message, FromUpdateOneofError>(error),
                None => res.is_ok() && res.unwrap().holds(oneof, created_at),
            },
    {
        match oneof {
            UpdateOneof::Account(msg) => match MessageAccount::from_update_oneof(msg, created_at) {
                Ok(message) => Ok(Message::Account(message)),
                Err(error) => Err(error),
            },
            UpdateOneof::Slot(msg) => match MessageSlot::from_update_oneof(&msg, created_at) {
                Ok(message) => Ok(Message::Slot(message)),
                Err(error) => Err(error),
            },
            UpdateOneof::Transaction(msg) => match MessageTransaction::from_update_oneof(
                msg,
                created_at,
            ) {
                Ok(message) => Ok(Message::Transaction(message)),
                Err(error) => Err(error),
            },
            UpdateOneof::TransactionStatus(_) => Err(
                FromUpdateOneofError::TransactionStatusNotSupported,
            ),
            UpdateOneof::Block(msg) => match MessageBlock::from_update_oneof(msg, created_at) {
                Ok(message) => Ok(Message::Block(Arc::new(message))),
                Err(error) => Err(error),
            },
            UpdateOneof::Ping(_) => Err(FromUpdateOneofError::PingNotSupported),
            UpdateOneof::Pong(_) => Err(FromUpdateOneofError::PongNotSupported),
            UpdateOneof::BlockMeta(msg) => Ok(
                Message::BlockMeta(Arc::new(MessageBlockMeta::from_update_oneof(msg, created_at))),
            ),
            UpdateOneof::Entry(msg) => match MessageEntry::from_update_oneof(&msg, created_at) {
                Ok(message) => Ok(Message::Entry(Arc::new(message))),
                Err(error) => Err(error),
            },
        }
    }
}

} // verus!
