//! Fixed-width keys: 32-byte public keys and 64-byte signatures, with their
//! base58 text form.

use std::str::FromStr;
use vstd::prelude::*;

verus! {

/// A 32-byte account address.
#[derive(Clone, Copy, Debug, Eq, Hash)]
pub struct Pubkey {
    pub bytes: [u8; 32],
}

/// A 64-byte transaction signature.
#[derive(Clone, Copy, Debug, Eq, Hash)]
pub struct Signature {
    pub bytes: [u8; 64],
}

/// A 32-byte hash.
#[derive(Clone, Copy, Debug, PartialEq, Eq, Hash)]
pub struct Hash {
    pub bytes: [u8; 32],
}

impl View for Hash {
    type V = Seq<u8>;

    open spec fn view(&self) -> Seq<u8> {
        self.bytes@
    }
}

impl Hash {
    /// The hash held in `bytes`, where there are exactly 32 of them.
    pub fn from_slice(bytes: &[u8]) -> (res: Option<Hash>)
        ensures
            res.is_some() == (bytes@.len() == 32),
            res matches Some(hash) ==> hash@ == bytes@,
    {
        match Pubkey::from_slice(bytes) {
            Some(key) => Some(Hash { bytes: key.bytes }),
            None => None,
        }
    }

    /// The hash's bytes as a vector.
    pub fn to_vec(&self) -> (out: Vec<u8>)
        ensures
            out@ == self@,
    {
        Pubkey { bytes: self.bytes }.to_vec()
    }
}

/// Why a text is not the base58 form of a key or a signature.
#[derive(Clone, Copy, Debug, PartialEq, Eq, Structural)]
pub enum ParseKeyError {
    /// The text stands for more or fewer bytes than the key has.
    WrongSize,
    /// The text holds a character outside the base58 alphabet.
    Invalid,
}

/// The 32 bytes that `solana_sdk::pubkey::Pubkey::from_str` reads out of a
/// text, or the reason for which it rejects the text.
pub uninterp spec fn pubkey_from_text(text: Seq<char>) -> Result<Seq<u8>, ParseKeyError>;

/// The 64 bytes that `solana_sdk::signature::Signature::from_str` reads out
/// of a text, or the reason for which it rejects the text.
pub uninterp spec fn signature_from_text(text: Seq<char>) -> Result<Seq<u8>, ParseKeyError>;

/// Whether two byte sequences agree on their first `n` positions.
pub open spec fn same_prefix(a: Seq<u8>, b: Seq<u8>, n: int) -> bool {
    forall|i: int| 0 <= i < n ==> a[i] == b[i]
}

impl View for Pubkey {
    type V = Seq<u8>;

    open spec fn view(&self) -> Seq<u8> {
        self.bytes@
    }
}

impl View for Signature {
    type V = Seq<u8>;

    open spec fn view(&self) -> Seq<u8> {
        self.bytes@
    }
}

impl Pubkey {
    /// The key made of the given bytes.
    pub fn new_from_array(bytes: [u8; 32]) -> (key: Pubkey)
        ensures
            key.bytes == bytes,
    {
        Pubkey { bytes }
    }

    /// The key's bytes.
    pub fn to_bytes(&self) -> (bytes: [u8; 32])
        ensures
            bytes == self.bytes,
    {
        self.bytes
    }

    /// Two keys are the same key exactly when their byte views agree.
    pub proof fn lemma_view_injective(a: Pubkey, b: Pubkey)
        ensures
            (a@ == b@) <==> (a == b),
    {
        if a@ == b@ {
            assert(a.bytes =~= b.bytes);
        }
    }

    /// Reads a key out of its base58 text.
    ///
    /// Calls `solana_sdk::pubkey::Pubkey::from_str`. The contract claims only
    /// that the outcome is the one that [`pubkey_from_text`] names for this
    /// text: the key's bytes, or the outside error's variant.
    #[verifier::external_body]
    pub(crate) fn parse(text: &str) -> (res: Result<Pubkey, ParseKeyError>)
        ensures
            match res {
                Ok(key) => pubkey_from_text(text@) == Ok::<Seq<u8>, ParseKeyError>(key@),
                Err(error) => pubkey_from_text(text@) == Err::<Seq<u8>, ParseKeyError>(error),
            },
    {
        match solana_sdk::pubkey::Pubkey::from_str(text) {
            Ok(key) => Ok(Pubkey { bytes: key.to_bytes() }),
            Err(solana_sdk::pubkey::ParsePubkeyError::WrongSize) => Err(ParseKeyError::WrongSize),
            Err(solana_sdk::pubkey::ParsePubkeyError::Invalid) => Err(ParseKeyError::Invalid),
        }
    }

    /// The key held in `bytes`, where there are exactly 32 of them.
    pub fn from_slice(bytes: &[u8]) -> (res: Option<Pubkey>)
        ensures
            res.is_some() == (bytes@.len() == 32),
            res matches Some(key) ==> key@ == bytes@,
    {
        if bytes.len() != 32 {
            return None;
        }
        let mut out: [u8; 32] = [0u8; 32];
        let mut i: usize = 0;
        while i < 32
            invariant
                i <= 32,
                bytes@.len() == 32,
                same_prefix(out@, bytes@, i as int),
            decreases 32 - i,
        {
            out[i] = bytes[i];
            i += 1;
        }
        assert(out@ =~= bytes@);
        Some(Pubkey { bytes: out })
    }

    /// The key's bytes as a vector.
    pub fn to_vec(&self) -> (out: Vec<u8>)
        ensures
            out@ == self@,
    {
        let mut out: Vec<u8> = Vec::new();
        let mut i: usize = 0;
        while i < 32
            invariant
                i <= 32,
                out@.len() == i,
                same_prefix(out@, self.bytes@, i as int),
            decreases 32 - i,
        {
            out.push(self.bytes[i]);
            i += 1;
        }
        assert(out@ =~= self.bytes@);
        out
    }
}

impl PartialEq for Pubkey {
    fn eq(&self, other: &Pubkey) -> (r: bool) {
        let mut i: usize = 0;
        while i < 32
            invariant
                i <= 32,
                same_prefix(self.bytes@, other.bytes@, i as int),
            decreases 32 - i,
        {
            if self.bytes[i] != other.bytes[i] {
                return false;
            }
            i += 1;
        }
        assert(self.bytes =~= other.bytes);
        true
    }
}

impl vstd::std_specs::cmp::PartialEqSpecImpl for Pubkey {
    open spec fn obeys_eq_spec() -> bool {
        true
    }

    open spec fn eq_spec(&self, other: &Pubkey) -> bool {
        *self == *other
    }
}

impl Signature {
    /// The signature made of the given bytes.
    pub fn new_from_array(bytes: [u8; 64]) -> (signature: Signature)
        ensures
            signature.bytes == bytes,
    {
        Signature { bytes }
    }

    /// Two signatures are the same exactly when their byte views agree.
    pub proof fn lemma_view_injective(a: Signature, b: Signature)
        ensures
            (a@ == b@) <==> (a == b),
    {
        if a@ == b@ {
            assert(a.bytes =~= b.bytes);
        }
    }

    /// Reads a signature out of its base58 text.
    ///
    /// Calls `solana_sdk::signature::Signature::from_str`. The contract
    /// claims only that the outcome is the one that [`signature_from_text`]
    /// names for this text: the signature's bytes, or the outside error's
    /// variant.
    #[verifier::external_body]
    pub(crate) fn parse(text: &str) -> (res: Result<Signature, ParseKeyError>)
        ensures
            match res {
                Ok(signature) => signature_from_text(text@) == Ok::<Seq<u8>, ParseKeyError>(
                    signature@,
                ),
                Err(error) => signature_from_text(text@) == Err::<Seq<u8>, ParseKeyError>(error),
            },
    {
        match solana_sdk::signature::Signature::from_str(text) {
            Ok(signature) => Ok(Signature { bytes: signature.into() }),
            Err(solana_sdk::signature::ParseSignatureError::WrongSize) => Err(
                ParseKeyError::WrongSize,
            ),
            Err(solana_sdk::signature::ParseSignatureError::Invalid) => Err(ParseKeyError::Invalid),
        }
    }

    /// The signature held in `bytes`, where there are exactly 64 of them.
    pub fn from_slice(bytes: &[u8]) -> (res: Option<Signature>)
        ensures
            res.is_some() == (bytes@.len() == 64),
            res matches Some(signature) ==> signature@ == bytes@,
    {
        if bytes.len() != 64 {
            return None;
        }
        let mut out: [u8; 64] = [0u8; 64];
        let mut i: usize = 0;
        while i < 64
            invariant
                i <= 64,
                bytes@.len() == 64,
                same_prefix(out@, bytes@, i as int),
            decreases 64 - i,
        {
            out[i] = bytes[i];
            i += 1;
        }
        assert(out@ =~= bytes@);
        Some(Signature { bytes: out })
    }

    /// The signature's bytes as a vector.
    pub fn to_vec(&self) -> (out: Vec<u8>)
        ensures
            out@ == self@,
    {
        let mut out: Vec<u8> = Vec::new();
        let mut i: usize = 0;
        while i < 64
            invariant
                i <= 64,
                out@.len() == i,
                same_prefix(out@, self.bytes@, i as int),
            decreases 64 - i,
        {
            out.push(self.bytes[i]);
            i += 1;
        }
        assert(out@ =~= self.bytes@);
        out
    }

    /// Whether the signature's bytes are exactly `bytes`.
    pub fn matches_bytes(&self, bytes: &[u8]) -> (r: bool)
        ensures
            r == (self@ == bytes@),
    {
        if bytes.len() != 64 {
            return false;
        }
        let mut i: usize = 0;
        while i < 64
            invariant
                i <= 64,
                bytes@.len() == 64,
                same_prefix(self.bytes@, bytes@, i as int),
            decreases 64 - i,
        {
            if self.bytes[i] != bytes[i] {
                return false;
            }
            i += 1;
        }
        assert(self.bytes@ =~= bytes@);
        true
    }
}

impl PartialEq for Signature {
    fn eq(&self, other: &Signature) -> (r: bool) {
        let mut i: usize = 0;
        while i < 64
            invariant
                i <= 64,
                same_prefix(self.bytes@, other.bytes@, i as int),
            decreases 64 - i,
        {
            if self.bytes[i] != other.bytes[i] {
                return false;
            }
            i += 1;
        }
        assert(self.bytes =~= other.bytes);
        true
    }
}

impl vstd::std_specs::cmp::PartialEqSpecImpl for Signature {
    open spec fn obeys_eq_spec() -> bool {
        true
    }

    open spec fn eq_spec(&self, other: &Signature) -> bool {
        *self == *other
    }
}

/// Whether some key occurs in both lists.
pub open spec fn keys_intersect(a: Seq<Pubkey>, b: Seq<Pubkey>) -> bool {
    exists|key: Pubkey| a.contains(key) && b.contains(key)
}

/// Whether every key of `a` occurs in `b`.
pub open spec fn keys_subset(a: Seq<Pubkey>, b: Seq<Pubkey>) -> bool {
    forall|key: Pubkey| a.contains(key) ==> b.contains(key)
}

/// Whether `key` occurs in `keys`.
pub fn contains_key(keys: &Vec<Pubkey>, key: &Pubkey) -> (found: bool)
    ensures
        found == keys@.contains(*key),
{
    let mut i: usize = 0;
    while i < keys.len()
        invariant
            i <= keys.len(),
            forall|j: int| 0 <= j < i ==> keys@[j] != *key,
        decreases keys.len() - i,
    {
        if keys[i] == *key {
            return true;
        }
        i += 1;
    }
    false
}

/// Whether the two lists share a key.
pub fn intersects(a: &Vec<Pubkey>, b: &Vec<Pubkey>) -> (found: bool)
    ensures
        found == keys_intersect(a@, b@),
{
    let mut i: usize = 0;
    while i < a.len()
        invariant
            i <= a.len(),
            forall|j: int| 0 <= j < i ==> !b@.contains(#[trigger] a@[j]),
        decreases a.len() - i,
    {
        if contains_key(b, &a[i]) {
            assert(a@.contains(a@[i as int]));
            return true;
        }
        i += 1;
    }
    false
}

/// Whether every key of `a` occurs in `b`.
pub fn is_subset(a: &Vec<Pubkey>, b: &Vec<Pubkey>) -> (all: bool)
    ensures
        all == keys_subset(a@, b@),
{
    let mut i: usize = 0;
    while i < a.len()
        invariant
            i <= a.len(),
            forall|j: int| 0 <= j < i ==> b@.contains(#[trigger] a@[j]),
        decreases a.len() - i,
    {
        if !contains_key(b, &a[i]) {
            assert(a@.contains(a@[i as int]));
            return false;
        }
        i += 1;
    }
    true
}

/// Whether no key occurs twice.
pub open spec fn keys_differ(keys: Seq<Pubkey>) -> bool {
    forall|i: int, j: int| 0 <= i < j < keys.len() ==> keys[i] != keys[j]
}

/// The keys with one more, unless they hold it already.
pub open spec fn with_key(keys: Seq<Pubkey>, key: Pubkey) -> Seq<Pubkey> {
    if keys.contains(key) {
        keys
    } else {
        keys.push(key)
    }
}

/// The keys of a list, each once, in the order in which they first occur.
pub open spec fn distinct_keys(keys: Seq<Pubkey>) -> Seq<Pubkey>
    decreases keys.len(),
{
    if keys.len() == 0 {
        Seq::empty()
    } else {
        with_key(distinct_keys(keys.drop_last()), keys.last())
    }
}

/// Adding a key once keeps the keys apart, and adds that key and no other.
pub proof fn lemma_with_key(keys: Seq<Pubkey>, key: Pubkey)
    ensures
        keys_differ(keys) ==> keys_differ(with_key(keys, key)),
        forall|wanted: Pubkey| #[trigger]
            with_key(keys, key).contains(wanted) <==> (keys.contains(wanted) || wanted == key),
{
    let added = with_key(keys, key);
    if keys_differ(keys) && !keys.contains(key) {
        assert forall|i: int, j: int| 0 <= i < j < added.len() implies added[i] != added[j] by {
            if j < keys.len() {
                assert(keys[i] != keys[j]);
            } else {
                assert(keys.contains(keys[i]));
            }
        }
    }
    assert forall|wanted: Pubkey| #[trigger]
        added.contains(wanted) <==> (keys.contains(wanted) || wanted == key) by {
        if keys.contains(key) {
        } else {
            if keys.contains(wanted) {
                let i = choose|i: int| 0 <= i < keys.len() && keys[i] == wanted;
                assert(added[i] == wanted);
            }
            if wanted == key {
                assert(added[keys.len() as int] == wanted);
            }
            if added.contains(wanted) {
                let i = choose|i: int| 0 <= i < added.len() && added[i] == wanted;
                if i < keys.len() {
                    assert(keys[i] == wanted);
                }
            }
        }
    }
}

/// The distinct keys of a list are the keys of the list, and no key occurs
/// twice among them.
pub proof fn lemma_distinct_keys(keys: Seq<Pubkey>)
    ensures
        keys_differ(distinct_keys(keys)),
        forall|wanted: Pubkey| #[trigger]
            distinct_keys(keys).contains(wanted) <==> keys.contains(wanted),
    decreases keys.len(),
{
    if keys.len() > 0 {
        let rest = keys.drop_last();
        lemma_distinct_keys(rest);
        lemma_with_key(distinct_keys(rest), keys.last());
        assert forall|wanted: Pubkey| #[trigger]
            distinct_keys(keys).contains(wanted) <==> keys.contains(wanted) by {
            assert(with_key(distinct_keys(rest), keys.last()).contains(wanted) <==> (distinct_keys(
                rest,
            ).contains(wanted) || wanted == keys.last()));
            assert(distinct_keys(rest).contains(wanted) <==> rest.contains(wanted));
            if rest.contains(wanted) {
                let i = choose|i: int| 0 <= i < rest.len() && rest[i] == wanted;
                assert(keys[i] == wanted);
            }
            if wanted == keys.last() {
                assert(keys[keys.len() - 1] == wanted);
            }
            if keys.contains(wanted) {
                let i = choose|i: int| 0 <= i < keys.len() && keys[i] == wanted;
                if i < rest.len() {
                    assert(rest[i] == wanted);
                }
            }
        }
    }
}

/// Adds a key to a list, unless the list holds it already.
pub fn push_key(keys: &mut Vec<Pubkey>, key: Pubkey)
    ensures
        final(keys)@ == with_key(old(keys)@, key),
{
    if !contains_key(keys, &key) {
        keys.push(key);
    }
}

/// The keys of a list, each once, in the order in which they first occur.
pub fn distinct(keys: &Vec<Pubkey>) -> (res: Vec<Pubkey>)
    ensures
        res@ == distinct_keys(keys@),
{
    let mut res: Vec<Pubkey> = Vec::new();
    let mut i: usize = 0;
    assert(keys@.take(0) =~= Seq::<Pubkey>::empty());
    while i < keys.len()
        invariant
            i <= keys.len(),
            res@ == distinct_keys(keys@.take(i as int)),
        decreases keys.len() - i,
    {
        assert(keys@.take(i + 1).drop_last() =~= keys@.take(i as int));
        push_key(&mut res, keys[i]);
        i += 1;
    }
    assert(keys@.take(i as int) =~= keys@);
    res
}

} // verus!
