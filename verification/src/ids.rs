//! Fixed-width identifiers: account ids and block hashes.

use solana_sdk::pubkey::Pubkey;
use std::str::FromStr;
use vstd::prelude::*;
use vstd::std_specs::cmp::PartialEqSpecImpl;

verus! {

/// A 32-byte account identifier.
#[derive(Clone, Copy, Debug, Hash)]
pub struct AccountId {
    pub bytes: [u8; 32],
}

impl View for AccountId {
    type V = Seq<u8>;

    open spec fn view(&self) -> Seq<u8> {
        self.bytes@
    }
}

impl PartialEq for AccountId {
    fn eq(&self, other: &AccountId) -> (r: bool) {
        let mut i: usize = 0;
        while i < 32
            invariant
                i <= 32,
                forall|j: int| 0 <= j < i ==> self.bytes[j] == other.bytes[j],
            decreases 32 - i,
        {
            if self.bytes[i] != other.bytes[i] {
                return false;
            }
            i += 1;
        }
        assert(self.bytes =~= other.bytes);
        true
    }
}

impl Eq for AccountId {
}

impl PartialEqSpecImpl for AccountId {
    open spec fn obeys_eq_spec() -> bool {
        true
    }

    open spec fn eq_spec(&self, other: &AccountId) -> bool {
        *self == *other
    }
}

/// The account id that a base58 string stands for, where it stands for one.
pub uninterp spec fn pubkey_from_str(s: Seq<char>) -> Option<AccountId>;

/// Decodes a base58 string with `Pubkey::from_str`. The result is what that
/// function yields for the string: the 32 decoded bytes, or nothing where it
/// reports an error.
#[verifier::external_body]
pub(crate) fn parse_account_id(s: &str) -> (r: Option<AccountId>)
    ensures
        r == pubkey_from_str(s@),
{
    match Pubkey::from_str(s) {
        Ok(key) => Some(AccountId { bytes: key.to_bytes() }),
        Err(_) => None,
    }
}

/// Tells whether `id` is among `ids`.
pub fn contains_id(ids: &Vec<AccountId>, id: &AccountId) -> (found: bool)
    ensures
        found == ids@.contains(*id),
{
    let mut n: usize = 0;
    while n < ids.len()
        invariant
            n <= ids.len(),
            forall|k: int| 0 <= k < n ==> ids@[k] != *id,
        decreases ids.len() - n,
    {
        if ids[n] == *id {
            return true;
        }
        n += 1;
    }
    false
}

/// Lists each id of `ids` once.
pub(crate) fn distinct_ids(ids: &Vec<AccountId>) -> (distinct: Vec<AccountId>)
    ensures
        distinct@.no_duplicates(),
        distinct@.to_set() == ids@.to_set(),
{
    let mut distinct: Vec<AccountId> = Vec::new();
    let mut n: usize = 0;
    while n < ids.len()
        invariant
            n <= ids.len(),
            distinct@.no_duplicates(),
            distinct@.to_set() == ids@.take(n as int).to_set(),
        decreases ids.len() - n,
    {
        let id = ids[n];
        let ghost before = distinct@;
        proof {
            assert(ids@.take(n + 1) =~= ids@.take(n as int).push(id));
            ids@.take(n as int).lemma_push_to_set_commute(id);
        }
        if !contains_id(&distinct, &id) {
            distinct.push(id);
            proof {
                before.lemma_push_to_set_commute(id);
            }
        }
        n += 1;
    }
    assert(ids@.take(n as int) =~= ids@);
    distinct
}

/// A recent block hash, as a transaction carries it.
#[derive(Clone, Copy, Debug, PartialEq, Eq)]
pub struct Blockhash {
    pub bytes: [u8; 32],
}

impl View for Blockhash {
    type V = Seq<u8>;

    open spec fn view(&self) -> Seq<u8> {
        self.bytes@
    }
}

/// A 64-byte transaction signature.
#[derive(Clone, Copy, Debug, PartialEq, Eq)]
pub struct Signature {
    pub bytes: [u8; 64],
}

impl View for Signature {
    type V = Seq<u8>;

    open spec fn view(&self) -> Seq<u8> {
        self.bytes@
    }
}

} // verus!
