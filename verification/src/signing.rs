//! Signing a list of operations into a transaction, and the test that tells
//! beforehand whether a list can be signed by the payer alone.

use crate::identity::{keypair_pubkey, Identity};
use crate::ids::{contains_id, AccountId, Blockhash, Signature};
use crate::operation::{AccountRef, Operation, OperationView};
use solana_sdk::instruction::{AccountMeta, Instruction};
use solana_sdk::signature::Keypair;
use solana_sdk::signer::Signer;
use solana_sdk::transaction::Transaction;
use vstd::prelude::*;

verus! {

/// A signed transaction: its signatures, and the serialized message that they
/// sign.
#[derive(Clone, Debug, PartialEq, Eq)]
pub struct SignedTransaction {
    pub signatures: Vec<Signature>,
    pub message: Vec<u8>,
}

/// The mathematical value of a [`SignedTransaction`].
pub struct SignedTransactionView {
    pub signatures: Seq<Signature>,
    pub message: Seq<u8>,
}

impl View for SignedTransaction {
    type V = SignedTransactionView;

    open spec fn view(&self) -> SignedTransactionView {
        SignedTransactionView { signatures: self.signatures@, message: self.message@ }
    }
}

/// The largest length that the wire format can write down.
pub const MAX_WIRE_LEN: usize = 65535;

/// The largest number of accounts that a message can declare read-only.
pub const MAX_READ_ONLY_KEYS: usize = 255;

/// The accounts that one operation names, in the order in which a message
/// takes them up: the program, which asks for no rights, then the accounts
/// handed to it.
pub open spec fn operation_uses(op: OperationView) -> Seq<AccountRef> {
    seq![AccountRef { id: op.program_id, is_signer: false, is_writable: false }] + op.accounts
}

/// The accounts that a list of operations names, operation after operation.
pub open spec fn account_uses(ops: Seq<OperationView>) -> Seq<AccountRef>
    decreases ops.len(),
{
    if ops.len() == 0 {
        Seq::empty()
    } else {
        account_uses(ops.drop_last()) + operation_uses(ops.last())
    }
}

/// Some use names `key`.
pub open spec fn is_used(uses: Seq<AccountRef>, key: AccountId) -> bool {
    exists|n: int| 0 <= n < uses.len() && (#[trigger] uses[n]).id == key
}

/// Some use names `key` and asks to write to it.
pub open spec fn is_written(uses: Seq<AccountRef>, key: AccountId) -> bool {
    exists|n: int| 0 <= n < uses.len() && (#[trigger] uses[n]).id == key && uses[n].is_writable
}

/// No account but the payer is asked to sign.
pub open spec fn only_payer_signs(uses: Seq<AccountRef>, payer: AccountId) -> bool {
    forall|n: int| 0 <= n < uses.len() && (#[trigger] uses[n]).is_signer ==> uses[n].id == payer
}

/// Every account of the message: the payer and whatever the operations name.
pub open spec fn message_keys(uses: Seq<AccountRef>, payer: AccountId) -> Set<AccountId> {
    Set::new(|key: AccountId| key == payer || is_used(uses, key))
}

/// The accounts that the message declares read-only: named, never written to,
/// and not the payer.
pub open spec fn read_only_keys(uses: Seq<AccountRef>, payer: AccountId) -> Set<AccountId> {
    Set::new(|key: AccountId| key != payer && is_used(uses, key) && !is_written(uses, key))
}

/// Every length that the message writes down fits the wire format: the number
/// of operations, and each operation's number of accounts and of input bytes.
pub open spec fn fits_wire(ops: Seq<OperationView>) -> bool {
    &&& ops.len() <= MAX_WIRE_LEN
    &&& forall|i: int|
        0 <= i < ops.len() ==> (#[trigger] ops[i]).accounts.len() <= MAX_WIRE_LEN
            && ops[i].data.len() <= MAX_WIRE_LEN
}

/// The operations can be compiled into one message and signed by the payer
/// alone: the lengths fit the wire format, as does the number of accounts;
/// no other account is asked to sign; and the number of read-only accounts
/// fits the one byte that the message's header has for it.
pub open spec fn signable(ops: Seq<OperationView>, payer: AccountId) -> bool {
    &&& fits_wire(ops)
    &&& only_payer_signs(account_uses(ops), payer)
    &&& message_keys(account_uses(ops), payer).len() <= MAX_WIRE_LEN
    &&& read_only_keys(account_uses(ops), payer).len() <= MAX_READ_ONLY_KEYS
}

/// The accounts of a message can be counted: there are finitely many, at most
/// one for each use and one for the payer, and the read-only ones are among
/// them.
pub proof fn lemma_message_keys_are_finite(uses: Seq<AccountRef>, payer: AccountId)
    ensures
        message_keys(uses, payer).finite(),
        read_only_keys(uses, payer).finite(),
        read_only_keys(uses, payer).len() <= message_keys(uses, payer).len() <= uses.len() + 1,
{
    let ids = uses.map_values(|r: AccountRef| r.id);
    let keys = message_keys(uses, payer);
    let read_only = read_only_keys(uses, payer);
    assert forall|key: AccountId| is_used(uses, key) <==> ids.contains(key) by {
        if is_used(uses, key) {
            let n = choose|n: int| 0 <= n < uses.len() && (#[trigger] uses[n]).id == key;
            assert(ids[n] == key);
        }
    }
    assert(keys =~= ids.to_set().insert(payer));
    ids.lemma_cardinality_of_set();
    vstd::set_lib::lemma_len_subset(read_only, keys);
}

/// The transaction that signing yields for a list of operations, the 64 bytes
/// of the signing key pair and a block hash.
pub uninterp spec fn signed_transaction(
    ops: Seq<OperationView>,
    keypair: Seq<u8>,
    blockhash: Seq<u8>,
) -> SignedTransactionView;

/// Signs with `Transaction::new_signed_with_payer`: the operations as its
/// instructions, the identity as the payer and the only signer. The result is
/// what that function yields: its signatures and its serialized message. The
/// payer always signs, so there is at least one signature. The function
/// panics where a message cannot be compiled or serialized, or where another
/// account would have to sign: `signable` leaves those lists out.
#[verifier::external_body]
#[allow(deprecated)]
pub(crate) fn sign_operations(
    ops: &Vec<Operation>,
    identity: &Identity,
    hash: &Blockhash,
) -> (tx: SignedTransaction)
    requires
        keypair_pubkey(identity@) == Some(identity.spec_pubkey()),
        signable(ops.deep_view(), identity.spec_pubkey()),
    ensures
        tx@ == signed_transaction(ops.deep_view(), identity@, hash@),
        tx.signatures@.len() >= 1,
{
    let ixs: Vec<Instruction> = ops.iter().map(|op| Instruction {
        program_id: op.program_id.bytes.into(),
        accounts: op.accounts.iter().map(|a| AccountMeta {
            pubkey: a.id.bytes.into(),
            is_signer: a.is_signer,
            is_writable: a.is_writable,
        }).collect(),
        data: op.data.clone(),
    }).collect();
    let key = Keypair::from_bytes(&identity.keypair).unwrap();
    let tx = Transaction::new_signed_with_payer(&ixs, Some(&key.pubkey()), &[&key], hash.bytes.into());
    SignedTransaction {
        signatures: tx.signatures.iter().map(|s| Signature { bytes: (*s).into() }).collect(),
        message: tx.message_data(),
    }
}

/// Adding an operation adds its uses at the end.
proof fn lemma_uses_push(ops: Seq<OperationView>, op: OperationView)
    ensures
        account_uses(ops.push(op)) == account_uses(ops) + operation_uses(op),
{
    assert(ops.push(op).drop_last() =~= ops);
}

/// Lays out the uses of a list of operations.
fn collect_uses(ops: &Vec<Operation>) -> (uses: Vec<AccountRef>)
    ensures
        uses@ == account_uses(ops.deep_view()),
{
    let mut uses: Vec<AccountRef> = Vec::new();
    let ghost all = ops.deep_view();
    let mut i: usize = 0;
    while i < ops.len()
        invariant
            i <= ops.len(),
            all == ops.deep_view(),
            uses@ == account_uses(all.take(i as int)),
        decreases ops.len() - i,
    {
        let op = &ops[i];
        uses.push(AccountRef { id: op.program_id, is_signer: false, is_writable: false });
        let mut j: usize = 0;
        while j < op.accounts.len()
            invariant
                j <= op.accounts.len(),
                uses@ == account_uses(all.take(i as int)) + seq![
                    AccountRef { id: op.program_id, is_signer: false, is_writable: false },
                ] + op.accounts@.take(j as int),
            decreases op.accounts.len() - j,
        {
            uses.push(op.accounts[j]);
            j += 1;
        }
        proof {
            assert(all.take(i + 1) =~= all.take(i as int).push(op@));
            lemma_uses_push(all.take(i as int), op@);
        }
        i += 1;
    }
    assert(all.take(i as int) =~= all);
    uses
}

/// Tells whether every length fits the wire format.
fn check_wire(ops: &Vec<Operation>) -> (ok: bool)
    ensures
        ok == fits_wire(ops.deep_view()),
{
    if ops.len() > MAX_WIRE_LEN {
        return false;
    }
    let ghost all = ops.deep_view();
    let mut i: usize = 0;
    while i < ops.len()
        invariant
            i <= ops.len(),
            all == ops.deep_view(),
            forall|k: int|
                0 <= k < i ==> (#[trigger] all[k]).accounts.len() <= MAX_WIRE_LEN
                    && all[k].data.len() <= MAX_WIRE_LEN,
        decreases ops.len() - i,
    {
        assert(all[i as int] == ops[i as int]@);
        if ops[i].accounts.len() > MAX_WIRE_LEN || ops[i].data.len() > MAX_WIRE_LEN {
            return false;
        }
        i += 1;
    }
    true
}

/// Tells whether no account but the payer is asked to sign.
fn check_signers(uses: &Vec<AccountRef>, payer: &AccountId) -> (ok: bool)
    ensures
        ok == only_payer_signs(uses@, *payer),
{
    let mut n: usize = 0;
    while n < uses.len()
        invariant
            n <= uses.len(),
            forall|k: int| 0 <= k < n && (#[trigger] uses@[k]).is_signer ==> uses@[k].id == *payer,
        decreases uses.len() - n,
    {
        if uses[n].is_signer && uses[n].id != *payer {
            return false;
        }
        n += 1;
    }
    true
}

/// Tells whether some use asks to write to `key`.
fn check_written(uses: &Vec<AccountRef>, key: &AccountId) -> (written: bool)
    ensures
        written == is_written(uses@, *key),
{
    let mut n: usize = 0;
    while n < uses.len()
        invariant
            n <= uses.len(),
            forall|k: int|
                0 <= k < n ==> !((#[trigger] uses@[k]).id == *key && uses@[k].is_writable),
        decreases uses.len() - n,
    {
        if uses[n].id == *key && uses[n].is_writable {
            return true;
        }
        n += 1;
    }
    false
}

/// Lists each account that the uses name, but for the payer, once.
fn distinct_keys(uses: &Vec<AccountRef>, payer: &AccountId) -> (keys: Vec<AccountId>)
    ensures
        keys@.no_duplicates(),
        forall|key: AccountId|
            #![trigger keys@.contains(key)]
            keys@.contains(key) <==> key != *payer && is_used(uses@, key),
{
    let mut keys: Vec<AccountId> = Vec::new();
    let mut n: usize = 0;
    while n < uses.len()
        invariant
            n <= uses.len(),
            keys@.no_duplicates(),
            forall|key: AccountId|
                #![trigger keys@.contains(key)]
                keys@.contains(key) <==> key != *payer && is_used(uses@.take(n as int), key),
        decreases uses.len() - n,
    {
        let id = uses[n].id;
        let ghost before = keys@;
        let ghost next = uses@.take(n + 1);
        let known = contains_id(&keys, &id);
        if id != *payer && !known {
            keys.push(id);
        }
        proof {
            assert forall|key: AccountId| #![trigger keys@.contains(key)]
                keys@.contains(key) <==> key != *payer && is_used(next, key) by {
                if keys@.contains(key) {
                    let at = choose|k: int| 0 <= k < keys@.len() && keys@[k] == key;
                    if at < before.len() {
                        assert(before.contains(key));
                    } else {
                        assert(next[n as int].id == key);
                    }
                }
                if key != *payer && is_used(next, key) {
                    let m = choose|m: int| 0 <= m < next.len() && (#[trigger] next[m]).id == key;
                    if m < n {
                        assert(before.contains(key));
                        let at = choose|k: int| 0 <= k < before.len() && before[k] == key;
                        assert(keys@[at] == key);
                    } else if known {
                        let at = choose|k: int| 0 <= k < before.len() && before[k] == key;
                        assert(keys@[at] == key);
                    } else {
                        assert(keys@[keys@.len() - 1] == key);
                    }
                }
            }
        }
        n += 1;
    }
    assert(uses@.take(n as int) =~= uses@);
    keys
}

/// Counts the keys that no use asks to write to.
fn count_read_only(
    uses: &Vec<AccountRef>,
    keys: &Vec<AccountId>,
    payer: &AccountId,
) -> (count: usize)
    requires
        keys@.no_duplicates(),
        forall|key: AccountId|
            #![trigger keys@.contains(key)]
            keys@.contains(key) <==> key != *payer && is_used(uses@, key),
    ensures
        count == read_only_keys(uses@, *payer).len(),
{
    let mut count: usize = 0;
    let ghost mut found: Seq<AccountId> = Seq::empty();
    let mut n: usize = 0;
    while n < keys.len()
        invariant
            n <= keys.len(),
            count == found.len(),
            count <= n,
            keys@.no_duplicates(),
            found.no_duplicates(),
            forall|key: AccountId|
                #![trigger found.contains(key)]
                found.contains(key) <==> keys@.take(n as int).contains(key) && !is_written(
                    uses@,
                    key,
                ),
        decreases keys.len() - n,
    {
        let key = keys[n];
        let written = check_written(uses, &key);
        let ghost before = found;
        let ghost next = keys@.take(n + 1);
        proof {
            if !written {
                found = found.push(key);
                assert forall|a: int, b: int|
                    0 <= a < found.len() && 0 <= b < found.len() && a != b implies found[a]
                    != found[b] by {
                    if a >= before.len() {
                        assert(before.contains(before[b]));
                    } else if b >= before.len() {
                        assert(before.contains(before[a]));
                    }
                }
            }
            assert forall|other: AccountId| #![trigger found.contains(other)]
                found.contains(other) <==> next.contains(other) && !is_written(uses@, other) by {
                if found.contains(other) {
                    let at = choose|k: int| 0 <= k < found.len() && found[k] == other;
                    if at < before.len() {
                        assert(before.contains(other));
                    } else {
                        assert(next[n as int] == other);
                    }
                }
                if next.contains(other) && !is_written(uses@, other) {
                    let m = choose|m: int| 0 <= m < next.len() && next[m] == other;
                    if m < n {
                        assert(before.contains(other));
                        let at = choose|k: int| 0 <= k < before.len() && before[k] == other;
                        assert(found[at] == other);
                    } else {
                        assert(found[found.len() - 1] == other);
                    }
                }
            }
        }
        if !written {
            count += 1;
        }
        n += 1;
    }
    proof {
        assert(keys@.take(n as int) =~= keys@);
        assert(found.to_set() =~= read_only_keys(uses@, *payer));
        found.unique_seq_to_set();
    }
    count
}

/// Tells whether a list of operations can be signed by `payer` alone.
pub fn can_sign(ops: &Vec<Operation>, payer: &AccountId) -> (ok: bool)
    ensures
        ok == signable(ops.deep_view(), *payer),
{
    if !check_wire(ops) {
        return false;
    }
    let uses = collect_uses(ops);
    if !check_signers(&uses, payer) {
        return false;
    }
    let keys = distinct_keys(&uses, payer);
    let read_only = count_read_only(&uses, &keys, payer);
    proof {
        assert(keys@.to_set().insert(*payer) =~= message_keys(uses@, *payer));
        keys@.unique_seq_to_set();
    }
    keys.len() < MAX_WIRE_LEN && read_only <= MAX_READ_ONLY_KEYS
}

} // verus!
