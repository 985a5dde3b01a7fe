//! The process identity: the one key pair that signs every transaction.

use crate::ids::AccountId;
use solana_sdk::signature::Keypair;
use solana_sdk::signer::Signer;
use vstd::prelude::*;

verus! {

/// The public key of the key pair that 64 bytes encode, where they encode one.
pub uninterp spec fn keypair_pubkey(bytes: Seq<u8>) -> Option<AccountId>;

/// Reads a key pair with `Keypair::from_bytes` and takes its public key with
/// `Signer::pubkey`. The result is that public key, or nothing where
/// `from_bytes` rejects the bytes.
#[verifier::external_body]
#[allow(deprecated)]
fn read_keypair_pubkey(bytes: &[u8; 64]) -> (r: Option<AccountId>)
    ensures
        r == keypair_pubkey(bytes@),
{
    match Keypair::from_bytes(bytes) {
        Ok(pair) => Some(AccountId { bytes: pair.pubkey().to_bytes() }),
        Err(_) => None,
    }
}

/// A key pair that was checked when it was read, with its public key. It
/// holds a secret: it is neither copied nor printed.
pub struct Identity {
    pub(crate) keypair: [u8; 64],
    pub(crate) pubkey: AccountId,
}

impl View for Identity {
    type V = Seq<u8>;

    /// The 64 bytes of the key pair.
    closed spec fn view(&self) -> Seq<u8> {
        self.keypair@
    }
}

impl Identity {
    /// The public key is the one of the key pair.
    #[verifier::type_invariant]
    spec fn consistent(self) -> bool {
        keypair_pubkey(self.keypair@) == Some(self.pubkey)
    }

    /// The account that this identity signs and pays as.
    pub closed spec fn spec_pubkey(&self) -> AccountId {
        self.pubkey
    }

    /// Accepts the bytes exactly when they encode a key pair.
    pub fn from_bytes(bytes: [u8; 64]) -> (r: Option<Identity>)
        ensures
            r is Some <==> keypair_pubkey(bytes@) is Some,
            r matches Some(identity) ==> identity@ == bytes@ && Some(identity.spec_pubkey())
                == keypair_pubkey(bytes@),
    {
        match read_keypair_pubkey(&bytes) {
            Some(pubkey) => Some(Identity { keypair: bytes, pubkey }),
            None => None,
        }
    }

    /// The 64 bytes of the key pair.
    pub fn to_bytes(&self) -> (bytes: [u8; 64])
        ensures
            bytes@ == self@,
    {
        self.keypair
    }

    /// The account that this identity signs and pays as: the public key of
    /// its key pair.
    #[verifier::when_used_as_spec(spec_pubkey)]
    pub fn pubkey(&self) -> (id: AccountId)
        ensures
            id == self.spec_pubkey(),
            keypair_pubkey(self@) == Some(id),
    {
        proof {
            use_type_invariant(self);
        }
        self.pubkey
    }
}

} // verus!
