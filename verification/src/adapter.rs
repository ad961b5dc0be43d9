use vstd::prelude::*;

use crate::crypto::blake2_256;
use crate::crypto::blake2_256_of;
use crate::crypto::pk_len_spec;
use crate::crypto::raw_sig_verifies;
use crate::crypto::sig_len_spec;
use crate::crypto::Scheme;

verus! {

/// A raw Ed25519 signature: 64 bytes.
pub struct Ed25519Signature {
    pub bytes: Vec<u8>,
}

/// A raw Sr25519 signature: 64 bytes.
pub struct Sr25519Signature {
    pub bytes: Vec<u8>,
}

/// A raw recoverable secp256k1 signature: 64 bytes plus one recovery byte.
pub struct EcdsaSignature {
    pub bytes: Vec<u8>,
}

/// A raw Ed25519 public key: 32 bytes.
pub struct Ed25519Public {
    pub bytes: Vec<u8>,
}

/// A raw Sr25519 public key: 32 bytes.
pub struct Sr25519Public {
    pub bytes: Vec<u8>,
}

/// A raw compressed secp256k1 public key: 33 bytes.
pub struct EcdsaPublic {
    pub bytes: Vec<u8>,
}

/// The chain-level signature: one closed variant per supported scheme.
#[derive(Clone, Debug, PartialEq)]
pub enum Signature {
    Ed25519(Vec<u8>),
    Sr25519(Vec<u8>),
    Ecdsa(Vec<u8>),
}

impl Signature {
    /// The scheme this signature was made under.
    pub open spec fn scheme(self) -> Scheme {
        match self {
            Signature::Ed25519(_) => Scheme::Ed25519,
            Signature::Sr25519(_) => Scheme::Sr25519,
            Signature::Ecdsa(_) => Scheme::Ecdsa,
        }
    }

    /// The raw signature bytes.
    pub open spec fn sig_bytes(self) -> Seq<u8> {
        match self {
            Signature::Ed25519(b) => b@,
            Signature::Sr25519(b) => b@,
            Signature::Ecdsa(b) => b@,
        }
    }

    /// A well-formed signature has its scheme's length.
    pub open spec fn wf(self) -> bool {
        self.sig_bytes().len() == sig_len_spec(self.scheme())
    }
}

/// The chain-level public key: one closed variant per supported scheme.
#[derive(Clone, Debug, PartialEq)]
pub enum AccountPublic {
    Ed25519(Vec<u8>),
    Sr25519(Vec<u8>),
    Ecdsa(Vec<u8>),
}

impl AccountPublic {
    /// The scheme this public key belongs to.
    pub open spec fn scheme(self) -> Scheme {
        match self {
            AccountPublic::Ed25519(_) => Scheme::Ed25519,
            AccountPublic::Sr25519(_) => Scheme::Sr25519,
            AccountPublic::Ecdsa(_) => Scheme::Ecdsa,
        }
    }

    /// The raw public key bytes.
    pub open spec fn key_bytes(self) -> Seq<u8> {
        match self {
            AccountPublic::Ed25519(b) => b@,
            AccountPublic::Sr25519(b) => b@,
            AccountPublic::Ecdsa(b) => b@,
        }
    }

    /// A well-formed public key has its scheme's length.
    pub open spec fn wf(self) -> bool {
        self.key_bytes().len() == pk_len_spec(self.scheme())
    }

    /// Reduces the public key to the chain's 32-byte account identity: the
    /// key itself for the 32-byte schemes, its BLAKE2b digest for Ecdsa.
    pub fn into_account(self) -> (r: AccountId)
        requires
            self.wf(),
        ensures
            r.bytes@ == account_of_public(self.scheme(), self.key_bytes()),
            r.wf(),
    {
        match self {
            AccountPublic::Ed25519(b) => AccountId { bytes: b },
            AccountPublic::Sr25519(b) => AccountId { bytes: b },
            AccountPublic::Ecdsa(b) => AccountId { bytes: blake2_256(&b) },
        }
    }
}

/// The chain's account identity: 32 bytes naming the signer.
#[derive(Clone, Debug, PartialEq, Eq)]
pub struct AccountId {
    pub bytes: Vec<u8>,
}

impl AccountId {
    /// A well-formed account identity holds exactly 32 bytes.
    pub open spec fn wf(self) -> bool {
        self.bytes@.len() == 32
    }

    /// Wraps raw bytes as an account identity; fails on any length other
    /// than 32.
    pub fn from_bytes(bytes: Vec<u8>) -> (r: Option<AccountId>)
        ensures
            bytes@.len() == 32 <==> r is Some,
            r is Some ==> r.unwrap().wf() && r.unwrap().bytes@ == bytes@,
    {
        if bytes.len() == 32 {
            Some(AccountId { bytes })
        } else {
            None
        }
    }
}

/// The account identity derived from a raw public key: the key itself for
/// the 32-byte schemes, its 32-byte BLAKE2b digest for Ecdsa.
pub open spec fn account_of_public(scheme: Scheme, pk: Seq<u8>) -> Seq<u8> {
    match scheme {
        Scheme::Ed25519 => pk,
        Scheme::Sr25519 => pk,
        Scheme::Ecdsa => blake2_256_of(pk),
    }
}

/// Whether a chain-level signature over `msg` checks out against an account
/// identity: under the 32-byte schemes the identity is the verifying key;
/// under Ecdsa the key recovered from the signature must hash to it.
pub open spec fn account_sig_verifies(account: Seq<u8>, msg: Seq<u8>, sig: Signature) -> bool {
    match sig {
        Signature::Ed25519(b) => crate::crypto::ed25519_verify_of(account, msg, b@),
        Signature::Sr25519(b) => crate::crypto::sr25519_verify_of(account, msg, b@),
        Signature::Ecdsa(b) => match crate::crypto::ecdsa_recover_of(blake2_256_of(msg), b@) {
            Some(rec) => blake2_256_of(rec) == account,
            None => false,
        },
    }
}

/// A raw signature that checks out under a public key also checks out, as a
/// chain-level signature, against the account identity derived from it.
pub proof fn lemma_raw_to_account_verifies(scheme: Scheme, pk: Seq<u8>, msg: Seq<u8>, sig: Signature)
    requires
        sig.scheme() == scheme,
        raw_sig_verifies(scheme, pk, msg, sig.sig_bytes()),
    ensures
        account_sig_verifies(account_of_public(scheme, pk), msg, sig),
{
}

/// Converts a raw, scheme-specific signature into the chain-level signature.
/// Every implementor is a supported scheme and converts exactly; a scheme
/// without an implementor cannot reach the chain's signature type at all.
pub trait SignatureT: Sized {
    /// The scheme the raw signature belongs to.
    spec fn scheme_spec(&self) -> Scheme;

    /// The raw signature bytes.
    spec fn bytes_spec(&self) -> Seq<u8>;

    /// Wraps the raw signature in its chain-level variant, byte for byte.
    fn into_runtime(self) -> (r: Signature)
        ensures
            r.scheme() == self.scheme_spec(),
            r.sig_bytes() == self.bytes_spec(),
    ;
}

impl SignatureT for Ed25519Signature {
    open spec fn scheme_spec(&self) -> Scheme {
        Scheme::Ed25519
    }

    open spec fn bytes_spec(&self) -> Seq<u8> {
        self.bytes@
    }

    fn into_runtime(self) -> (r: Signature) {
        Signature::Ed25519(self.bytes)
    }
}

impl SignatureT for Sr25519Signature {
    open spec fn scheme_spec(&self) -> Scheme {
        Scheme::Sr25519
    }

    open spec fn bytes_spec(&self) -> Seq<u8> {
        self.bytes@
    }

    fn into_runtime(self) -> (r: Signature) {
        Signature::Sr25519(self.bytes)
    }
}

impl SignatureT for EcdsaSignature {
    open spec fn scheme_spec(&self) -> Scheme {
        Scheme::Ecdsa
    }

    open spec fn bytes_spec(&self) -> Seq<u8> {
        self.bytes@
    }

    fn into_runtime(self) -> (r: Signature) {
        Signature::Ecdsa(self.bytes)
    }
}

/// Converts a raw, scheme-specific public key into the chain-level public
/// key, under the same closed-set policy as SignatureT.
pub trait PublicT: Sized {
    /// The scheme the raw public key belongs to.
    spec fn scheme_spec(&self) -> Scheme;

    /// The raw public key bytes.
    spec fn bytes_spec(&self) -> Seq<u8>;

    /// Wraps the raw public key in its chain-level variant, byte for byte.
    fn into_runtime(self) -> (r: AccountPublic)
        ensures
            r.scheme() == self.scheme_spec(),
            r.key_bytes() == self.bytes_spec(),
    ;
}

impl PublicT for Ed25519Public {
    open spec fn scheme_spec(&self) -> Scheme {
        Scheme::Ed25519
    }

    open spec fn bytes_spec(&self) -> Seq<u8> {
        self.bytes@
    }

    fn into_runtime(self) -> (r: AccountPublic) {
        AccountPublic::Ed25519(self.bytes)
    }
}

impl PublicT for Sr25519Public {
    open spec fn scheme_spec(&self) -> Scheme {
        Scheme::Sr25519
    }

    open spec fn bytes_spec(&self) -> Seq<u8> {
        self.bytes@
    }

    fn into_runtime(self) -> (r: AccountPublic) {
        AccountPublic::Sr25519(self.bytes)
    }
}

impl PublicT for EcdsaPublic {
    open spec fn scheme_spec(&self) -> Scheme {
        Scheme::Ecdsa
    }

    open spec fn bytes_spec(&self) -> Seq<u8> {
        self.bytes@
    }

    fn into_runtime(self) -> (r: AccountPublic) {
        AccountPublic::Ecdsa(self.bytes)
    }
}

} // verus!
