use vstd::prelude::*;

use ed25519_dalek::Signer;
use ed25519_dalek::Verifier;

verus! {

/// The signature schemes the target chain recognises. The set is closed:
/// a scheme outside it cannot be named, so an unsupported configuration is
/// a compile-time error rather than a runtime one.
#[derive(Clone, Copy, PartialEq, Eq, Structural, Debug)]
pub enum Scheme {
    Ed25519,
    Sr25519,
    Ecdsa,
}

/// The Ed25519 public key derived from a 32-byte seed.
pub uninterp spec fn ed25519_public_of(seed: Seq<u8>) -> Seq<u8>;

/// The Sr25519 public key derived from a 32-byte seed.
pub uninterp spec fn sr25519_public_of(seed: Seq<u8>) -> Seq<u8>;

/// The compressed secp256k1 public key derived from a 32-byte seed.
pub uninterp spec fn ecdsa_public_of(seed: Seq<u8>) -> Seq<u8>;

/// Whether an Ed25519 signature over `msg` checks out under the key `pk`.
pub uninterp spec fn ed25519_verify_of(pk: Seq<u8>, msg: Seq<u8>, sig: Seq<u8>) -> bool;

/// Whether an Sr25519 signature over `msg` checks out under the key `pk`.
pub uninterp spec fn sr25519_verify_of(pk: Seq<u8>, msg: Seq<u8>, sig: Seq<u8>) -> bool;

/// The compressed public key recovered from a 65-byte recoverable secp256k1
/// signature over the 32-byte message hash, if the signature is well formed.
pub uninterp spec fn ecdsa_recover_of(msg_hash: Seq<u8>, sig: Seq<u8>) -> Option<Seq<u8>>;

/// Whether 32 bytes are a usable secp256k1 secret key (nonzero and below the
/// curve order).
pub uninterp spec fn ecdsa_seed_ok(seed: Seq<u8>) -> bool;

/// The 32-byte BLAKE2b digest of the input bytes.
pub uninterp spec fn blake2_256_of(data: Seq<u8>) -> Seq<u8>;

/// Relies on blake2b_simd: BLAKE2b with a 32-byte digest is a function of
/// the input bytes alone.
#[verifier::external_body]
pub(crate) fn blake2_256(data: &Vec<u8>) -> (r: Vec<u8>)
    ensures
        r@ == blake2_256_of(data@),
        r@.len() == 32,
{
    let hash = blake2b_simd::Params::new().hash_length(32).hash(&data[..]);
    hash.as_bytes().to_vec()
}

/// Relies on ed25519_dalek's SigningKey::from_bytes and VerifyingKey: the
/// 32-byte public key is a function of the 32 seed bytes alone.
#[verifier::external_body]
fn ed25519_public(seed: &Vec<u8>) -> (r: Vec<u8>)
    requires
        seed@.len() == 32,
    ensures
        r@ == ed25519_public_of(seed@),
        r@.len() == 32,
{
    let mut s = [0u8; 32];
    s.copy_from_slice(&seed[..]);
    let key = ed25519_dalek::SigningKey::from_bytes(&s);
    key.verifying_key().to_bytes().to_vec()
}

/// Relies on ed25519_dalek's Signer::sign: the 64-byte signature it returns
/// over `msg` passes Verifier::verify under the seed's public key.
#[verifier::external_body]
fn ed25519_sign(seed: &Vec<u8>, msg: &Vec<u8>) -> (sig: Vec<u8>)
    requires
        seed@.len() == 32,
    ensures
        sig@.len() == 64,
        ed25519_verify_of(ed25519_public_of(seed@), msg@, sig@),
{
    let mut s = [0u8; 32];
    s.copy_from_slice(&seed[..]);
    let key = ed25519_dalek::SigningKey::from_bytes(&s);
    key.sign(&msg[..]).to_bytes().to_vec()
}

/// Relies on ed25519_dalek's Verifier::verify, a function of key, message
/// and signature alone; bytes that parse as no key or no signature fail.
#[verifier::external_body]
fn ed25519_verify(pk: &Vec<u8>, msg: &Vec<u8>, sig: &Vec<u8>) -> (r: bool)
    ensures
        r == ed25519_verify_of(pk@, msg@, sig@),
{
    let kb: [u8; 32] = match pk.as_slice().try_into() {
        Ok(a) => a,
        Err(_) => return false,
    };
    let sb: [u8; 64] = match sig.as_slice().try_into() {
        Ok(a) => a,
        Err(_) => return false,
    };
    let key = match ed25519_dalek::VerifyingKey::from_bytes(&kb) {
        Ok(k) => k,
        Err(_) => return false,
    };
    key.verify(&msg[..], &ed25519_dalek::Signature::from_bytes(&sb)).is_ok()
}

/// Relies on schnorrkel's MiniSecretKey::expand_to_public with Ed25519
/// expansion: the 32-byte public key is a function of the seed bytes alone.
#[verifier::external_body]
fn sr25519_public(seed: &Vec<u8>) -> (r: Vec<u8>)
    requires
        seed@.len() == 32,
    ensures
        r@ == sr25519_public_of(seed@),
        r@.len() == 32,
{
    let mini = schnorrkel::MiniSecretKey::from_bytes(&seed[..]).unwrap();
    mini.expand_to_public(schnorrkel::ExpansionMode::Ed25519).to_bytes().to_vec()
}

/// Relies on schnorrkel's Keypair::sign_simple under the b"substrate"
/// signing context: whatever nonce the scheme draws, the fresh signature
/// passes PublicKey::verify_simple under the same context and key.
#[verifier::external_body]
fn sr25519_sign(seed: &Vec<u8>, msg: &Vec<u8>) -> (sig: Vec<u8>)
    requires
        seed@.len() == 32,
    ensures
        sig@.len() == 64,
        sr25519_verify_of(sr25519_public_of(seed@), msg@, sig@),
{
    let mini = schnorrkel::MiniSecretKey::from_bytes(&seed[..]).unwrap();
    let pair = mini.expand_to_keypair(schnorrkel::ExpansionMode::Ed25519);
    pair.sign_simple(b"substrate", &msg[..]).to_bytes().to_vec()
}

/// Relies on schnorrkel's PublicKey::verify_simple under the b"substrate"
/// signing context, a function of key, message and signature alone; bytes
/// that parse as no key or no signature fail.
#[verifier::external_body]
fn sr25519_verify(pk: &Vec<u8>, msg: &Vec<u8>, sig: &Vec<u8>) -> (r: bool)
    ensures
        r == sr25519_verify_of(pk@, msg@, sig@),
{
    let key = match schnorrkel::PublicKey::from_bytes(&pk[..]) {
        Ok(k) => k,
        Err(_) => return false,
    };
    let signature = match schnorrkel::Signature::from_bytes(&sig[..]) {
        Ok(s) => s,
        Err(_) => return false,
    };
    key.verify_simple(b"substrate", &msg[..], &signature).is_ok()
}

/// Relies on libsecp256k1's SecretKey::parse_slice: it accepts exactly the
/// 32-byte strings that are a nonzero scalar below the curve order.
#[verifier::external_body]
fn ecdsa_seed_check(seed: &Vec<u8>) -> (r: bool)
    ensures
        r == (seed@.len() == 32 && ecdsa_seed_ok(seed@)),
{
    libsecp256k1::SecretKey::parse_slice(&seed[..]).is_ok()
}

/// Relies on libsecp256k1's PublicKey::from_secret_key and
/// serialize_compressed: the 33-byte compressed public key is a function of
/// the seed bytes alone.
#[verifier::external_body]
fn ecdsa_public(seed: &Vec<u8>) -> (r: Vec<u8>)
    requires
        seed@.len() == 32,
        ecdsa_seed_ok(seed@),
    ensures
        r@ == ecdsa_public_of(seed@),
        r@.len() == 33,
{
    let sk = libsecp256k1::SecretKey::parse_slice(&seed[..]).unwrap();
    libsecp256k1::PublicKey::from_secret_key(&sk).serialize_compressed().to_vec()
}

/// Relies on libsecp256k1's sign and recover: signing the 32-byte message
/// hash yields a (signature, recovery id) pair, serialized here as 64 + 1
/// bytes, from which recover returns the signer's compressed public key.
#[verifier::external_body]
fn ecdsa_sign(seed: &Vec<u8>, msg_hash: &Vec<u8>) -> (sig: Vec<u8>)
    requires
        seed@.len() == 32,
        ecdsa_seed_ok(seed@),
        msg_hash@.len() == 32,
    ensures
        sig@.len() == 65,
        ecdsa_recover_of(msg_hash@, sig@) == Some(ecdsa_public_of(seed@)),
{
    let sk = libsecp256k1::SecretKey::parse_slice(&seed[..]).unwrap();
    let m = libsecp256k1::Message::parse_slice(&msg_hash[..]).unwrap();
    let (s, rid) = libsecp256k1::sign(&m, &sk);
    let mut out = s.serialize().to_vec();
    out.push(rid.serialize());
    out
}

/// Relies on libsecp256k1's recover, a function of message hash and
/// signature alone; a signature or recovery id that does not parse, or a
/// failed recovery, yields nothing.
#[verifier::external_body]
pub(crate) fn ecdsa_recover(msg_hash: &Vec<u8>, sig: &Vec<u8>) -> (r: Option<Vec<u8>>)
    requires
        msg_hash@.len() == 32,
        sig@.len() == 65,
    ensures
        r is Some <==> ecdsa_recover_of(msg_hash@, sig@) is Some,
        r is Some ==> r.unwrap()@ == ecdsa_recover_of(msg_hash@, sig@).unwrap(),
        r is Some ==> r.unwrap()@.len() == 33,
{
    let m = libsecp256k1::Message::parse_slice(&msg_hash[..]).unwrap();
    let s = match libsecp256k1::Signature::parse_standard_slice(&sig[..64]) {
        Ok(s) => s,
        Err(_) => return None,
    };
    let rid = match libsecp256k1::RecoveryId::parse(sig[64]) {
        Ok(r) => r,
        Err(_) => return None,
    };
    match libsecp256k1::recover(&m, &s, &rid) {
        Ok(pk) => Some(pk.serialize_compressed().to_vec()),
        Err(_) => None,
    }
}

/// The length of a raw signature under each scheme.
pub open spec fn sig_len_spec(scheme: Scheme) -> nat {
    match scheme {
        Scheme::Ed25519 => 64,
        Scheme::Sr25519 => 64,
        Scheme::Ecdsa => 65,
    }
}

/// The length of a raw public key under each scheme.
pub open spec fn pk_len_spec(scheme: Scheme) -> nat {
    match scheme {
        Scheme::Ed25519 => 32,
        Scheme::Sr25519 => 32,
        Scheme::Ecdsa => 33,
    }
}

/// Whether raw signature bytes over `msg` check out under the raw public
/// key `pk` of the given scheme. Under the recoverable Ecdsa scheme this
/// means the recovered key is `pk`.
pub open spec fn raw_sig_verifies(scheme: Scheme, pk: Seq<u8>, msg: Seq<u8>, sig: Seq<u8>) -> bool {
    match scheme {
        Scheme::Ed25519 => ed25519_verify_of(pk, msg, sig),
        Scheme::Sr25519 => sr25519_verify_of(pk, msg, sig),
        Scheme::Ecdsa => match ecdsa_recover_of(blake2_256_of(msg), sig) {
            Some(rec) => rec == pk,
            None => false,
        },
    }
}

/// A signing keypair: a scheme together with the 32-byte seed its secret
/// key is derived from. The caller owns it and supplies it per call; the
/// builder never retains it.
pub struct Keypair {
    scheme: Scheme,
    seed: Vec<u8>,
}

impl Keypair {
    /// Seeds are 32 bytes, and an Ecdsa seed is a usable secret key.
    #[verifier::type_invariant]
    spec fn inv(self) -> bool {
        &&& self.seed@.len() == 32
        &&& (self.scheme is Ecdsa ==> ecdsa_seed_ok(self.seed@))
    }

    /// The scheme this keypair signs under.
    pub closed spec fn scheme_spec(self) -> Scheme {
        self.scheme
    }

    /// The raw public key bytes derived from the seed.
    pub closed spec fn public_spec(self) -> Seq<u8> {
        match self.scheme {
            Scheme::Ed25519 => ed25519_public_of(self.seed@),
            Scheme::Sr25519 => sr25519_public_of(self.seed@),
            Scheme::Ecdsa => ecdsa_public_of(self.seed@),
        }
    }

    /// Builds a keypair from a 32-byte seed; fails on any other length, and
    /// under Ecdsa also on the few byte strings that are no usable secret
    /// key (zero, or at least the curve order).
    pub fn from_seed(scheme: Scheme, seed: Vec<u8>) -> (r: Option<Keypair>)
        ensures
            r is Some <==> (seed@.len() == 32 && (scheme is Ecdsa ==> ecdsa_seed_ok(seed@))),
            r is Some ==> r.unwrap().scheme_spec() == scheme,
    {
        match scheme {
            Scheme::Ecdsa => {
                if ecdsa_seed_check(&seed) {
                    Some(Keypair { scheme, seed })
                } else {
                    None
                }
            },
            _ => {
                if seed.len() == 32 {
                    Some(Keypair { scheme, seed })
                } else {
                    None
                }
            },
        }
    }

    /// The scheme this keypair signs under.
    pub fn scheme(&self) -> (s: Scheme)
        ensures
            s == self.scheme_spec(),
    {
        self.scheme
    }

    /// The raw public key bytes derived from the seed.
    pub fn public_bytes(&self) -> (r: Vec<u8>)
        ensures
            r@ == self.public_spec(),
            r@.len() == pk_len_spec(self.scheme_spec()),
    {
        proof {
            use_type_invariant(self);
        }
        match self.scheme {
            Scheme::Ed25519 => ed25519_public(&self.seed),
            Scheme::Sr25519 => sr25519_public(&self.seed),
            Scheme::Ecdsa => ecdsa_public(&self.seed),
        }
    }

    /// Signs a message. Whatever randomness the scheme draws, the returned
    /// raw signature checks out over the message under this keypair's
    /// public key.
    pub fn sign_raw(&self, msg: &Vec<u8>) -> (sig: Vec<u8>)
        ensures
            sig@.len() == sig_len_spec(self.scheme_spec()),
            raw_sig_verifies(self.scheme_spec(), self.public_spec(), msg@, sig@),
    {
        proof {
            use_type_invariant(self);
        }
        match self.scheme {
            Scheme::Ed25519 => ed25519_sign(&self.seed, msg),
            Scheme::Sr25519 => sr25519_sign(&self.seed, msg),
            Scheme::Ecdsa => {
                let h = blake2_256(msg);
                ecdsa_sign(&self.seed, &h)
            },
        }
    }
}

/// Checks raw signature bytes over a message against raw public key bytes
/// under the given scheme.
pub fn verify_raw(scheme: Scheme, pk: &Vec<u8>, msg: &Vec<u8>, sig: &Vec<u8>) -> (r: bool)
    requires
        scheme is Ecdsa ==> sig@.len() == 65,
    ensures
        r == raw_sig_verifies(scheme, pk@, msg@, sig@),
{
    match scheme {
        Scheme::Ed25519 => ed25519_verify(pk, msg, sig),
        Scheme::Sr25519 => sr25519_verify(pk, msg, sig),
        Scheme::Ecdsa => {
            let h = blake2_256(msg);
            match ecdsa_recover(&h, sig) {
                Some(rec) => crate::scale::bytes_eq(&rec, pk),
                None => false,
            }
        },
    }
}

} // verus!
