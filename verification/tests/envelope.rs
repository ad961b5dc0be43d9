use ed25519_dalek::Verifier;
use extrinsic_builder::adapter::{
    AccountId, AccountPublic, EcdsaPublic, EcdsaSignature, Ed25519Public, Ed25519Signature,
    PublicT, Signature, SignatureT, Sr25519Public, Sr25519Signature,
};
use extrinsic_builder::crypto::{Keypair, Scheme};
use extrinsic_builder::extrinsic::{
    canonical_extensions, make_extrinsic, signing_payload, verify_extrinsic, Call, SignedPart,
    UncheckedExtrinsic,
};
use extrinsic_builder::Hash32;

const POLKADOT_GENESIS: [u8; 32] = [
    0x91, 0xb1, 0x71, 0xbb, 0x15, 0x8e, 0x2d, 0x38, 0x48, 0xfa, 0x23, 0xa9, 0xf1, 0xc2, 0x51,
    0x82, 0xfb, 0x8e, 0x20, 0x31, 0x3b, 0x2c, 0x1e, 0xb4, 0x92, 0x19, 0xda, 0x7a, 0x70, 0xce,
    0x90, 0xc3,
];

fn genesis() -> Hash32 {
    Hash32::from_bytes(POLKADOT_GENESIS.to_vec()).unwrap()
}

fn sr_pair(seed: u8) -> Keypair {
    Keypair::from_seed(Scheme::Sr25519, vec![seed; 32]).unwrap()
}

fn account_of(pair: &Keypair) -> AccountId {
    let pk = pair.public_bytes();
    let public = match pair.scheme() {
        Scheme::Ed25519 => Ed25519Public { bytes: pk }.into_runtime(),
        Scheme::Sr25519 => Sr25519Public { bytes: pk }.into_runtime(),
        Scheme::Ecdsa => EcdsaPublic { bytes: pk }.into_runtime(),
    };
    public.into_account()
}

fn transfer_to(pair: &Keypair, value: u128) -> Call {
    Call::Transfer { dest: account_of(pair), value }
}

#[test]
fn test_make_extrinsic() {
    let from = sr_pair(1);
    let to = sr_pair(2);
    let call = transfer_to(&to, 100);
    let genesis_hash = genesis();
    let xt = make_extrinsic(call.clone(), 0, &from, &genesis_hash).unwrap();

    let part = xt.signature.clone().unwrap();
    let payload = signing_payload(&call, &part.extra, &genesis_hash);
    let sig = match &part.signature {
        Signature::Sr25519(b) => b.clone(),
        other => panic!("unexpected scheme: {other:?}"),
    };
    let public = schnorrkel::PublicKey::from_bytes(&part.signer.bytes).unwrap();
    let signature = schnorrkel::Signature::from_bytes(&sig).unwrap();
    assert!(public.verify_simple(b"substrate", &payload, &signature).is_ok());
}

#[test]
fn end_to_end_transfer_scenario() {
    let from = sr_pair(3);
    let to = sr_pair(4);
    let call = transfer_to(&to, 100);
    let genesis_hash = genesis();
    let xt = make_extrinsic(call, 0, &from, &genesis_hash).unwrap();

    assert!(verify_extrinsic(&xt, &genesis_hash));
    let part = xt.signature.unwrap();
    // Under Sr25519 the account identity is the signer's public key itself.
    assert_eq!(part.signer.bytes, from.public_bytes());
    assert_eq!(part.signer, account_of(&from));
}

#[test]
fn nonce_corruption_breaks_verification() {
    let from = sr_pair(5);
    let to = sr_pair(6);
    let genesis_hash = genesis();
    let xt = make_extrinsic(transfer_to(&to, 100), 0, &from, &genesis_hash).unwrap();
    assert!(verify_extrinsic(&xt, &genesis_hash));

    let part = xt.signature.unwrap();
    let corrupted = UncheckedExtrinsic {
        function: xt.function,
        signature: Some(SignedPart {
            signer: part.signer,
            signature: part.signature,
            // nonce changed after signing
            extra: canonical_extensions(1, 0),
        }),
    };
    assert!(!verify_extrinsic(&corrupted, &genesis_hash));
}

#[test]
fn deterministic_structure_across_builds() {
    let from = sr_pair(7);
    let to = sr_pair(8);
    let genesis_hash = genesis();
    let xt1 = make_extrinsic(transfer_to(&to, 55), 9, &from, &genesis_hash).unwrap();
    let xt2 = make_extrinsic(transfer_to(&to, 55), 9, &from, &genesis_hash).unwrap();

    assert_eq!(xt1.function, xt2.function);
    let p1 = xt1.signature.as_ref().unwrap();
    let p2 = xt2.signature.as_ref().unwrap();
    assert_eq!(p1.extra, p2.extra);
    assert_eq!(p1.signer, p2.signer);
    // Sr25519 signing is randomized, so the signature bytes may differ,
    // but both envelopes must verify.
    assert!(verify_extrinsic(&xt1, &genesis_hash));
    assert!(verify_extrinsic(&xt2, &genesis_hash));
}

#[test]
fn ed25519_end_to_end() {
    let from = Keypair::from_seed(Scheme::Ed25519, vec![9; 32]).unwrap();
    let to = sr_pair(10);
    let call = transfer_to(&to, 1);
    let genesis_hash = genesis();
    let xt = make_extrinsic(call.clone(), 2, &from, &genesis_hash).unwrap();
    assert!(verify_extrinsic(&xt, &genesis_hash));

    // Cross-check the embedded signature with the scheme's own library.
    let part = xt.signature.unwrap();
    let payload = signing_payload(&call, &part.extra, &genesis_hash);
    let sig = match &part.signature {
        Signature::Ed25519(b) => b.clone(),
        other => panic!("unexpected scheme: {other:?}"),
    };
    let mut pk = [0u8; 32];
    pk.copy_from_slice(&part.signer.bytes);
    let mut sb = [0u8; 64];
    sb.copy_from_slice(&sig);
    let key = ed25519_dalek::VerifyingKey::from_bytes(&pk).unwrap();
    assert!(key.verify(&payload, &ed25519_dalek::Signature::from_bytes(&sb)).is_ok());

    // The public key really is derived, not the seed handed back.
    assert_ne!(from.public_bytes(), vec![9; 32]);
    assert_eq!(
        from.public_bytes().as_slice(),
        ed25519_dalek::SigningKey::from_bytes(&[9; 32]).verifying_key().as_bytes()
    );

    // A corrupted nonce no longer verifies under Ed25519 either.
    let corrupted = UncheckedExtrinsic {
        function: call,
        signature: Some(SignedPart {
            signer: part.signer,
            signature: part.signature,
            extra: canonical_extensions(3, 0),
        }),
    };
    assert!(!verify_extrinsic(&corrupted, &genesis_hash));
}

#[test]
fn ecdsa_end_to_end() {
    let from = Keypair::from_seed(Scheme::Ecdsa, vec![11; 32]).unwrap();
    let to = sr_pair(12);
    let genesis_hash = genesis();
    let xt = make_extrinsic(transfer_to(&to, 77), 0, &from, &genesis_hash).unwrap();
    assert!(verify_extrinsic(&xt, &genesis_hash));

    // The account identity is the 32-byte BLAKE2b digest of the compressed
    // public key, not the key itself.
    let pk = from.public_bytes();
    assert_eq!(pk.len(), 33);
    let part = xt.signature.clone().unwrap();
    let digest = blake2b_simd::Params::new().hash_length(32).hash(&pk);
    assert_eq!(part.signer.bytes, digest.as_bytes().to_vec());
    assert_ne!(part.signer.bytes, pk);

    // Tampering with the call breaks verification.
    let tampered = UncheckedExtrinsic {
        function: transfer_to(&to, 78),
        signature: xt.signature,
    };
    assert!(!verify_extrinsic(&tampered, &genesis_hash));
}

#[test]
fn keypair_seed_validation() {
    assert!(Keypair::from_seed(Scheme::Sr25519, vec![1; 31]).is_none());
    assert!(Keypair::from_seed(Scheme::Ed25519, vec![1; 33]).is_none());
    assert!(Keypair::from_seed(Scheme::Ecdsa, vec![1; 31]).is_none());
    // zero is not a usable secp256k1 secret key
    assert!(Keypair::from_seed(Scheme::Ecdsa, vec![0; 32]).is_none());
    // 0xff..ff is at least the secp256k1 group order
    assert!(Keypair::from_seed(Scheme::Ecdsa, vec![0xff; 32]).is_none());
    assert!(Keypair::from_seed(Scheme::Ecdsa, vec![1; 32]).is_some());
}

#[test]
fn supported_signature_conversions() {
    let e = Ed25519Signature { bytes: vec![7; 64] }.into_runtime();
    assert_eq!(e, Signature::Ed25519(vec![7; 64]));
    let s = Sr25519Signature { bytes: vec![8; 64] }.into_runtime();
    assert_eq!(s, Signature::Sr25519(vec![8; 64]));
    let c = EcdsaSignature { bytes: vec![9; 65] }.into_runtime();
    assert_eq!(c, Signature::Ecdsa(vec![9; 65]));
}

#[test]
fn supported_public_key_conversions() {
    let e = Ed25519Public { bytes: vec![1; 32] }.into_runtime();
    assert_eq!(e, AccountPublic::Ed25519(vec![1; 32]));
    assert_eq!(e.into_account().bytes, vec![1; 32]);

    let s = Sr25519Public { bytes: vec![2; 32] }.into_runtime();
    assert_eq!(s, AccountPublic::Sr25519(vec![2; 32]));
    assert_eq!(s.into_account().bytes, vec![2; 32]);

    let c = EcdsaPublic { bytes: vec![3; 33] }.into_runtime();
    assert_eq!(c, AccountPublic::Ecdsa(vec![3; 33]));
    let digest = blake2b_simd::Params::new().hash_length(32).hash(&[3; 33]);
    assert_eq!(c.into_account().bytes, digest.as_bytes().to_vec());
}

#[test]
fn unsigned_envelope_does_not_verify() {
    let to = sr_pair(13);
    let xt = UncheckedExtrinsic { function: transfer_to(&to, 1), signature: None };
    assert!(!verify_extrinsic(&xt, &genesis()));
}
