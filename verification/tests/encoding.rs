use extrinsic_builder::adapter::AccountId;
use extrinsic_builder::extrinsic::{
    additional_tuple, canonical_extensions, encode_call, encode_extension, encode_extensions,
    signing_payload, AdditionalSigned, Call, Era, SignedExtension, SPEC_VERSION,
    TRANSACTION_VERSION,
};
use extrinsic_builder::scale::{encode_compact, encode_u32_le};
use extrinsic_builder::Hash32;
use parity_scale_codec::{Compact, Encode};

fn genesis() -> Hash32 {
    Hash32::from_bytes(vec![0xab; 32]).unwrap()
}

#[test]
fn compact_small_values() {
    assert_eq!(encode_compact(0), vec![0x00]);
    assert_eq!(encode_compact(1), vec![0x04]);
    assert_eq!(encode_compact(42), vec![0xa8]);
    assert_eq!(encode_compact(63), vec![0xfc]);
}

#[test]
fn compact_two_byte_values() {
    assert_eq!(encode_compact(64), vec![0x01, 0x01]);
    assert_eq!(encode_compact(100), vec![0x91, 0x01]);
    assert_eq!(encode_compact(16383), vec![0xfd, 0xff]);
}

#[test]
fn compact_four_byte_values() {
    assert_eq!(encode_compact(16384), vec![0x02, 0x00, 0x01, 0x00]);
    assert_eq!(encode_compact(1073741823), vec![0xfe, 0xff, 0xff, 0xff]);
}

#[test]
fn compact_big_mode_values() {
    assert_eq!(encode_compact(1073741824), vec![0x03, 0x00, 0x00, 0x00, 0x40]);
    assert_eq!(
        encode_compact(u64::MAX as u128),
        vec![0x13, 0xff, 0xff, 0xff, 0xff, 0xff, 0xff, 0xff, 0xff]
    );
}

#[test]
fn compact_matches_reference_codec() {
    let samples: Vec<u128> = vec![
        0,
        1,
        63,
        64,
        255,
        16383,
        16384,
        65536,
        1073741823,
        1073741824,
        1u128 << 40,
        u32::MAX as u128,
        u64::MAX as u128,
        1u128 << 100,
        u128::MAX,
    ];
    for v in samples {
        assert_eq!(encode_compact(v), Compact(v).encode(), "value {v}");
    }
}

#[test]
fn u32_le_matches_reference_codec() {
    for v in [0u32, 1, 256, 65536, 30, 7, u32::MAX] {
        assert_eq!(encode_u32_le(v), v.to_le_bytes().to_vec());
        assert_eq!(encode_u32_le(v), v.encode());
    }
}

#[test]
fn call_encoding_exact() {
    let dest = AccountId::from_bytes(vec![0x11; 32]).unwrap();
    let call = Call::Transfer { dest, value: 100 };
    let mut expected = vec![5u8, 0u8];
    expected.extend_from_slice(&[0x11; 32]);
    expected.extend_from_slice(&Compact(100u128).encode());
    assert_eq!(encode_call(&call), expected);
}

#[test]
fn extension_tuple_order() {
    let ext = canonical_extensions(9, 5);
    assert_eq!(
        ext,
        vec![
            SignedExtension::SpecVersion,
            SignedExtension::TxVersion,
            SignedExtension::Genesis,
            SignedExtension::Mortality(Era::Immortal),
            SignedExtension::Nonce(9),
            SignedExtension::Weight,
            SignedExtension::Payment(5),
            SignedExtension::Attests,
        ]
    );
}

#[test]
fn extension_encoding_exact() {
    // era 0x00, nonce compact 0x00, tip compact 0x00; all other checks empty
    let ext = canonical_extensions(0, 0);
    assert_eq!(encode_extensions(&ext), vec![0x00, 0x00, 0x00]);
    assert_eq!(encode_extension(&SignedExtension::Nonce(100)), vec![0x91, 0x01]);
    assert_eq!(encode_extension(&SignedExtension::SpecVersion), Vec::<u8>::new());
    assert_eq!(encode_extension(&SignedExtension::Mortality(Era::Immortal)), vec![0x00]);
}

#[test]
fn additional_tuple_aligned_position_for_position() {
    let g = genesis();
    for nonce in [0u32, 7] {
        let ext = canonical_extensions(nonce, 3);
        let adds = additional_tuple(&ext, &g);
        assert_eq!(adds.len(), ext.len());
        assert_eq!(
            adds,
            vec![
                AdditionalSigned::Version(SPEC_VERSION),
                AdditionalSigned::Version(TRANSACTION_VERSION),
                AdditionalSigned::Anchor(vec![0xab; 32]),
                AdditionalSigned::Anchor(vec![0xab; 32]),
                AdditionalSigned::Unit,
                AdditionalSigned::Unit,
                AdditionalSigned::Unit,
                AdditionalSigned::Unit,
            ]
        );
    }
}

#[test]
fn signing_payload_layout() {
    let g = genesis();
    let dest = AccountId::from_bytes(vec![0x22; 32]).unwrap();
    let call = Call::Transfer { dest, value: 1 };
    let ext = canonical_extensions(0, 0);
    let payload = signing_payload(&call, &ext, &g);

    let mut expected = encode_call(&call);
    expected.extend_from_slice(&encode_extensions(&ext));
    expected.extend_from_slice(&SPEC_VERSION.to_le_bytes());
    expected.extend_from_slice(&TRANSACTION_VERSION.to_le_bytes());
    expected.extend_from_slice(&[0xab; 32]);
    expected.extend_from_slice(&[0xab; 32]);
    assert_eq!(payload, expected);
}

#[test]
fn hash32_length_checked() {
    assert!(Hash32::from_bytes(vec![1; 32]).is_some());
    assert!(Hash32::from_bytes(vec![1; 31]).is_none());
    assert!(Hash32::from_bytes(vec![]).is_none());
    assert!(AccountId::from_bytes(vec![2; 33]).is_none());
    assert!(AccountId::from_bytes(vec![2; 32]).is_some());
}
