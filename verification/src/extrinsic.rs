use vstd::prelude::*;

use crate::adapter::account_of_public;
use crate::adapter::account_sig_verifies;
use crate::adapter::lemma_raw_to_account_verifies;
use crate::adapter::AccountId;
use crate::adapter::AccountPublic;
use crate::adapter::EcdsaPublic;
use crate::adapter::EcdsaSignature;
use crate::adapter::Ed25519Public;
use crate::adapter::Ed25519Signature;
use crate::adapter::PublicT;
use crate::adapter::Signature;
use crate::adapter::SignatureT;
use crate::adapter::Sr25519Public;
use crate::adapter::Sr25519Signature;
use crate::crypto::blake2_256;
use crate::crypto::ecdsa_recover;
use crate::crypto::verify_raw;
use crate::crypto::Keypair;
use crate::crypto::Scheme;
use crate::scale::bytes_eq;
use crate::scale::compact_of;
use crate::scale::copy_bytes;
use crate::scale::encode_compact;
use crate::scale::encode_u32_le;
use crate::scale::le_bytes_of;
use crate::scale::push_bytes;
use crate::Hash32;

verus! {

/// The runtime specification version the chain declares.
pub const SPEC_VERSION: u32 = 30;

/// The transaction format version the chain declares.
pub const TRANSACTION_VERSION: u32 = 7;

/// The index of the balances pallet in the chain's call table.
pub const BALANCES_PALLET_INDEX: u8 = 5;

/// The index of the transfer call within the balances pallet.
pub const TRANSFER_CALL_INDEX: u8 = 0;

/// A transaction lifetime. This version models only immortal transactions,
/// anchored to the genesis hash.
#[derive(Clone, Copy, PartialEq, Eq, Structural, Debug)]
pub enum Era {
    Immortal,
}

/// One validation check of the chain's declared extension set, in the shape
/// it is embedded in the envelope. Checks that carry no envelope data are
/// bare; the mortality, nonce and fee checks carry theirs.
#[derive(Clone, Copy, PartialEq, Eq, Structural, Debug)]
pub enum SignedExtension {
    SpecVersion,
    TxVersion,
    Genesis,
    Mortality(Era),
    Nonce(u32),
    Weight,
    Payment(u128),
    Attests,
}

/// The value one extension commits to in the signing payload without
/// embedding it in the envelope: a version number, a hash anchor, or
/// nothing.
#[derive(Clone, Debug, PartialEq)]
pub enum AdditionalSigned {
    Version(u32),
    Anchor(Vec<u8>),
    Unit,
}

/// The chain-defined operation being authorized.
#[derive(Clone, Debug, PartialEq)]
pub enum Call {
    Transfer { dest: AccountId, value: u128 },
}

impl Call {
    /// A well-formed call carries a well-formed destination account.
    pub open spec fn wf(self) -> bool {
        match self {
            Call::Transfer { dest, .. } => dest.wf(),
        }
    }
}

/// The canonical encoding of a call: pallet index, call index, then the
/// call's arguments in order, with no padding.
pub open spec fn call_bytes_of(c: Call) -> Seq<u8> {
    match c {
        Call::Transfer { dest, value } => seq![BALANCES_PALLET_INDEX, TRANSFER_CALL_INDEX]
            + dest.bytes@ + compact_of(value as nat),
    }
}

/// The canonical encoding of an era: a single zero byte for an immortal
/// transaction.
pub open spec fn era_bytes_of(e: Era) -> Seq<u8> {
    match e {
        Era::Immortal => seq![0u8],
    }
}

/// What one extension contributes to the envelope and to the signing
/// payload's extension section.
pub open spec fn extension_bytes_of(e: SignedExtension) -> Seq<u8> {
    match e {
        SignedExtension::SpecVersion => Seq::empty(),
        SignedExtension::TxVersion => Seq::empty(),
        SignedExtension::Genesis => Seq::empty(),
        SignedExtension::Mortality(era) => era_bytes_of(era),
        SignedExtension::Nonce(n) => compact_of(n as nat),
        SignedExtension::Weight => Seq::empty(),
        SignedExtension::Payment(t) => compact_of(t as nat),
        SignedExtension::Attests => Seq::empty(),
    }
}

/// The extension section of the signing payload: each extension's bytes in
/// tuple order, concatenated.
pub open spec fn extensions_bytes_of(s: Seq<SignedExtension>) -> Seq<u8>
    decreases s.len(),
{
    if s.len() == 0 {
        Seq::empty()
    } else {
        extension_bytes_of(s[0]) + extensions_bytes_of(s.skip(1))
    }
}

/// What one extension commits to in the additional-signed section: the
/// runtime versions for the version checks, the genesis hash for the
/// genesis check and for the immortal mortality anchor, nothing otherwise.
pub open spec fn additional_bytes_for(e: SignedExtension, genesis: Seq<u8>) -> Seq<u8> {
    match e {
        SignedExtension::SpecVersion => le_bytes_of(SPEC_VERSION as nat, 4),
        SignedExtension::TxVersion => le_bytes_of(TRANSACTION_VERSION as nat, 4),
        SignedExtension::Genesis => genesis,
        SignedExtension::Mortality(_) => genesis,
        SignedExtension::Nonce(_) => Seq::empty(),
        SignedExtension::Weight => Seq::empty(),
        SignedExtension::Payment(_) => Seq::empty(),
        SignedExtension::Attests => Seq::empty(),
    }
}

/// The additional-signed section of the signing payload: position for
/// position with the extension tuple, concatenated.
pub open spec fn additional_list_bytes_of(s: Seq<SignedExtension>, genesis: Seq<u8>) -> Seq<u8>
    decreases s.len(),
{
    if s.len() == 0 {
        Seq::empty()
    } else {
        additional_bytes_for(s[0], genesis) + additional_list_bytes_of(s.skip(1), genesis)
    }
}

/// The encoding of one additional-signed value.
pub open spec fn additional_bytes_of(a: AdditionalSigned) -> Seq<u8> {
    match a {
        AdditionalSigned::Version(v) => le_bytes_of(v as nat, 4),
        AdditionalSigned::Anchor(h) => h@,
        AdditionalSigned::Unit => Seq::empty(),
    }
}

/// Whether an additional-signed value is the one its extension commits to:
/// the matching variant, carrying the matching data.
pub open spec fn additional_matches(a: AdditionalSigned, e: SignedExtension, genesis: Seq<u8>) -> bool {
    match e {
        SignedExtension::SpecVersion => a matches AdditionalSigned::Version(v) && v == SPEC_VERSION,
        SignedExtension::TxVersion => a matches AdditionalSigned::Version(v) && v
            == TRANSACTION_VERSION,
        SignedExtension::Genesis => a matches AdditionalSigned::Anchor(h) && h@ == genesis,
        SignedExtension::Mortality(_) => a matches AdditionalSigned::Anchor(h) && h@ == genesis,
        SignedExtension::Nonce(_) => a is Unit,
        SignedExtension::Weight => a is Unit,
        SignedExtension::Payment(_) => a is Unit,
        SignedExtension::Attests => a is Unit,
    }
}

/// A matching additional-signed value encodes to exactly the bytes its
/// extension commits to.
proof fn lemma_additional_matches_bytes(a: AdditionalSigned, e: SignedExtension, genesis: Seq<u8>)
    requires
        additional_matches(a, e, genesis),
    ensures
        additional_bytes_of(a) == additional_bytes_for(e, genesis),
{
}

/// The chain's declared extension order, with the nonce bound into its slot
/// and the fee check holding the tip.
pub open spec fn canonical_extensions_of(nonce: u32, tip: u128) -> Seq<SignedExtension> {
    seq![
        SignedExtension::SpecVersion,
        SignedExtension::TxVersion,
        SignedExtension::Genesis,
        SignedExtension::Mortality(Era::Immortal),
        SignedExtension::Nonce(nonce),
        SignedExtension::Weight,
        SignedExtension::Payment(tip),
        SignedExtension::Attests,
    ]
}

/// The bytes to be signed: the call, the extension tuple, then the
/// additional-signed tuple, each in canonical encoding, concatenated with
/// no padding.
pub open spec fn signing_payload_of(call: Call, ext: Seq<SignedExtension>, genesis: Seq<u8>) -> Seq<
    u8,
> {
    call_bytes_of(call) + extensions_bytes_of(ext) + additional_list_bytes_of(ext, genesis)
}

proof fn lemma_extensions_bytes_push(s: Seq<SignedExtension>, e: SignedExtension)
    ensures
        extensions_bytes_of(s.push(e)) == extensions_bytes_of(s) + extension_bytes_of(e),
    decreases s.len(),
{
    if s.len() == 0 {
        assert(s.push(e)[0] == e);
        assert(s.push(e).skip(1) =~= Seq::<SignedExtension>::empty());
        assert(extensions_bytes_of(Seq::<SignedExtension>::empty()) == Seq::<u8>::empty());
        assert(extensions_bytes_of(s.push(e)) == extension_bytes_of(e) + Seq::<u8>::empty());
        assert(extension_bytes_of(e) + Seq::<u8>::empty() =~= extension_bytes_of(e));
        assert(extensions_bytes_of(s) + extension_bytes_of(e) =~= extension_bytes_of(e));
    } else {
        lemma_extensions_bytes_push(s.skip(1), e);
        assert(s.push(e).skip(1) =~= s.skip(1).push(e));
        assert(extension_bytes_of(s[0]) + (extensions_bytes_of(s.skip(1)) + extension_bytes_of(e))
            =~= (extension_bytes_of(s[0]) + extensions_bytes_of(s.skip(1))) + extension_bytes_of(
            e,
        ));
    }
}

proof fn lemma_additional_list_push(s: Seq<SignedExtension>, e: SignedExtension, genesis: Seq<u8>)
    ensures
        additional_list_bytes_of(s.push(e), genesis) == additional_list_bytes_of(s, genesis)
            + additional_bytes_for(e, genesis),
    decreases s.len(),
{
    if s.len() == 0 {
        assert(s.push(e)[0] == e);
        assert(s.push(e).skip(1) =~= Seq::<SignedExtension>::empty());
        assert(additional_list_bytes_of(Seq::<SignedExtension>::empty(), genesis)
            == Seq::<u8>::empty());
        assert(additional_list_bytes_of(s.push(e), genesis) == additional_bytes_for(e, genesis)
            + Seq::<u8>::empty());
        assert(additional_bytes_for(e, genesis) + Seq::<u8>::empty() =~= additional_bytes_for(
            e,
            genesis,
        ));
        assert(additional_list_bytes_of(s, genesis) + additional_bytes_for(e, genesis)
            =~= additional_bytes_for(e, genesis));
    } else {
        lemma_additional_list_push(s.skip(1), e, genesis);
        assert(s.push(e).skip(1) =~= s.skip(1).push(e));
        assert(additional_bytes_for(s[0], genesis) + (additional_list_bytes_of(s.skip(1), genesis)
            + additional_bytes_for(e, genesis)) =~= (additional_bytes_for(s[0], genesis)
            + additional_list_bytes_of(s.skip(1), genesis)) + additional_bytes_for(e, genesis));
    }
}

/// Encodes a call in the canonical form.
pub fn encode_call(c: &Call) -> (r: Vec<u8>)
    ensures
        r@ == call_bytes_of(*c),
{
    match c {
        Call::Transfer { dest, value } => {
            let mut out: Vec<u8> = Vec::new();
            out.push(BALANCES_PALLET_INDEX);
            out.push(TRANSFER_CALL_INDEX);
            push_bytes(&mut out, &dest.bytes);
            let vb = encode_compact(*value);
            push_bytes(&mut out, &vb);
            proof {
                assert(out@ =~= call_bytes_of(*c));
            }
            out
        },
    }
}

/// Encodes one extension's envelope bytes.
pub fn encode_extension(e: &SignedExtension) -> (r: Vec<u8>)
    ensures
        r@ == extension_bytes_of(*e),
{
    match e {
        SignedExtension::Mortality(era) => {
            match era {
                Era::Immortal => {
                    let mut out: Vec<u8> = Vec::new();
                    out.push(0u8);
                    proof {
                        assert(out@ =~= era_bytes_of(Era::Immortal));
                    }
                    out
                },
            }
        },
        SignedExtension::Nonce(n) => encode_compact(*n as u128),
        SignedExtension::Payment(t) => encode_compact(*t),
        _ => {
            let out: Vec<u8> = Vec::new();
            proof {
                assert(out@ =~= extension_bytes_of(*e));
            }
            out
        },
    }
}

/// Encodes an extension tuple: each extension's bytes in order.
pub fn encode_extensions(ext: &Vec<SignedExtension>) -> (r: Vec<u8>)
    ensures
        r@ == extensions_bytes_of(ext@),
{
    let mut out: Vec<u8> = Vec::new();
    let mut i: usize = 0;
    while i < ext.len()
        invariant
            i <= ext@.len(),
            out@ == extensions_bytes_of(ext@.take(i as int)),
        decreases ext@.len() - i,
    {
        let eb = encode_extension(&ext[i]);
        proof {
            assert(ext@.take(i as int).push(ext@[i as int]) =~= ext@.take(i as int + 1));
            lemma_extensions_bytes_push(ext@.take(i as int), ext@[i as int]);
        }
        push_bytes(&mut out, &eb);
        i = i + 1;
    }
    proof {
        assert(ext@.take(ext@.len() as int) =~= ext@);
    }
    out
}

/// Encodes one additional-signed value.
pub fn encode_additional_value(a: &AdditionalSigned) -> (r: Vec<u8>)
    ensures
        r@ == additional_bytes_of(*a),
{
    match a {
        AdditionalSigned::Version(v) => encode_u32_le(*v),
        AdditionalSigned::Anchor(h) => copy_bytes(h),
        AdditionalSigned::Unit => Vec::new(),
    }
}

/// Builds the additional-signed tuple beside an extension tuple: the same
/// length, and position for position the value each extension commits to.
pub fn additional_tuple(ext: &Vec<SignedExtension>, genesis: &Hash32) -> (r: Vec<AdditionalSigned>)
    ensures
        r@.len() == ext@.len(),
        forall|i: int|
            0 <= i < ext@.len() ==> additional_matches(#[trigger] r@[i], ext@[i], genesis.bytes@),
{
    let mut out: Vec<AdditionalSigned> = Vec::new();
    let mut i: usize = 0;
    while i < ext.len()
        invariant
            i <= ext@.len(),
            out@.len() == i,
            forall|j: int|
                0 <= j < i ==> additional_matches(#[trigger] out@[j], ext@[j], genesis.bytes@),
        decreases ext@.len() - i,
    {
        let a = match &ext[i] {
            SignedExtension::SpecVersion => AdditionalSigned::Version(SPEC_VERSION),
            SignedExtension::TxVersion => AdditionalSigned::Version(TRANSACTION_VERSION),
            SignedExtension::Genesis => AdditionalSigned::Anchor(copy_bytes(&genesis.bytes)),
            SignedExtension::Mortality(_) => AdditionalSigned::Anchor(copy_bytes(&genesis.bytes)),
            _ => AdditionalSigned::Unit,
        };
        out.push(a);
        i = i + 1;
    }
    out
}

/// Builds the extension tuple in the chain's declared order, the nonce in
/// its slot and the fee check holding the tip.
pub fn canonical_extensions(nonce: u32, tip: u128) -> (r: Vec<SignedExtension>)
    ensures
        r@ == canonical_extensions_of(nonce, tip),
{
    let mut out: Vec<SignedExtension> = Vec::new();
    out.push(SignedExtension::SpecVersion);
    out.push(SignedExtension::TxVersion);
    out.push(SignedExtension::Genesis);
    out.push(SignedExtension::Mortality(Era::Immortal));
    out.push(SignedExtension::Nonce(nonce));
    out.push(SignedExtension::Weight);
    out.push(SignedExtension::Payment(tip));
    out.push(SignedExtension::Attests);
    proof {
        assert(out@ =~= canonical_extensions_of(nonce, tip));
    }
    out
}

/// Builds the signing payload from a call, an extension tuple and the
/// genesis hash: the call bytes, the extension bytes, then the bytes of the
/// additional-signed tuple recomputed beside the extensions.
pub fn signing_payload(call: &Call, ext: &Vec<SignedExtension>, genesis: &Hash32) -> (r: Vec<u8>)
    ensures
        r@ == signing_payload_of(*call, ext@, genesis.bytes@),
{
    let adds = additional_tuple(ext, genesis);
    let mut out = encode_call(call);
    let eb = encode_extensions(ext);
    push_bytes(&mut out, &eb);
    let ghost mid = out@;
    assert(mid == call_bytes_of(*call) + extensions_bytes_of(ext@));
    let mut i: usize = 0;
    while i < adds.len()
        invariant
            adds@.len() == ext@.len(),
            forall|j: int|
                0 <= j < ext@.len() ==> additional_matches(
                    #[trigger] adds@[j],
                    ext@[j],
                    genesis.bytes@,
                ),
            i <= adds@.len(),
            out@ == mid + additional_list_bytes_of(ext@.take(i as int), genesis.bytes@),
        decreases adds@.len() - i,
    {
        let ab = encode_additional_value(&adds[i]);
        proof {
            lemma_additional_matches_bytes(adds@[i as int], ext@[i as int], genesis.bytes@);
            assert(ext@.take(i as int).push(ext@[i as int]) =~= ext@.take(i as int + 1));
            lemma_additional_list_push(ext@.take(i as int), ext@[i as int], genesis.bytes@);
        }
        push_bytes(&mut out, &ab);
        i = i + 1;
    }
    proof {
        assert(ext@.take(ext@.len() as int) =~= ext@);
        assert(out@ =~= signing_payload_of(*call, ext@, genesis.bytes@));
    }
    out
}

/// The signed section of an envelope: who signed, the signature, and the
/// extension tuple the signature covers.
#[derive(Clone, Debug)]
pub struct SignedPart {
    pub signer: AccountId,
    pub signature: Signature,
    pub extra: Vec<SignedExtension>,
}

/// The finished envelope: the call, and for a signed transaction the signed
/// section. The additional-signed tuple is not embedded; a verifier
/// recomputes it.
#[derive(Clone, Debug)]
pub struct UncheckedExtrinsic {
    pub function: Call,
    pub signature: Option<SignedPart>,
}

impl UncheckedExtrinsic {
    /// A well-formed envelope carries a well-formed call, and in its signed
    /// section a well-formed signature and account identity.
    pub open spec fn wf(self) -> bool {
        &&& self.function.wf()
        &&& (self.signature matches Some(p) ==> p.signature.wf() && p.signer.wf())
    }
}

/// The builder's recoverable failure type. No recoverable condition is
/// raised in this version — the builder promises `Ok` — but the result
/// type keeps the call contract open for future conditions.
#[derive(Clone, Copy, Debug, PartialEq, Eq, Structural)]
pub struct BuildError;

/// What the builder promises of its output for the given inputs: the call
/// is embedded unchanged; the extension tuple is the canonical one with
/// this nonce and no tip; the account identity is the signer's public key
/// reduced to chain form; and the signature checks out, against that
/// identity, over the signing payload formed from exactly those parts.
pub open spec fn built_correctly(
    xt: UncheckedExtrinsic,
    function: Call,
    nonce: u32,
    signer: Keypair,
    genesis: Seq<u8>,
) -> bool {
    &&& xt.function == function
    &&& xt.signature matches Some(p) && {
        &&& p.extra@ == canonical_extensions_of(nonce, 0)
        &&& p.signer.bytes@ == account_of_public(signer.scheme_spec(), signer.public_spec())
        &&& p.signer.wf()
        &&& p.signature.scheme() == signer.scheme_spec()
        &&& p.signature.wf()
        &&& account_sig_verifies(
            p.signer.bytes@,
            signing_payload_of(function, canonical_extensions_of(nonce, 0), genesis),
            p.signature,
        )
    }
}

/// Builds and signs an immortal transaction envelope: assembles the
/// canonical extension tuple with the nonce bound in, signs the payload
/// formed from the call, the extensions and the recomputed
/// additional-signed values, converts signature and public key to chain
/// form, and packages the envelope. The additional-signed tuple is
/// discarded after signing.
pub fn make_extrinsic(function: Call, nonce: u32, signer: &Keypair, genesis_hash: &Hash32) -> (r:
    Result<UncheckedExtrinsic, BuildError>)
    ensures
        r is Ok,
        built_correctly(r.unwrap(), function, nonce, *signer, genesis_hash.bytes@),
{
    let extra = canonical_extensions(nonce, 0);
    let payload = signing_payload(&function, &extra, genesis_hash);
    let raw_sig = signer.sign_raw(&payload);
    let raw_pk = signer.public_bytes();
    let signature: Signature = match signer.scheme() {
        Scheme::Ed25519 => (Ed25519Signature { bytes: raw_sig }).into_runtime(),
        Scheme::Sr25519 => (Sr25519Signature { bytes: raw_sig }).into_runtime(),
        Scheme::Ecdsa => (EcdsaSignature { bytes: raw_sig }).into_runtime(),
    };
    let public: AccountPublic = match signer.scheme() {
        Scheme::Ed25519 => (Ed25519Public { bytes: raw_pk }).into_runtime(),
        Scheme::Sr25519 => (Sr25519Public { bytes: raw_pk }).into_runtime(),
        Scheme::Ecdsa => (EcdsaPublic { bytes: raw_pk }).into_runtime(),
    };
    let signer_account = public.into_account();
    proof {
        lemma_raw_to_account_verifies(
            signer.scheme_spec(),
            signer.public_spec(),
            payload@,
            signature,
        );
    }
    Ok(
        UncheckedExtrinsic {
            function,
            signature: Some(
                SignedPart { signer: signer_account, signature, extra },
            ),
        },
    )
}

/// Whether an envelope verifies against a chain: the signing payload is
/// rebuilt from the envelope's own call and extension tuple plus the
/// recomputed additional-signed values, and the signature must check out
/// against the embedded account identity.
pub open spec fn extrinsic_verifies(xt: UncheckedExtrinsic, genesis: Seq<u8>) -> bool {
    xt.signature matches Some(p) && account_sig_verifies(
        p.signer.bytes@,
        signing_payload_of(xt.function, p.extra@, genesis),
        p.signature,
    )
}

/// Checks an envelope's signature as the verifying counterparty would,
/// rebuilding the signing payload independently from the envelope and the
/// genesis hash.
pub fn verify_extrinsic(xt: &UncheckedExtrinsic, genesis_hash: &Hash32) -> (r: bool)
    requires
        xt.wf(),
    ensures
        r == extrinsic_verifies(*xt, genesis_hash.bytes@),
{
    match &xt.signature {
        None => false,
        Some(p) => {
            let payload = signing_payload(&xt.function, &p.extra, genesis_hash);
            match &p.signature {
                Signature::Ed25519(b) => verify_raw(
                    Scheme::Ed25519,
                    &p.signer.bytes,
                    &payload,
                    b,
                ),
                Signature::Sr25519(b) => verify_raw(
                    Scheme::Sr25519,
                    &p.signer.bytes,
                    &payload,
                    b,
                ),
                Signature::Ecdsa(b) => {
                    let h = blake2_256(&payload);
                    match ecdsa_recover(&h, b) {
                        None => false,
                        Some(rec) => {
                            let acct = blake2_256(&rec);
                            bytes_eq(&acct, &p.signer.bytes)
                        },
                    }
                },
            }
        },
    }
}

/// Round trip: an envelope the builder produced still verifies when the
/// signing payload is rebuilt from the envelope's own embedded call and
/// extension tuple together with a freshly recomputed additional-signed
/// tuple.
pub proof fn lemma_round_trip(
    xt: UncheckedExtrinsic,
    function: Call,
    nonce: u32,
    signer: Keypair,
    genesis: Seq<u8>,
)
    requires
        built_correctly(xt, function, nonce, signer, genesis),
    ensures
        extrinsic_verifies(xt, genesis),
{
}

/// Determinism of structure: two envelopes built from identical inputs
/// carry the same call, the same extension tuple and the same account
/// identity, and both verify; only the signature bytes may differ under a
/// randomized scheme.
pub proof fn lemma_deterministic_structure(
    xt1: UncheckedExtrinsic,
    xt2: UncheckedExtrinsic,
    function: Call,
    nonce: u32,
    signer: Keypair,
    genesis: Seq<u8>,
)
    requires
        built_correctly(xt1, function, nonce, signer, genesis),
        built_correctly(xt2, function, nonce, signer, genesis),
    ensures
        xt1.function == xt2.function,
        xt1.signature.unwrap().extra@ == xt2.signature.unwrap().extra@,
        xt1.signature.unwrap().signer.bytes@ == xt2.signature.unwrap().signer.bytes@,
        extrinsic_verifies(xt1, genesis),
        extrinsic_verifies(xt2, genesis),
{
    lemma_round_trip(xt1, function, nonce, signer, genesis);
    lemma_round_trip(xt2, function, nonce, signer, genesis);
}

} // verus!
