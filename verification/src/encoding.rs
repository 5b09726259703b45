//! The wire encoding of signatures and subpackets, as functions from what a
//! value stands for to the octets that say so.
//!
//! Nothing here runs: the encoding is the yardstick that the grammar is
//! held against.

use vstd::prelude::*;
use vstd::utf8::encode_utf8;
use crate::codes::SubpacketType;
use crate::grammar::spec_signature_integers;
use crate::lists::{AeadAlgorithms, CompressionAlgorithms, HashAlgorithms, SymmetricAlgorithms};
use crate::signature::{SignatureView, SubpacketView};
use crate::codes::Version;
use crate::wire::{spec_u16_octets, spec_u32_octets};

verus! {

/// The shortest encoding of a subpacket length: one octet below 192, two
/// octets below 16320, five octets from there on.
#[verifier::opaque]
pub open spec fn spec_length_octets(n: int) -> Seq<u8>
    recommends
        0 <= n < 0x1_0000_0000,
{
    if n < 192 {
        seq![n as u8]
    } else if n < 16320 {
        seq![((n - 192) / 0x100 + 192) as u8, ((n - 192) % 0x100) as u8]
    } else {
        seq![255u8] + spec_u32_octets(n)
    }
}

/// The octets of a multi-precision integer with the given value octets:
/// the count of bits in whole octets, then the octets.
pub open spec fn spec_mpi_octets(value: Seq<u8>) -> Seq<u8> {
    spec_u16_octets(8 * (value.len() as int)) + value
}

/// The octets of a run of multi-precision integers.
pub open spec fn spec_mpis_octets(values: Seq<Seq<u8>>) -> Seq<u8>
    decreases values.len(),
{
    if values.len() == 0 {
        Seq::empty()
    } else {
        spec_mpi_octets(values[0]) + spec_mpis_octets(values.skip(1))
    }
}

/// The kind of a subpacket.
pub open spec fn spec_kind(v: SubpacketView) -> SubpacketType {
    match v {
        SubpacketView::SignatureCreationTime(_) => SubpacketType::SignatureCreationTime,
        SubpacketView::SignatureExpirationTime(_) => SubpacketType::SignatureExpirationTime,
        SubpacketView::KeyExpirationTime(_) => SubpacketType::KeyExpirationTime,
        SubpacketView::Issuer(_) => SubpacketType::Issuer,
        SubpacketView::PreferredSymmetricAlgorithms(_) => SubpacketType::PreferredSymmetricAlgorithms,
        SubpacketView::PreferredHashAlgorithms(_) => SubpacketType::PreferredHashAlgorithms,
        SubpacketView::PreferredCompressionAlgorithms(_) => SubpacketType::PreferredCompressionAlgorithms,
        SubpacketView::KeyServerPreferences(_) => SubpacketType::KeyServerPreferences,
        SubpacketView::KeyFlags(_) => SubpacketType::KeyFlags,
        SubpacketView::Features(_) => SubpacketType::Features,
        SubpacketView::RevocationReason(_, _) => SubpacketType::RevocationReason,
        SubpacketView::IsPrimary(_) => SubpacketType::PrimaryUserId,
        SubpacketView::Revocable(_) => SubpacketType::Revocable,
        SubpacketView::EmbeddedSignature(_) => SubpacketType::EmbeddedSignature,
        SubpacketView::PreferredKeyServer(_) => SubpacketType::PreferredKeyServer,
        SubpacketView::Notation(_) => SubpacketType::Notation,
        SubpacketView::RevocationKey(_) => SubpacketType::RevocationKey,
        SubpacketView::SignersUserID(_) => SubpacketType::SignersUserID,
        SubpacketView::PolicyURI(_) => SubpacketType::PolicyURI,
        SubpacketView::TrustSignature(_, _) => SubpacketType::TrustSignature,
        SubpacketView::RegularExpression(_) => SubpacketType::RegularExpression,
        SubpacketView::ExportableCertification(_) => SubpacketType::ExportableCertification,
        SubpacketView::IssuerFingerprint(_, _) => SubpacketType::IssuerFingerprint,
        SubpacketView::PreferredAeadAlgorithms(_) => SubpacketType::PreferredAead,
        SubpacketView::Experimental(tag, _) => SubpacketType::Experimental(tag),
        SubpacketView::Other(tag, _) => SubpacketType::Other(tag),
        SubpacketView::SignatureTarget(_, _, _) => SubpacketType::SignatureTarget,
    }
}

/// The octet of a flag: 1 for yes, 0 for no.
pub open spec fn spec_flag_octet(b: bool) -> u8 {
    if b {
        1
    } else {
        0
    }
}

/// The body of a subpacket.
pub open spec fn spec_body(v: SubpacketView) -> Seq<u8>
    decreases v, 0nat,
{
    match v {
        SubpacketView::SignatureCreationTime(t) => spec_u32_octets(t),
        SubpacketView::SignatureExpirationTime(t) => spec_u32_octets(t),
        SubpacketView::KeyExpirationTime(t) => spec_u32_octets(t),
        SubpacketView::Issuer(id) => id,
        SubpacketView::PreferredSymmetricAlgorithms(l) => SymmetricAlgorithms::spec_to_codes(l),
        SubpacketView::PreferredHashAlgorithms(l) => HashAlgorithms::spec_to_codes(l),
        SubpacketView::PreferredCompressionAlgorithms(l) => CompressionAlgorithms::spec_to_codes(l),
        SubpacketView::KeyServerPreferences(b) => b,
        SubpacketView::KeyFlags(b) => b,
        SubpacketView::Features(b) => b,
        SubpacketView::RevocationReason(code, text) => seq![code.spec_to_u8()] + encode_utf8(text),
        SubpacketView::IsPrimary(b) => seq![spec_flag_octet(b)],
        SubpacketView::Revocable(b) => seq![spec_flag_octet(b)],
        SubpacketView::EmbeddedSignature(sig) => spec_signature_octets(*sig),
        SubpacketView::PreferredKeyServer(text) => encode_utf8(text),
        SubpacketView::Notation(n) => seq![if n.readable { 0x80u8 } else { 0u8 }, 0u8, 0u8, 0u8]
            + spec_u16_octets(encode_utf8(n.name).len() as int) + spec_u16_octets(
            encode_utf8(n.value).len() as int,
        ) + encode_utf8(n.name) + encode_utf8(n.value),
        SubpacketView::RevocationKey(k) => seq![k.class.spec_to_u8(), k.algorithm.spec_to_u8()]
            + k.fingerprint,
        SubpacketView::SignersUserID(text) => encode_utf8(text),
        SubpacketView::PolicyURI(text) => encode_utf8(text),
        SubpacketView::TrustSignature(level, amount) => seq![level, amount],
        SubpacketView::RegularExpression(text) => encode_utf8(text),
        SubpacketView::ExportableCertification(b) => seq![spec_flag_octet(b)],
        SubpacketView::IssuerFingerprint(version, fp) => seq![version.spec_to_u8()] + fp,
        SubpacketView::PreferredAeadAlgorithms(l) => AeadAlgorithms::spec_to_codes(l),
        SubpacketView::Experimental(_, body) => body,
        SubpacketView::Other(_, body) => body,
        SubpacketView::SignatureTarget(pub_alg, hash_alg, digest) => seq![
            pub_alg.spec_to_u8(),
            hash_alg.spec_to_u8(),
        ] + digest,
    }
}

/// A whole subpacket: its length, its tag, its body.
pub open spec fn spec_subpacket_octets(v: SubpacketView) -> Seq<u8>
    decreases v, 1nat,
{
    spec_length_octets(1 + (spec_body(v).len() as int)) + seq![spec_kind(v).spec_to_u8()] + spec_body(v)
}

/// The subpackets from position `from` on, one after the other.
pub open spec fn spec_area_octets_from(vs: Seq<SubpacketView>, from: int) -> Seq<u8>
    decreases vs, vs.len() - from,
{
    if 0 <= from < vs.len() {
        spec_subpacket_octets(vs[from]) + spec_area_octets_from(vs, from + 1)
    } else {
        Seq::empty()
    }
}

/// A subpacket area: its subpackets, one after the other.
pub open spec fn spec_area_octets(vs: Seq<SubpacketView>) -> Seq<u8>
    decreases vs, vs.len() + 1,
{
    spec_area_octets_from(vs, 0)
}

/// What follows the version octet in the body of a signature packet.
pub open spec fn spec_signature_fields(s: SignatureView) -> Seq<u8>
    decreases s, 0nat,
{
    if s.version.is_legacy() {
        seq![5u8, s.typ.spec_to_u8()] + spec_u32_octets(s.created->Some_0) + s.issuer->Some_0
            + seq![s.pub_alg.spec_to_u8(), s.hash_alg.spec_to_u8()] + s.signed_hash_value
            + spec_mpis_octets(s.signature)
    } else {
        seq![s.typ.spec_to_u8(), s.pub_alg.spec_to_u8(), s.hash_alg.spec_to_u8()]
            + spec_u16_octets(spec_area_octets(s.hashed_subpackets).len() as int)
            + spec_area_octets(s.hashed_subpackets) + spec_u16_octets(
            spec_area_octets(s.unhashed_subpackets).len() as int,
        ) + spec_area_octets(s.unhashed_subpackets) + s.signed_hash_value + spec_mpis_octets(
            s.signature,
        )
    }
}

/// The body of a signature packet: the version octet, then the fields in
/// the layout of that version.
pub open spec fn spec_signature_octets(s: SignatureView) -> Seq<u8>
    decreases s, 1nat,
{
    seq![s.version.spec_to_u8()] + spec_signature_fields(s)
}

/// True for the values of an integer that the parser hands out: no
/// leading zero octet, and few enough octets for a count of bits in sixteen bits.
pub open spec fn spec_mpi_canonical(value: Seq<u8>) -> bool {
    &&& 8 * value.len() < 0x1_0000
    &&& value.len() > 0 ==> value[0] != 0
}

/// True for the subpackets that have an encoding which the parser reads
/// back, following embedded signatures `depth` levels down.
pub open spec fn spec_encodable(v: SubpacketView, depth: nat) -> bool
    decreases v,
{
    &&& 1 + spec_body(v).len() < 0x1_0000_0000
    &&& match v {
        SubpacketView::SignatureCreationTime(t) => 0 <= t < 0x1_0000_0000,
        SubpacketView::SignatureExpirationTime(t) => 0 <= t < 0x1_0000_0000,
        SubpacketView::KeyExpirationTime(t) => 0 <= t < 0x1_0000_0000,
        SubpacketView::Issuer(id) => id.len() == 8,
        SubpacketView::Notation(n) => encode_utf8(n.name).len() < 0x1_0000 && encode_utf8(
            n.value,
        ).len() < 0x1_0000,
        SubpacketView::RevocationKey(k) => k.fingerprint.len() == 20,
        SubpacketView::Experimental(tag, _) => 100 <= tag <= 110,
        SubpacketView::Other(tag, _) => SubpacketType::spec_from_u8(tag) == SubpacketType::Other(
            tag,
        ),
        SubpacketView::EmbeddedSignature(sig) => depth > 0 && sig.packet_version == Version::New
            && spec_signature_encodable(*sig, (depth - 1) as nat),
        _ => true,
    }
}

/// True for the signatures that have an encoding which the parser reads
/// back, following embedded signatures `depth` levels down.
pub open spec fn spec_signature_encodable(s: SignatureView, depth: nat) -> bool
    decreases s,
{
    &&& s.signed_hash_value.len() == 2
    &&& s.signature.len() == spec_signature_integers(s.pub_alg)
    &&& forall|i: int| 0 <= i < s.signature.len() ==> spec_mpi_canonical(#[trigger] s.signature[i])
    &&& if s.version.is_legacy() {
        &&& s.created is Some
        &&& 0 <= s.created->Some_0 < 0x1_0000_0000
        &&& s.issuer is Some
        &&& s.issuer->Some_0.len() == 8
        &&& s.hashed_subpackets.len() == 0
        &&& s.unhashed_subpackets.len() == 0
    } else {
        &&& s.created is None
        &&& s.issuer is None
        &&& spec_area_octets(s.hashed_subpackets).len() < 0x1_0000
        &&& spec_area_octets(s.unhashed_subpackets).len() < 0x1_0000
        &&& forall|i: int|
            0 <= i < s.hashed_subpackets.len() ==> spec_encodable(
                #[trigger] s.hashed_subpackets[i],
                depth,
            )
        &&& forall|i: int|
            0 <= i < s.unhashed_subpackets.len() ==> spec_encodable(
                #[trigger] s.unhashed_subpackets[i],
                depth,
            )
    }
}

} // verus!
