//! The wire grammar of a signature packet, as functions on byte sequences.
//!
//! Each function reads a prefix of its input and gives back the part that it
//! did not read together with what the prefix stands for, or the failure
//! that the first offending field causes.

use vstd::prelude::*;
use crate::algorithms::{HashAlgorithm, PublicKeyAlgorithm};
use crate::codes::{
    KeyVersion, RevocationCode, RevocationKeyClass, SignatureType, SignatureVersion,
    SubpacketType, Version,
};
use crate::errors::{ErrorKind, Field, ParseError, malformed_at, short_of, unknown_at};
use crate::lists::{AeadAlgorithms, CompressionAlgorithms, HashAlgorithms, SymmetricAlgorithms};
use crate::signature::{SignatureView, SubpacketView};
use crate::text::{spec_read_string, spec_strict_text};
use crate::types::{NotationView, RevocationKeyView};
use crate::wire::{spec_be_u16, spec_be_u32, spec_mpi, spec_packet_length};

verus! {

/// How deep embedded signatures may nest before a parse gives up.
pub const MAX_EMBEDDED_DEPTH: usize = 8;

/// The failure for an embedded signature that lies deeper than allowed.
pub open spec fn too_deep() -> ParseError {
    ParseError {
        kind: ErrorKind::UnsupportedRecursion,
        field: Field::Subpacket(SubpacketType::EmbeddedSignature),
    }
}

/// A subpacket cut out of its area: its kind, its body, and what follows it.
pub struct Frame {
    pub typ: SubpacketType,
    pub body: Seq<u8>,
    pub rest: Seq<u8>,
}

/// The subpacket at the front of `input`: a variable-width length, one tag
/// octet, and a body one octet shorter than the length says.
///
/// Running out of input is `Incomplete` on a stream and `Malformed` inside
/// an area; a length of zero, which leaves no room for the tag, is
/// `Malformed` always.
pub open spec fn spec_frame(input: Seq<u8>, streaming: bool) -> Result<Frame, ParseError> {
    match spec_packet_length(input) {
        None => Err(short_of(streaming, Field::SubpacketLength)),
        Some(p) => {
            if p.length == 0 {
                Err(malformed_at(Field::SubpacketLength))
            } else if input.len() < p.octets + 1 {
                Err(short_of(streaming, Field::SubpacketTag))
            } else {
                let typ = SubpacketType::spec_from_u8(input[p.octets]);
                if input.len() < p.octets + p.length {
                    Err(short_of(streaming, Field::Subpacket(typ)))
                } else {
                    Ok(
                        Frame {
                            typ,
                            body: input.subrange(p.octets + 1, p.octets + p.length),
                            rest: input.skip(p.octets + p.length),
                        },
                    )
                }
            }
        },
    }
}

/// What a notation body stands for.
pub open spec fn spec_notation(body: Seq<u8>) -> Option<(Seq<u8>, NotationView)> {
    if body.len() < 8 || body[1] != 0 || body[2] != 0 || body[3] != 0 {
        None
    } else {
        let name_len = spec_be_u16(body.skip(4));
        let value_len = spec_be_u16(body.skip(6));
        if body.len() < 8 + name_len + value_len {
            None
        } else {
            Some(
                (
                    body.skip(8 + name_len + value_len),
                    NotationView {
                        readable: body[0] & 0x80 != 0,
                        name: spec_read_string(body.subrange(8, 8 + name_len)),
                        value: spec_read_string(
                            body.subrange(8 + name_len, 8 + name_len + value_len),
                        ),
                    },
                ),
            )
        }
    }
}

/// The grammar table: what the body of a subpacket of kind `typ` stands for,
/// and the part of the body that its grammar leaves unread.
///
/// `nested` is the outcome of reading the body as a signature packet; only
/// the embedded-signature kind looks at it. A body that ends early is
/// `Malformed`, since the frame has fixed its length; a code outside a
/// closed enumeration is `UnknownCode`. The two catch-all kinds never fail.
pub open spec fn spec_subpacket_with(
    typ: SubpacketType,
    body: Seq<u8>,
    nested: Result<(Seq<u8>, SignatureView), ParseError>,
) -> Result<(Seq<u8>, SubpacketView), ParseError> {
    let bad = malformed_at(Field::Subpacket(typ));
    let unknown = unknown_at(Field::Subpacket(typ));
    let end = Seq::<u8>::empty();
    match typ {
        SubpacketType::SignatureCreationTime => if body.len() < 4 {
            Err(bad)
        } else {
            Ok((body.skip(4), SubpacketView::SignatureCreationTime(spec_be_u32(body))))
        },
        SubpacketType::SignatureExpirationTime => if body.len() < 4 {
            Err(bad)
        } else {
            Ok((body.skip(4), SubpacketView::SignatureExpirationTime(spec_be_u32(body))))
        },
        SubpacketType::KeyExpirationTime => if body.len() < 4 {
            Err(bad)
        } else {
            Ok((body.skip(4), SubpacketView::KeyExpirationTime(spec_be_u32(body))))
        },
        SubpacketType::ExportableCertification => if body.len() < 1 {
            Err(bad)
        } else {
            Ok((body.skip(1), SubpacketView::ExportableCertification(body[0] == 1)))
        },
        SubpacketType::Revocable => if body.len() < 1 {
            Err(bad)
        } else {
            Ok((body.skip(1), SubpacketView::Revocable(body[0] == 1)))
        },
        SubpacketType::PrimaryUserId => if body.len() < 1 {
            Err(bad)
        } else {
            Ok((body.skip(1), SubpacketView::IsPrimary(body[0] == 1)))
        },
        SubpacketType::TrustSignature => if body.len() < 2 {
            Err(bad)
        } else {
            Ok((body.skip(2), SubpacketView::TrustSignature(body[0], body[1])))
        },
        SubpacketType::Issuer => if body.len() < 8 {
            Err(bad)
        } else {
            Ok((body.skip(8), SubpacketView::Issuer(body.take(8))))
        },
        SubpacketType::RegularExpression => Ok(
            (end, SubpacketView::RegularExpression(spec_read_string(body))),
        ),
        SubpacketType::PolicyURI => Ok((end, SubpacketView::PolicyURI(spec_read_string(body)))),
        SubpacketType::PreferredKeyServer => match spec_strict_text(body) {
            Some(text) => Ok((end, SubpacketView::PreferredKeyServer(text))),
            None => Err(bad),
        },
        SubpacketType::SignersUserID => match spec_strict_text(body) {
            Some(text) => Ok((end, SubpacketView::SignersUserID(text))),
            None => Err(bad),
        },
        SubpacketType::PreferredSymmetricAlgorithms => match SymmetricAlgorithms::spec_from_codes(
            body,
        ) {
            Some(list) => Ok((end, SubpacketView::PreferredSymmetricAlgorithms(list))),
            None => Err(unknown),
        },
        SubpacketType::PreferredHashAlgorithms => match HashAlgorithms::spec_from_codes(body) {
            Some(list) => Ok((end, SubpacketView::PreferredHashAlgorithms(list))),
            None => Err(unknown),
        },
        SubpacketType::PreferredCompressionAlgorithms => match CompressionAlgorithms::spec_from_codes(
            body,
        ) {
            Some(list) => Ok((end, SubpacketView::PreferredCompressionAlgorithms(list))),
            None => Err(unknown),
        },
        SubpacketType::PreferredAead => match AeadAlgorithms::spec_from_codes(body) {
            Some(list) => Ok((end, SubpacketView::PreferredAeadAlgorithms(list))),
            None => Err(unknown),
        },
        SubpacketType::KeyServerPreferences => Ok((end, SubpacketView::KeyServerPreferences(body))),
        SubpacketType::KeyFlags => Ok((end, SubpacketView::KeyFlags(body))),
        SubpacketType::Features => Ok((end, SubpacketView::Features(body))),
        SubpacketType::RevocationKey => if body.len() < 1 {
            Err(bad)
        } else {
            match RevocationKeyClass::spec_from_u8(body[0]) {
                None => Err(unknown),
                Some(class) => if body.len() < 2 {
                    Err(bad)
                } else {
                    match PublicKeyAlgorithm::spec_from_u8(body[1]) {
                        None => Err(unknown),
                        Some(algorithm) => if body.len() < 22 {
                            Err(bad)
                        } else {
                            Ok(
                                (
                                    body.skip(22),
                                    SubpacketView::RevocationKey(
                                        RevocationKeyView {
                                            class,
                                            algorithm,
                                            fingerprint: body.subrange(2, 22),
                                        },
                                    ),
                                ),
                            )
                        },
                    }
                },
            }
        },
        SubpacketType::Notation => match spec_notation(body) {
            Some((rest, notation)) => Ok((rest, SubpacketView::Notation(notation))),
            None => Err(bad),
        },
        SubpacketType::RevocationReason => if body.len() < 1 {
            Err(bad)
        } else {
            match RevocationCode::spec_from_u8(body[0]) {
                None => Err(unknown),
                Some(code) => Ok(
                    (end, SubpacketView::RevocationReason(code, spec_read_string(body.skip(1)))),
                ),
            }
        },
        SubpacketType::SignatureTarget => if body.len() < 1 {
            Err(bad)
        } else {
            match PublicKeyAlgorithm::spec_from_u8(body[0]) {
                None => Err(unknown),
                Some(pub_alg) => if body.len() < 2 {
                    Err(bad)
                } else {
                    match HashAlgorithm::spec_from_u8(body[1]) {
                        None => Err(unknown),
                        Some(hash_alg) => Ok(
                            (end, SubpacketView::SignatureTarget(pub_alg, hash_alg, body.skip(2))),
                        ),
                    }
                },
            }
        },
        SubpacketType::IssuerFingerprint => if body.len() < 1 {
            Err(bad)
        } else {
            match KeyVersion::spec_from_u8(body[0]) {
                None => Err(unknown),
                Some(version) => Ok(
                    (end, SubpacketView::IssuerFingerprint(version, body.skip(1))),
                ),
            }
        },
        SubpacketType::EmbeddedSignature => match nested {
            Ok((rest, sig)) => Ok((rest, SubpacketView::EmbeddedSignature(Box::new(sig)))),
            Err(e) => Err(e),
        },
        SubpacketType::Experimental(tag) => Ok((end, SubpacketView::Experimental(tag, body))),
        SubpacketType::Other(tag) => Ok((end, SubpacketView::Other(tag, body))),
    }
}

/// How many integers make up a signature of the given algorithm: two for
/// DSA, ECDSA and EdDSA, one for RSA and for every other algorithm.
pub open spec fn spec_signature_integers(alg: PublicKeyAlgorithm) -> nat {
    match alg {
        PublicKeyAlgorithm::DSA | PublicKeyAlgorithm::ECDSA | PublicKeyAlgorithm::EdDSA => 2,
        _ => 1,
    }
}

/// `count` multi-precision integers read one after the other.
pub open spec fn spec_mpis(input: Seq<u8>, count: nat, streaming: bool) -> Result<
    (Seq<u8>, Seq<Seq<u8>>),
    ParseError,
>
    decreases count,
{
    if count == 0 {
        Ok((input, Seq::empty()))
    } else {
        match spec_mpi(input) {
            None => Err(short_of(streaming, Field::SignatureValue)),
            Some(m) => match spec_mpis(m.rest, (count - 1) as nat, streaming) {
                Err(e) => Err(e),
                Ok((rest, values)) => Ok((rest, seq![m.value] + values)),
            },
        }
    }
}

/// The integers of the signature itself, as many as the algorithm has.
pub open spec fn spec_actual_signature(
    input: Seq<u8>,
    alg: PublicKeyAlgorithm,
    streaming: bool,
) -> Result<(Seq<u8>, Seq<Seq<u8>>), ParseError> {
    spec_mpis(input, spec_signature_integers(alg), streaming)
}

/// The fixed fields of a version 2 or 3 signature.
pub struct LegacyHeader {
    pub typ: SignatureType,
    pub created: int,
    pub issuer: Seq<u8>,
    pub pub_alg: PublicKeyAlgorithm,
    pub hash_alg: HashAlgorithm,
    pub signed_hash_value: Seq<u8>,
}

/// The eighteen octets of fixed fields at the front of a version 2 or 3
/// body: the literal 5, the signature type, the creation time, the
/// issuer, the two algorithms and the leading bits of the hash.
pub open spec fn spec_legacy_header(input: Seq<u8>, streaming: bool) -> Result<
    LegacyHeader,
    ParseError,
> {
    if input.len() < 1 {
        Err(short_of(streaming, Field::HashedLength))
    } else if input[0] != 5 {
        Err(malformed_at(Field::HashedLength))
    } else if input.len() < 2 {
        Err(short_of(streaming, Field::SignatureType))
    } else if SignatureType::spec_from_u8(input[1]) is None {
        Err(unknown_at(Field::SignatureType))
    } else if input.len() < 6 {
        Err(short_of(streaming, Field::Created))
    } else if input.len() < 14 {
        Err(short_of(streaming, Field::Issuer))
    } else if input.len() < 15 {
        Err(short_of(streaming, Field::PublicKeyAlgorithm))
    } else if PublicKeyAlgorithm::spec_from_u8(input[14]) is None {
        Err(unknown_at(Field::PublicKeyAlgorithm))
    } else if input.len() < 16 {
        Err(short_of(streaming, Field::HashAlgorithm))
    } else if HashAlgorithm::spec_from_u8(input[15]) is None {
        Err(unknown_at(Field::HashAlgorithm))
    } else if input.len() < 18 {
        Err(short_of(streaming, Field::SignedHashValue))
    } else {
        Ok(
            LegacyHeader {
                typ: SignatureType::spec_from_u8(input[1])->Some_0,
                created: spec_be_u32(input.skip(2)),
                issuer: input.subrange(6, 14),
                pub_alg: PublicKeyAlgorithm::spec_from_u8(input[14])->Some_0,
                hash_alg: HashAlgorithm::spec_from_u8(input[15])->Some_0,
                signed_hash_value: input.subrange(16, 18),
            },
        )
    }
}

/// The body of a version 2 or 3 signature, after its version octet: the
/// fixed fields, then the integers of the signature. The creation time and
/// the issuer of the result are those of the fixed fields; it has no
/// subpackets.
pub open spec fn spec_v3(
    input: Seq<u8>,
    packet_version: Version,
    version: SignatureVersion,
    streaming: bool,
) -> Result<(Seq<u8>, SignatureView), ParseError> {
    match spec_legacy_header(input, streaming) {
        Err(e) => Err(e),
        Ok(header) => match spec_actual_signature(input.skip(18), header.pub_alg, streaming) {
            Err(e) => Err(e),
            Ok((rest, signature)) => Ok(
                (
                    rest,
                    SignatureView {
                        packet_version,
                        version,
                        typ: header.typ,
                        pub_alg: header.pub_alg,
                        hash_alg: header.hash_alg,
                        signed_hash_value: header.signed_hash_value,
                        signature,
                        hashed_subpackets: Seq::empty(),
                        unhashed_subpackets: Seq::empty(),
                        created: Some(header.created),
                        issuer: Some(header.issuer),
                    },
                ),
            ),
        },
    }
}

/// What the body of a subpacket of kind `typ` stands for, with embedded
/// signatures followed `depth` levels down.
pub open spec fn spec_subpacket(typ: SubpacketType, body: Seq<u8>, depth: nat) -> Result<
    (Seq<u8>, SubpacketView),
    ParseError,
>
    decreases depth, body.len(),
{
    spec_subpacket_with(
        typ,
        body,
        if typ == SubpacketType::EmbeddedSignature && depth > 0 {
            spec_parse(body, Version::New, false, (depth - 1) as nat)
        } else {
            Err(too_deep())
        },
    )
}

/// The subpacket at the front of `input`, cut out and read by its kind,
/// and what follows it.
pub open spec fn spec_next_subpacket(input: Seq<u8>, streaming: bool, depth: nat) -> Result<
    (Seq<u8>, SubpacketView),
    ParseError,
> {
    match spec_frame(input, streaming) {
        Err(e) => Err(e),
        Ok(f) => match spec_subpacket(f.typ, f.body, depth) {
            Err(e) => Err(e),
            Ok((_, sp)) => Ok((f.rest, sp)),
        },
    }
}

/// The subpackets that fill an area, in order. Any subpacket that fails
/// fails the area.
pub open spec fn spec_subpackets(area: Seq<u8>, depth: nat) -> Result<
    Seq<SubpacketView>,
    ParseError,
>
    decreases depth, area.len(),
{
    if area.len() == 0 {
        Ok(Seq::empty())
    } else {
        match spec_frame(area, false) {
            Err(e) => Err(e),
            Ok(f) => match spec_subpacket(f.typ, f.body, depth) {
                Err(e) => Err(e),
                Ok((_, first)) => match spec_subpackets(f.rest, depth) {
                    Err(e) => Err(e),
                    Ok(others) => Ok(seq![first] + others),
                },
            },
        }
    }
}

/// The three codes at the front of a version 4 or 5 body.
pub struct ModernCodes {
    pub typ: SignatureType,
    pub pub_alg: PublicKeyAlgorithm,
    pub hash_alg: HashAlgorithm,
}

/// The signature type, the public-key algorithm and the hash algorithm at
/// the front of a version 4 or 5 body, one octet each.
pub open spec fn spec_modern_codes(input: Seq<u8>, streaming: bool) -> Result<
    ModernCodes,
    ParseError,
> {
    if input.len() < 1 {
        Err(short_of(streaming, Field::SignatureType))
    } else if SignatureType::spec_from_u8(input[0]) is None {
        Err(unknown_at(Field::SignatureType))
    } else if input.len() < 2 {
        Err(short_of(streaming, Field::PublicKeyAlgorithm))
    } else if PublicKeyAlgorithm::spec_from_u8(input[1]) is None {
        Err(unknown_at(Field::PublicKeyAlgorithm))
    } else if input.len() < 3 {
        Err(short_of(streaming, Field::HashAlgorithm))
    } else if HashAlgorithm::spec_from_u8(input[2]) is None {
        Err(unknown_at(Field::HashAlgorithm))
    } else {
        Ok(
            ModernCodes {
                typ: SignatureType::spec_from_u8(input[0])->Some_0,
                pub_alg: PublicKeyAlgorithm::spec_from_u8(input[1])->Some_0,
                hash_alg: HashAlgorithm::spec_from_u8(input[2])->Some_0,
            },
        )
    }
}

/// The subpacket area that starts at offset `at`: a two-octet length, then
/// that many octets of subpackets. Gives the offset at which the area
/// ends and the subpackets in it.
///
/// `field` names the area in the failure for an input that ends before
/// the area does.
pub open spec fn spec_area_at(
    input: Seq<u8>,
    at: int,
    streaming: bool,
    field: Field,
    depth: nat,
) -> Result<(int, Seq<SubpacketView>), ParseError>
    decreases depth, input.len(),
{
    if at < 0 || input.len() < at + 2 || input.len() < at + 2 + spec_be_u16(input.skip(at)) {
        Err(short_of(streaming, field))
    } else {
        let end = at + 2 + spec_be_u16(input.skip(at));
        match spec_subpackets(input.subrange(at + 2, end), depth) {
            Err(e) => Err(e),
            Ok(found) => Ok((end, found)),
        }
    }
}

/// The body of a version 4 or 5 signature, after its version octet: three
/// codes, the hashed area, the unhashed area, the leading bits of the hash
/// and the integers of the signature. The result has neither a creation
/// time nor an issuer of its own.
pub open spec fn spec_v4(
    input: Seq<u8>,
    packet_version: Version,
    version: SignatureVersion,
    streaming: bool,
    depth: nat,
) -> Result<(Seq<u8>, SignatureView), ParseError>
    decreases depth, input.len() + 1,
{
    match spec_modern_codes(input, streaming) {
        Err(e) => Err(e),
        Ok(codes) => match spec_area_at(input, 3, streaming, Field::HashedArea, depth) {
            Err(e) => Err(e),
            Ok((h, hashed_subpackets)) => match spec_area_at(
                input,
                h,
                streaming,
                Field::UnhashedArea,
                depth,
            ) {
                Err(e) => Err(e),
                Ok((u, unhashed_subpackets)) => if input.len() < u + 2 {
                    Err(short_of(streaming, Field::SignedHashValue))
                } else {
                    match spec_actual_signature(input.skip(u + 2), codes.pub_alg, streaming) {
                        Err(e) => Err(e),
                        Ok((rest, signature)) => Ok(
                            (
                                rest,
                                SignatureView {
                                    packet_version,
                                    version,
                                    typ: codes.typ,
                                    pub_alg: codes.pub_alg,
                                    hash_alg: codes.hash_alg,
                                    signed_hash_value: input.subrange(u, u + 2),
                                    signature,
                                    hashed_subpackets,
                                    unhashed_subpackets,
                                    created: None,
                                    issuer: None,
                                },
                            ),
                        ),
                    }
                },
            },
        },
    }
}

/// A signature packet's body: a version octet, then the layout of that
/// version. An octet that is none of the four versions is `Malformed`.
pub open spec fn spec_parse(
    input: Seq<u8>,
    packet_version: Version,
    streaming: bool,
    depth: nat,
) -> Result<(Seq<u8>, SignatureView), ParseError>
    decreases depth, input.len() + 2,
{
    if input.len() < 1 {
        Err(short_of(streaming, Field::Version))
    } else {
        match SignatureVersion::spec_from_u8(input[0]) {
            None => Err(malformed_at(Field::Version)),
            Some(version) => if version.is_legacy() {
                spec_v3(input.skip(1), packet_version, version, streaming)
            } else {
                spec_v4(input.skip(1), packet_version, version, streaming, depth)
            },
        }
    }
}

} // verus!
