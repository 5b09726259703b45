use pgp_signature::algorithms::{HashAlgorithm, PublicKeyAlgorithm};
use pgp_signature::codes::{SignatureType, SignatureVersion, SubpacketType, Version};
use pgp_signature::de::{actual_signature, parse, parse_bounded, v3_parser, v4_parser};
use pgp_signature::errors::{ErrorKind, Field, ParseError};
use pgp_signature::grammar::MAX_EMBEDDED_DEPTH;
use pgp_signature::signature::{Signature, Subpacket};
use pgp_signature::small::SmallBytes;
use pgp_signature::types::Mpi;

/// One MPI of nine bits: the octets 0x01 0xFF.
const ONE_MPI: [u8; 4] = [0x00, 0x09, 0x01, 0xFF];

fn sub(tag: u8, body: &[u8]) -> Vec<u8> {
    let len = body.len() + 1;
    let mut out = Vec::new();
    if len < 192 {
        out.push(len as u8);
    } else if len < 16320 {
        out.push((((len - 192) >> 8) + 192) as u8);
        out.push(((len - 192) & 0xFF) as u8);
    } else {
        out.push(255);
        out.extend_from_slice(&(len as u32).to_be_bytes());
    }
    out.push(tag);
    out.extend_from_slice(body);
    out
}

fn v4(typ: u8, alg: u8, hash: u8, hashed: &[u8], unhashed: &[u8], tail: &[u8]) -> Vec<u8> {
    let mut out = vec![4, typ, alg, hash];
    out.extend_from_slice(&(hashed.len() as u16).to_be_bytes());
    out.extend_from_slice(hashed);
    out.extend_from_slice(&(unhashed.len() as u16).to_be_bytes());
    out.extend_from_slice(unhashed);
    out.extend_from_slice(&[0xAA, 0xBB]);
    out.extend_from_slice(tail);
    out
}

fn nested(levels: usize) -> Vec<u8> {
    let mut sig = v4(0x00, 1, 8, &[], &[], &ONE_MPI);
    for _ in 0..levels {
        sig = v4(0x13, 1, 8, &sub(32, &sig), &[], &ONE_MPI);
    }
    sig
}

#[test]
fn v4_with_creation_time() {
    let mut input = vec![
        4, 0x00, 0x02, 0x08, 0x00, 0x06, 0x05, 0x02, 0x3B, 0x12, 0xAB, 0xCD, 0x00, 0x00, 0xAA, 0xBB,
    ];
    input.extend_from_slice(&ONE_MPI);
    let (rest, sig) = parse(&input, Version::New).unwrap();
    assert!(rest.is_empty());
    assert_eq!(sig.packet_version, Version::New);
    assert_eq!(sig.config.version, SignatureVersion::V4);
    assert_eq!(sig.config.typ, SignatureType::Binary);
    assert_eq!(sig.config.pub_alg, PublicKeyAlgorithm::RSAEncrypt);
    assert_eq!(sig.config.hash_alg, HashAlgorithm::SHA2_256);
    assert_eq!(sig.config.hashed_subpackets.len(), 1);
    match &sig.config.hashed_subpackets[0] {
        Subpacket::SignatureCreationTime(t) => assert_eq!(t.timestamp(), 0x3B12_ABCD),
        other => panic!("unexpected subpacket {:?}", other),
    }
    assert_eq!(sig.config.unhashed_subpackets.len(), 0);
    assert_eq!(sig.signed_hash_value, [0xAA, 0xBB]);
    assert_eq!(sig.signature, vec![Mpi::from_raw(vec![0x01, 0xFF])]);
    assert_eq!(sig.config.created, None);
    assert_eq!(sig.config.issuer, None);
}

#[test]
fn area_whose_second_subpacket_overruns_is_malformed() {
    let mut input = vec![
        4, 0x00, 0x02, 0x08, 0x00, 0x05, 0x02, 0x3B, 0x12, 0xAB, 0xCD, 0x00, 0x00, 0xAA, 0xBB,
    ];
    input.extend_from_slice(&ONE_MPI);
    let e = parse(&input, Version::New).unwrap_err();
    assert_eq!(e.kind, ErrorKind::Malformed);
    assert_eq!(e.field, Field::Subpacket(SubpacketType::Other(0xCD)));
}

#[test]
fn empty_hashed_area_yields_no_subpackets() {
    let input = v4(0x00, 1, 8, &[], &sub(27, &[3]), &ONE_MPI);
    let (_, sig) = parse(&input, Version::Old).unwrap();
    assert_eq!(sig.packet_version, Version::Old);
    assert!(sig.config.hashed_subpackets.is_empty());
    assert_eq!(sig.config.unhashed_subpackets, vec![Subpacket::KeyFlags(SmallBytes::from_slice(&[3]))]);
}

#[test]
fn v5_uses_the_same_layout() {
    let mut input = v4(0x01, 22, 10, &[], &[], &ONE_MPI);
    input[0] = 5;
    input.extend_from_slice(&[0x00, 0x01, 0x01, 0x77]);
    let (rest, sig) = parse(&input, Version::New).unwrap();
    assert_eq!(rest, &[0x77]);
    assert_eq!(sig.config.version, SignatureVersion::V5);
    assert_eq!(sig.config.typ, SignatureType::Text);
    assert_eq!(sig.config.pub_alg, PublicKeyAlgorithm::EdDSA);
    assert_eq!(sig.config.hash_alg, HashAlgorithm::SHA2_512);
    assert_eq!(sig.signature, vec![Mpi::from_raw(vec![0x01, 0xFF]), Mpi::from_raw(vec![0x01])]);
}

#[test]
fn v3_sets_created_and_issuer() {
    for version in [2u8, 3u8] {
        let mut input = vec![version, 5, 0x10, 0, 0, 0x01, 0x00, 1, 2, 3, 4, 5, 6, 7, 8, 17, 2, 0xCA, 0xFE];
        input.extend_from_slice(&[0x00, 0x08, 0x80, 0x00, 0x10, 0x00, 0x01, 0x42]);
        let (rest, sig) = parse(&input, Version::Old).unwrap();
        assert_eq!(rest, &[0x42]);
        assert_eq!(sig.config.version, SignatureVersion::from_u8(version).unwrap());
        assert_eq!(sig.config.typ, SignatureType::CertGeneric);
        assert_eq!(sig.config.pub_alg, PublicKeyAlgorithm::DSA);
        assert_eq!(sig.config.hash_alg, HashAlgorithm::SHA1);
        assert_eq!(sig.signed_hash_value, [0xCA, 0xFE]);
        assert_eq!(sig.config.created.unwrap().timestamp(), 256);
        assert_eq!(sig.config.issuer.unwrap().as_bytes(), &[1, 2, 3, 4, 5, 6, 7, 8]);
        assert!(sig.config.hashed_subpackets.is_empty());
        assert!(sig.config.unhashed_subpackets.is_empty());
        assert_eq!(sig.signature, vec![Mpi::from_raw(vec![0x80]), Mpi::from_raw(vec![0x00, 0x01][1..].to_vec())]);
    }
}

#[test]
fn v3_needs_the_literal_five() {
    let input = [3, 6, 0x10, 0, 0, 1, 0, 1, 2, 3, 4, 5, 6, 7, 8, 1, 2, 0xCA, 0xFE, 0, 1, 1];
    let e = parse(&input, Version::Old).unwrap_err();
    assert_eq!(e, ParseError { kind: ErrorKind::Malformed, field: Field::HashedLength });
    let e = v3_parser(&[5, 0x77], Version::Old, SignatureVersion::V3, true).unwrap_err();
    assert_eq!(e, ParseError { kind: ErrorKind::UnknownCode, field: Field::SignatureType });
    let e = v3_parser(&[5, 0x10, 0, 0], Version::Old, SignatureVersion::V3, true).unwrap_err();
    assert_eq!(e, ParseError { kind: ErrorKind::Incomplete, field: Field::Created });
}

#[test]
fn unknown_version_is_malformed() {
    for first in [0u8, 1, 6, 255] {
        let e = parse(&[first, 0, 1, 8], Version::New).unwrap_err();
        assert_eq!(e, ParseError { kind: ErrorKind::Malformed, field: Field::Version });
    }
    let e = parse(&[], Version::New).unwrap_err();
    assert_eq!(e, ParseError { kind: ErrorKind::Incomplete, field: Field::Version });
}

#[test]
fn unknown_codes_in_header_fail() {
    let e = parse(&v4(0x00, 1, 253, &[], &[], &ONE_MPI), Version::New).unwrap_err();
    assert_eq!(e, ParseError { kind: ErrorKind::UnknownCode, field: Field::HashAlgorithm });
    let e = parse(&v4(0x00, 4, 8, &[], &[], &ONE_MPI), Version::New).unwrap_err();
    assert_eq!(e, ParseError { kind: ErrorKind::UnknownCode, field: Field::PublicKeyAlgorithm });
    let e = parse(&v4(0x03, 1, 8, &[], &[], &ONE_MPI), Version::New).unwrap_err();
    assert_eq!(e, ParseError { kind: ErrorKind::UnknownCode, field: Field::SignatureType });
}

#[test]
fn unknown_subpacket_kind_is_kept() {
    let input = v4(0x00, 1, 8, &sub(254, &[1, 2, 3]), &sub(105, &[]), &ONE_MPI);
    let (_, sig) = parse(&input, Version::New).unwrap();
    assert_eq!(sig.config.hashed_subpackets, vec![Subpacket::Other(254, vec![1, 2, 3])]);
    assert_eq!(
        sig.config.unhashed_subpackets,
        vec![Subpacket::Experimental(105, SmallBytes::from_slice(&[]))]
    );
}

#[test]
fn truncated_stream_is_incomplete() {
    let input = v4(0x00, 1, 8, &sub(27, &[3]), &[], &ONE_MPI);
    for cut in 0..input.len() {
        let e = parse(&input[..cut], Version::New).unwrap_err();
        assert_eq!(e.kind, ErrorKind::Incomplete, "cut at {}", cut);
    }
    assert!(parse(&input, Version::New).is_ok());
}

#[test]
fn truncated_slice_is_malformed() {
    let input = v4(0x00, 1, 8, &sub(27, &[3]), &[], &ONE_MPI);
    for cut in 0..input.len() {
        let e = parse_bounded(&input[..cut], Version::New, false, 2).unwrap_err();
        assert_eq!(e.kind, ErrorKind::Malformed, "cut at {}", cut);
    }
}

#[test]
fn short_areas_name_their_field() {
    let e = parse(&[4, 0, 1, 8, 0, 9, 1], Version::New).unwrap_err();
    assert_eq!(e, ParseError { kind: ErrorKind::Incomplete, field: Field::HashedArea });
    let e = parse(&[4, 0, 1, 8, 0, 0, 0, 3, 1], Version::New).unwrap_err();
    assert_eq!(e, ParseError { kind: ErrorKind::Incomplete, field: Field::UnhashedArea });
    let e = parse(&[4, 0, 1, 8, 0, 0, 0, 0, 1], Version::New).unwrap_err();
    assert_eq!(e, ParseError { kind: ErrorKind::Incomplete, field: Field::SignedHashValue });
    let e = parse(&[4, 0, 1, 8, 0, 0, 0, 0, 1, 2, 0, 9, 1], Version::New).unwrap_err();
    assert_eq!(e, ParseError { kind: ErrorKind::Incomplete, field: Field::SignatureValue });
}

#[test]
fn signature_value_has_one_or_two_integers() {
    let two = [0x00, 0x09, 0x01, 0xFF, 0x00, 0x10, 0x80, 0x01, 0x99];
    for alg in [PublicKeyAlgorithm::RSA, PublicKeyAlgorithm::RSASign] {
        let (rest, values) = actual_signature(&two, &alg, true).unwrap();
        assert_eq!(values.len(), 1);
        assert_eq!(rest.len(), 5);
    }
    for alg in [PublicKeyAlgorithm::DSA, PublicKeyAlgorithm::ECDSA, PublicKeyAlgorithm::EdDSA] {
        let (rest, values) = actual_signature(&two, &alg, true).unwrap();
        assert_eq!(values, vec![Mpi::from_raw(vec![0x01, 0xFF]), Mpi::from_raw(vec![0x80, 0x01])]);
        assert_eq!(rest, &[0x99]);
    }
    for alg in [
        PublicKeyAlgorithm::RSAEncrypt,
        PublicKeyAlgorithm::ElgamalSign,
        PublicKeyAlgorithm::ECDH,
        PublicKeyAlgorithm::Elgamal,
        PublicKeyAlgorithm::DiffieHellman,
        PublicKeyAlgorithm::Private100,
        PublicKeyAlgorithm::Private110,
    ] {
        let (_, values) = actual_signature(&two, &alg, true).unwrap();
        assert_eq!(values, vec![Mpi::from_raw(vec![0x01, 0xFF])]);
    }
}

#[test]
fn second_integer_missing() {
    let one = [0x00, 0x09, 0x01, 0xFF];
    let e = actual_signature(&one, &PublicKeyAlgorithm::DSA, true).unwrap_err();
    assert_eq!(e, ParseError { kind: ErrorKind::Incomplete, field: Field::SignatureValue });
    let e = actual_signature(&one, &PublicKeyAlgorithm::DSA, false).unwrap_err();
    assert_eq!(e, ParseError { kind: ErrorKind::Malformed, field: Field::SignatureValue });
}

#[test]
fn integers_lose_leading_zero_octets() {
    let (_, values) =
        actual_signature(&[0x00, 0x18, 0x00, 0x00, 0x07], &PublicKeyAlgorithm::RSA, true).unwrap();
    assert_eq!(values, vec![Mpi::from_raw(vec![0x07])]);
    assert_eq!(Mpi::from_slice(&[0, 0, 7, 0]).as_bytes(), &[7, 0]);
    assert_eq!(Mpi::from_slice(&[0, 0]).as_bytes(), &[] as &[u8]);
}

#[test]
fn embedded_signature_is_parsed_by_the_same_rules() {
    let inner = v4(0x19, 17, 8, &sub(2, &[0, 0, 0, 7]), &sub(16, &[1, 2, 3, 4, 5, 6, 7, 8]), &[0, 1, 1, 0, 2, 3]);
    let outer = v4(0x18, 1, 10, &sub(32, &inner), &[], &ONE_MPI);
    let (rest, sig) = parse(&outer, Version::Old).unwrap();
    assert!(rest.is_empty());
    assert_eq!(sig.packet_version, Version::Old);
    assert_eq!(sig.config.typ, SignatureType::SubkeyBinding);
    assert_eq!(sig.config.hashed_subpackets.len(), 1);
    match &sig.config.hashed_subpackets[0] {
        Subpacket::EmbeddedSignature(nested) => {
            assert_eq!(nested.packet_version, Version::New);
            assert_eq!(nested.config.version, SignatureVersion::V4);
            assert_eq!(nested.config.typ, SignatureType::KeyBinding);
            assert_eq!(nested.config.pub_alg, PublicKeyAlgorithm::DSA);
            assert_eq!(nested.config.hash_alg, HashAlgorithm::SHA2_256);
            assert_eq!(nested.config.hashed_subpackets.len(), 1);
            assert_eq!(nested.config.unhashed_subpackets.len(), 1);
            assert_eq!(nested.signed_hash_value, [0xAA, 0xBB]);
            assert_eq!(nested.signature, vec![Mpi::from_raw(vec![1]), Mpi::from_raw(vec![3])]);
            let (_, alone) = parse(&inner, Version::New).unwrap();
            assert_eq!(**nested, alone);
        }
        other => panic!("unexpected subpacket {:?}", other),
    }
}

#[test]
fn embedded_signature_that_is_cut_short_is_malformed() {
    let inner = v4(0x19, 17, 8, &[], &[], &[0, 1, 1]);
    let outer = v4(0x18, 1, 10, &sub(32, &inner), &[], &ONE_MPI);
    let e = parse(&outer, Version::New).unwrap_err();
    assert_eq!(e, ParseError { kind: ErrorKind::Malformed, field: Field::SignatureValue });
    let inner = v4(0x19, 17, 99, &[], &[], &ONE_MPI);
    let outer = v4(0x18, 1, 10, &[], &sub(32, &inner), &ONE_MPI);
    let e = parse(&outer, Version::New).unwrap_err();
    assert_eq!(e, ParseError { kind: ErrorKind::UnknownCode, field: Field::HashAlgorithm });
}

#[test]
fn nesting_is_followed_to_the_limit() {
    assert_eq!(MAX_EMBEDDED_DEPTH, 8);
    let at_limit = nested(MAX_EMBEDDED_DEPTH);
    let (_, sig) = parse(&at_limit, Version::New).unwrap();
    let mut levels = 0;
    let mut current = &sig;
    while let Some(Subpacket::EmbeddedSignature(inner)) = current.config.hashed_subpackets.first() {
        levels += 1;
        current = inner;
    }
    assert_eq!(levels, MAX_EMBEDDED_DEPTH);
    let too_deep = nested(MAX_EMBEDDED_DEPTH + 1);
    let e = parse(&too_deep, Version::New).unwrap_err();
    assert_eq!(
        e,
        ParseError {
            kind: ErrorKind::UnsupportedRecursion,
            field: Field::Subpacket(SubpacketType::EmbeddedSignature)
        }
    );
}

#[test]
fn depth_zero_refuses_any_embedded_signature() {
    let e = parse_bounded(&nested(1), Version::New, true, 0).unwrap_err();
    assert_eq!(e.kind, ErrorKind::UnsupportedRecursion);
    assert!(parse_bounded(&nested(0), Version::New, true, 0).is_ok());
    assert!(parse_bounded(&nested(1), Version::New, true, 1).is_ok());
}

#[test]
fn v4_parser_takes_the_body_after_the_version() {
    let input = v4(0x00, 1, 8, &[], &[], &ONE_MPI);
    let (rest, sig) = v4_parser(&input[1..], Version::New, SignatureVersion::V5, true, 1).unwrap();
    assert!(rest.is_empty());
    assert_eq!(sig.config.version, SignatureVersion::V5);
}

#[test]
fn from_slice_drops_what_follows() {
    let mut input = v4(0x00, 1, 8, &[], &[], &ONE_MPI);
    input.extend_from_slice(&[1, 2, 3]);
    let sig = Signature::from_slice(Version::New, &input).unwrap();
    let (rest, same) = parse(&input, Version::New).unwrap();
    assert_eq!(rest, &[1, 2, 3]);
    assert_eq!(sig, same);
    assert_eq!(
        Signature::from_slice(Version::New, &[4, 0]).unwrap_err().kind,
        ErrorKind::Incomplete
    );
}

#[test]
fn new_leaves_created_and_issuer_unset() {
    let sig = Signature::new(
        Version::New,
        SignatureVersion::V4,
        SignatureType::Binary,
        PublicKeyAlgorithm::RSA,
        HashAlgorithm::SHA2_256,
        [1, 2],
        vec![Mpi::from_raw(vec![5])],
        vec![Subpacket::Revocable(true)],
        vec![],
    );
    assert_eq!(sig.config.created, None);
    assert_eq!(sig.config.issuer, None);
    assert_eq!(sig.config.hashed_subpackets, vec![Subpacket::Revocable(true)]);
    assert_eq!(sig.signed_hash_value, [1, 2]);
}
