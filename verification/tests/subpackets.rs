use pgp_signature::algorithms::{
    AeadAlgorithm, CompressionAlgorithm, HashAlgorithm, PublicKeyAlgorithm, SymmetricKeyAlgorithm,
};
use pgp_signature::codes::{KeyVersion, RevocationCode, RevocationKeyClass, SubpacketType};
use pgp_signature::de::{frame, next_subpacket, subpacket, subpackets};
use pgp_signature::errors::{ErrorKind, Field, ParseError};
use pgp_signature::kinds::{
    issuer, notation_data, policy_uri, pref_sym_alg, preferred_key_server, regular_expression,
    rev_reason, revocation_key, signature_creation_time, signers_userid, trust_signature,
};
use pgp_signature::lists::{
    AeadAlgorithms, CompressionAlgorithms, HashAlgorithms, SymmetricAlgorithms,
};
use pgp_signature::signature::Subpacket;
use pgp_signature::small::SmallBytes;

fn body_of(typ: SubpacketType, body: &[u8]) -> Subpacket {
    let (_, sp) = subpacket(typ, body, 4).unwrap();
    sp
}

fn error_of(typ: SubpacketType, body: &[u8]) -> ParseError {
    subpacket(typ, body, 4).unwrap_err()
}

#[test]
fn test_subpacket_pref_sym_alg() {
    let input = vec![9, 8, 7, 3, 2];
    let (_, res) = pref_sym_alg(input.as_slice()).unwrap();
    let expected: Vec<SymmetricKeyAlgorithm> =
        input.iter().map(|i| SymmetricKeyAlgorithm::from_u8(*i).unwrap()).collect();
    assert_eq!(
        res,
        Subpacket::PreferredSymmetricAlgorithms(SymmetricAlgorithms::from_algorithms(&expected))
    );
}

#[test]
fn pref_sym_alg_keeps_order_and_values() {
    let (rest, res) = pref_sym_alg(&[9, 8, 7, 3, 2]).unwrap();
    assert!(rest.is_empty());
    match res {
        Subpacket::PreferredSymmetricAlgorithms(list) => {
            assert_eq!(list.len(), 5);
            assert_eq!(list.get(0), Some(SymmetricKeyAlgorithm::AES256));
            assert_eq!(list.get(1), Some(SymmetricKeyAlgorithm::AES192));
            assert_eq!(list.get(2), Some(SymmetricKeyAlgorithm::AES128));
            assert_eq!(list.get(3), Some(SymmetricKeyAlgorithm::CAST5));
            assert_eq!(list.get(4), Some(SymmetricKeyAlgorithm::TripleDES));
            assert_eq!(list.get(5), None);
            assert_eq!(list.codes(), &[9, 8, 7, 3, 2]);
        }
        other => panic!("unexpected subpacket {:?}", other),
    }
}

#[test]
fn pref_sym_alg_refuses_unknown_code() {
    let e = pref_sym_alg(&[9, 5, 7]).unwrap_err();
    assert_eq!(e.kind, ErrorKind::UnknownCode);
    assert_eq!(e.field, Field::Subpacket(SubpacketType::PreferredSymmetricAlgorithms));
}

#[test]
fn algorithm_lists_of_each_kind() {
    assert_eq!(
        body_of(SubpacketType::PreferredHashAlgorithms, &[8, 10, 2]),
        Subpacket::PreferredHashAlgorithms(HashAlgorithms::from_algorithms(&[
            HashAlgorithm::SHA2_256,
            HashAlgorithm::SHA2_512,
            HashAlgorithm::SHA1
        ]))
    );
    assert_eq!(
        body_of(SubpacketType::PreferredCompressionAlgorithms, &[2, 3, 1, 0]),
        Subpacket::PreferredCompressionAlgorithms(CompressionAlgorithms::from_algorithms(&[
            CompressionAlgorithm::ZLIB,
            CompressionAlgorithm::BZip2,
            CompressionAlgorithm::ZIP,
            CompressionAlgorithm::Uncompressed
        ]))
    );
    assert_eq!(
        body_of(SubpacketType::PreferredAead, &[1, 2]),
        Subpacket::PreferredAeadAlgorithms(AeadAlgorithms::from_algorithms(&[
            AeadAlgorithm::Eax,
            AeadAlgorithm::Ocb
        ]))
    );
    assert_eq!(
        error_of(SubpacketType::PreferredHashAlgorithms, &[8, 253]).kind,
        ErrorKind::UnknownCode
    );
    assert_eq!(
        error_of(SubpacketType::PreferredCompressionAlgorithms, &[4]).kind,
        ErrorKind::UnknownCode
    );
    assert_eq!(error_of(SubpacketType::PreferredAead, &[9]).kind, ErrorKind::UnknownCode);
}

#[test]
fn empty_algorithm_list_is_accepted() {
    let (_, res) = pref_sym_alg(&[]).unwrap();
    assert_eq!(res, Subpacket::PreferredSymmetricAlgorithms(SymmetricAlgorithms::from_algorithms(&[])));
}

#[test]
fn trust_signature_keeps_both_octets() {
    let (rest, res) = trust_signature(&[3, 120]).unwrap();
    assert!(rest.is_empty());
    assert_eq!(res, Subpacket::TrustSignature(3, 120));
    let (_, res) = trust_signature(&[255, 0]).unwrap();
    assert_eq!(res, Subpacket::TrustSignature(255, 0));
}

#[test]
fn trust_signature_leaves_extra_octets_unread() {
    let (rest, res) = trust_signature(&[3, 120, 9]).unwrap();
    assert_eq!(rest, &[9]);
    assert_eq!(res, Subpacket::TrustSignature(3, 120));
}

#[test]
fn trust_signature_short_body_is_malformed() {
    let e = trust_signature(&[3]).unwrap_err();
    assert_eq!(e.kind, ErrorKind::Malformed);
    assert_eq!(e.field, Field::Subpacket(SubpacketType::TrustSignature));
}

#[test]
fn creation_time_is_seconds_since_epoch() {
    let (rest, res) = signature_creation_time(&[0x3B, 0x12, 0xAB, 0xCD]).unwrap();
    assert!(rest.is_empty());
    match res {
        Subpacket::SignatureCreationTime(t) => assert_eq!(t.timestamp(), 0x3B12_ABCD),
        other => panic!("unexpected subpacket {:?}", other),
    }
    match body_of(SubpacketType::SignatureExpirationTime, &[0, 0, 0, 1]) {
        Subpacket::SignatureExpirationTime(t) => assert_eq!(t.timestamp(), 1),
        other => panic!("unexpected subpacket {:?}", other),
    }
    match body_of(SubpacketType::KeyExpirationTime, &[0xFF, 0xFF, 0xFF, 0xFF]) {
        Subpacket::KeyExpirationTime(t) => assert_eq!(t.timestamp(), 4_294_967_295),
        other => panic!("unexpected subpacket {:?}", other),
    }
}

#[test]
fn creation_time_short_body_is_malformed() {
    let e = signature_creation_time(&[0, 0, 1]).unwrap_err();
    assert_eq!(e.kind, ErrorKind::Malformed);
    assert!(!e.is_incomplete());
}

#[test]
fn flag_octets_are_true_only_for_one() {
    assert_eq!(body_of(SubpacketType::ExportableCertification, &[1]), Subpacket::ExportableCertification(true));
    assert_eq!(body_of(SubpacketType::ExportableCertification, &[0]), Subpacket::ExportableCertification(false));
    assert_eq!(body_of(SubpacketType::ExportableCertification, &[2]), Subpacket::ExportableCertification(false));
    assert_eq!(body_of(SubpacketType::Revocable, &[1]), Subpacket::Revocable(true));
    assert_eq!(body_of(SubpacketType::Revocable, &[255]), Subpacket::Revocable(false));
    assert_eq!(body_of(SubpacketType::PrimaryUserId, &[1]), Subpacket::IsPrimary(true));
    assert_eq!(body_of(SubpacketType::PrimaryUserId, &[0]), Subpacket::IsPrimary(false));
    assert_eq!(error_of(SubpacketType::Revocable, &[]).kind, ErrorKind::Malformed);
}

#[test]
fn issuer_is_eight_octets() {
    let (rest, res) = issuer(&[1, 2, 3, 4, 5, 6, 7, 8]).unwrap();
    assert!(rest.is_empty());
    match res {
        Subpacket::Issuer(id) => assert_eq!(id.as_bytes(), &[1, 2, 3, 4, 5, 6, 7, 8]),
        other => panic!("unexpected subpacket {:?}", other),
    }
    assert_eq!(issuer(&[1, 2, 3, 4, 5, 6, 7]).unwrap_err().kind, ErrorKind::Malformed);
}

#[test]
fn flag_lists_are_kept_unchecked() {
    assert_eq!(
        body_of(SubpacketType::KeyServerPreferences, &[0x80, 0xFF]),
        Subpacket::KeyServerPreferences(SmallBytes::from_slice(&[0x80, 0xFF]))
    );
    assert_eq!(
        body_of(SubpacketType::KeyFlags, &[0x03]),
        Subpacket::KeyFlags(SmallBytes::from_slice(&[0x03]))
    );
    assert_eq!(
        body_of(SubpacketType::Features, &[]),
        Subpacket::Features(SmallBytes::from_slice(&[]))
    );
    match body_of(SubpacketType::KeyFlags, &[0x03, 0x00, 0x7F]) {
        Subpacket::KeyFlags(flags) => {
            assert_eq!(flags.as_slice(), &[0x03, 0x00, 0x7F]);
            assert_eq!(flags.len(), 3);
            assert_eq!(flags.clone(), flags);
        }
        other => panic!("unexpected subpacket {:?}", other),
    }
}

#[test]
fn small_bytes_longer_than_inline_room() {
    let long: Vec<u8> = (0u8..40).collect();
    let held = SmallBytes::from_slice(&long);
    assert_eq!(held.as_slice(), long.as_slice());
    assert_eq!(held.len(), 40);
}

#[test]
fn strict_text_kinds_need_utf8() {
    let (_, res) = preferred_key_server("hkps://keys.example".as_bytes()).unwrap();
    assert_eq!(res, Subpacket::PreferredKeyServer("hkps://keys.example".to_string()));
    let (_, res) = signers_userid("Zo\u{eb} <zoe@example.org>".as_bytes()).unwrap();
    assert_eq!(res, Subpacket::SignersUserID("Zo\u{eb} <zoe@example.org>".to_string()));
    let e = preferred_key_server(&[0x68, 0xFF, 0x68]).unwrap_err();
    assert_eq!(e.kind, ErrorKind::Malformed);
    assert_eq!(e.field, Field::Subpacket(SubpacketType::PreferredKeyServer));
    let e = signers_userid(&[0xC3]).unwrap_err();
    assert_eq!(e.kind, ErrorKind::Malformed);
}

#[test]
fn lenient_text_kinds_never_fail() {
    let (_, res) = regular_expression("<[^>]+[@.]example\\.com>$".as_bytes()).unwrap();
    assert_eq!(res, Subpacket::RegularExpression("<[^>]+[@.]example\\.com>$".to_string()));
    let (_, res) = policy_uri("https://example.org/policy".as_bytes()).unwrap();
    assert_eq!(res, Subpacket::PolicyURI("https://example.org/policy".to_string()));
    let (_, res) = policy_uri(&[0x61, 0xFF, 0x62]).unwrap();
    assert_eq!(res, Subpacket::PolicyURI("a\u{fffd}b".to_string()));
}

#[test]
fn notation_with_name_and_value() {
    let mut body = vec![0x80, 0, 0, 0, 0, 4, 0, 2];
    body.extend_from_slice(b"name");
    body.extend_from_slice(b"ok");
    let (rest, res) = notation_data(&body).unwrap();
    assert!(rest.is_empty());
    match res {
        Subpacket::Notation(n) => {
            assert!(n.readable);
            assert_eq!(n.name, "name");
            assert_eq!(n.value, "ok");
        }
        other => panic!("unexpected subpacket {:?}", other),
    }
}

#[test]
fn notation_flag_and_reserved_octets() {
    let (_, res) = notation_data(&[0x00, 0, 0, 0, 0, 1, 0, 0, b'n']).unwrap();
    match res {
        Subpacket::Notation(n) => {
            assert!(!n.readable);
            assert_eq!(n.name, "n");
            assert_eq!(n.value, "");
        }
        other => panic!("unexpected subpacket {:?}", other),
    }
    assert_eq!(notation_data(&[0x80, 0, 1, 0, 0, 0, 0, 0]).unwrap_err().kind, ErrorKind::Malformed);
    assert_eq!(notation_data(&[0x80, 0, 0, 0, 0, 2, 0, 0, b'n']).unwrap_err().kind, ErrorKind::Malformed);
    assert_eq!(notation_data(&[0x80, 0, 0, 0, 0, 1, 0, 1, b'n']).unwrap_err().kind, ErrorKind::Malformed);
    assert_eq!(notation_data(&[0x80, 0, 0]).unwrap_err().kind, ErrorKind::Malformed);
}

#[test]
fn revocation_key_fields() {
    let mut body = vec![0x80, 17];
    body.extend_from_slice(&[7u8; 20]);
    let (rest, res) = revocation_key(&body).unwrap();
    assert!(rest.is_empty());
    match res {
        Subpacket::RevocationKey(k) => {
            assert_eq!(k.class, RevocationKeyClass::Default);
            assert_eq!(k.algorithm, PublicKeyAlgorithm::DSA);
            assert_eq!(k.fingerprint, [7u8; 20]);
        }
        other => panic!("unexpected subpacket {:?}", other),
    }
    body[0] = 0xC0;
    match revocation_key(&body).unwrap().1 {
        Subpacket::RevocationKey(k) => assert_eq!(k.class, RevocationKeyClass::Sensitive),
        other => panic!("unexpected subpacket {:?}", other),
    }
}

#[test]
fn revocation_key_failures() {
    let mut body = vec![0x81, 17];
    body.extend_from_slice(&[7u8; 20]);
    assert_eq!(revocation_key(&body).unwrap_err().kind, ErrorKind::UnknownCode);
    body[0] = 0x80;
    body[1] = 99;
    assert_eq!(revocation_key(&body).unwrap_err().kind, ErrorKind::UnknownCode);
    body[1] = 1;
    body.truncate(21);
    assert_eq!(revocation_key(&body).unwrap_err().kind, ErrorKind::Malformed);
    assert_eq!(revocation_key(&[]).unwrap_err().kind, ErrorKind::Malformed);
}

#[test]
fn revocation_reason_code_and_text() {
    let (_, res) = rev_reason(&[2, b'l', b'o', b's', b't']).unwrap();
    assert_eq!(res, Subpacket::RevocationReason(RevocationCode::KeyCompromised, "lost".to_string()));
    let (_, res) = rev_reason(&[32]).unwrap();
    assert_eq!(res, Subpacket::RevocationReason(RevocationCode::CertUserIdInvalid, String::new()));
    assert_eq!(rev_reason(&[4, b'x']).unwrap_err().kind, ErrorKind::UnknownCode);
    assert_eq!(rev_reason(&[]).unwrap_err().kind, ErrorKind::Malformed);
}

#[test]
fn signature_target_and_issuer_fingerprint() {
    assert_eq!(
        body_of(SubpacketType::SignatureTarget, &[1, 8, 0xDE, 0xAD]),
        Subpacket::SignatureTarget(PublicKeyAlgorithm::RSA, HashAlgorithm::SHA2_256, vec![0xDE, 0xAD])
    );
    assert_eq!(error_of(SubpacketType::SignatureTarget, &[1, 253, 0]).kind, ErrorKind::UnknownCode);
    assert_eq!(error_of(SubpacketType::SignatureTarget, &[1]).kind, ErrorKind::Malformed);
    assert_eq!(
        body_of(SubpacketType::IssuerFingerprint, &[4, 1, 2, 3]),
        Subpacket::IssuerFingerprint(KeyVersion::V4, SmallBytes::from_slice(&[1, 2, 3]))
    );
    assert_eq!(error_of(SubpacketType::IssuerFingerprint, &[6, 1]).kind, ErrorKind::UnknownCode);
}

#[test]
fn unknown_kinds_are_kept_verbatim() {
    assert_eq!(SubpacketType::from_u8(254), SubpacketType::Other(254));
    assert_eq!(
        body_of(SubpacketType::Other(254), &[9, 8, 7]),
        Subpacket::Other(254, vec![9, 8, 7])
    );
    assert_eq!(SubpacketType::from_u8(101), SubpacketType::Experimental(101));
    assert_eq!(
        body_of(SubpacketType::Experimental(101), &[0xFF]),
        Subpacket::Experimental(101, SmallBytes::from_slice(&[0xFF]))
    );
    let (rest, sp) = next_subpacket(&[4, 254, 9, 8, 7, 0x55], true, 4).unwrap();
    assert_eq!(rest, &[0x55]);
    assert_eq!(sp, Subpacket::Other(254, vec![9, 8, 7]));
}

#[test]
fn frame_cuts_body_and_rest() {
    let (typ, body, rest) = frame(&[3, 5, 3, 120, 2, 7, 1], false).unwrap();
    assert_eq!(typ, SubpacketType::TrustSignature);
    assert_eq!(body, &[3, 120]);
    assert_eq!(rest, &[2, 7, 1]);
}

#[test]
fn frame_with_two_octet_length() {
    let mut input = vec![192, 8, 254];
    input.extend_from_slice(&[0xAA; 199]);
    input.push(0x11);
    let (typ, body, rest) = frame(&input, false).unwrap();
    assert_eq!(typ, SubpacketType::Other(254));
    assert_eq!(body.len(), 199);
    assert_eq!(rest, &[0x11]);
}

#[test]
fn frame_with_five_octet_length() {
    let (typ, body, rest) = frame(&[255, 0, 0, 0, 3, 27, 1, 2, 9], true).unwrap();
    assert_eq!(typ, SubpacketType::KeyFlags);
    assert_eq!(body, &[1, 2]);
    assert_eq!(rest, &[9]);
}

#[test]
fn declared_length_beyond_input_depends_on_mode() {
    let input = [6, 2, 0, 0];
    let streamed = frame(&input, true).unwrap_err();
    assert_eq!(streamed.kind, ErrorKind::Incomplete);
    assert!(streamed.is_incomplete());
    assert_eq!(streamed.field, Field::Subpacket(SubpacketType::SignatureCreationTime));
    let sliced = frame(&input, false).unwrap_err();
    assert_eq!(sliced.kind, ErrorKind::Malformed);
    assert_eq!(next_subpacket(&input, true, 4).unwrap_err().kind, ErrorKind::Incomplete);
    assert_eq!(next_subpacket(&input, false, 4).unwrap_err().kind, ErrorKind::Malformed);
    assert_eq!(subpackets(&input, 4).unwrap_err().kind, ErrorKind::Malformed);
}

#[test]
fn frame_failures() {
    assert_eq!(frame(&[], true).unwrap_err(), ParseError { kind: ErrorKind::Incomplete, field: Field::SubpacketLength });
    assert_eq!(frame(&[], false).unwrap_err(), ParseError { kind: ErrorKind::Malformed, field: Field::SubpacketLength });
    assert_eq!(frame(&[200], true).unwrap_err().kind, ErrorKind::Incomplete);
    assert_eq!(frame(&[0, 2], true).unwrap_err(), ParseError { kind: ErrorKind::Malformed, field: Field::SubpacketLength });
    assert_eq!(frame(&[1], true).unwrap_err(), ParseError { kind: ErrorKind::Incomplete, field: Field::SubpacketTag });
}

#[test]
fn area_of_several_subpackets() {
    let area = [5, 2, 0, 0, 0, 9, 2, 27, 3, 3, 5, 1, 60];
    let found = subpackets(&area, 4).unwrap();
    assert_eq!(found.len(), 3);
    match &found[0] {
        Subpacket::SignatureCreationTime(t) => assert_eq!(t.timestamp(), 9),
        other => panic!("unexpected subpacket {:?}", other),
    }
    assert_eq!(found[1], Subpacket::KeyFlags(SmallBytes::from_slice(&[3])));
    assert_eq!(found[2], Subpacket::TrustSignature(1, 60));
}

#[test]
fn empty_area_has_no_subpackets() {
    assert_eq!(subpackets(&[], 4).unwrap(), Vec::<Subpacket>::new());
}

#[test]
fn one_bad_subpacket_fails_the_area() {
    let area = [2, 27, 3, 3, 11, 9, 5, 2, 7, 1];
    let e = subpackets(&area, 4).unwrap_err();
    assert_eq!(e.kind, ErrorKind::UnknownCode);
    assert_eq!(e.field, Field::Subpacket(SubpacketType::PreferredSymmetricAlgorithms));
}
