use pgp_signature::codes::{
    KeyVersion, RevocationCode, RevocationKeyClass, SignatureType, SubpacketType,
};
use pgp_signature::algorithms::{
    AeadAlgorithm, CompressionAlgorithm, HashAlgorithm, PublicKeyAlgorithm, SymmetricKeyAlgorithm,
};
use pgp_signature::text::{read_string, strict_text};
use pgp_signature::time::dt_from_timestamp;
use pgp_signature::types::{KeyId, RevocationKey};
use pgp_signature::wire::{be_u16, be_u32, be_u8, mpi, packet_length, strip_leading_zeros, take};

#[test]
fn big_endian_readers() {
    assert_eq!(be_u8(&[7, 8]), Some((&[8u8][..], 7)));
    assert_eq!(be_u8(&[]), None);
    assert_eq!(be_u16(&[0x12, 0x34, 9]), Some((&[9u8][..], 0x1234)));
    assert_eq!(be_u16(&[0x12]), None);
    assert_eq!(be_u32(&[0x12, 0x34, 0x56, 0x78]), Some((&[][..], 0x1234_5678)));
    assert_eq!(be_u32(&[0xFF, 0xFF, 0xFF, 0xFF, 1]), Some((&[1u8][..], u32::MAX)));
    assert_eq!(be_u32(&[1, 2, 3]), None);
}

#[test]
fn take_splits_at_n() {
    assert_eq!(take(&[1, 2, 3], 2), Some((&[3u8][..], &[1u8, 2][..])));
    assert_eq!(take(&[1, 2, 3], 0), Some((&[1u8, 2, 3][..], &[][..])));
    assert_eq!(take(&[1, 2, 3], 3), Some((&[][..], &[1u8, 2, 3][..])));
    assert_eq!(take(&[1, 2, 3], 4), None);
}

#[test]
fn packet_length_forms() {
    assert_eq!(packet_length(&[0]), Some((&[][..], 0)));
    assert_eq!(packet_length(&[191, 5]), Some((&[5u8][..], 191)));
    assert_eq!(packet_length(&[192, 0]), Some((&[][..], 192)));
    assert_eq!(packet_length(&[192, 1, 7]), Some((&[7u8][..], 193)));
    assert_eq!(packet_length(&[223, 255]), Some((&[][..], 8383)));
    assert_eq!(packet_length(&[254, 255]), Some((&[][..], 16319)));
    assert_eq!(packet_length(&[255, 0, 0, 1, 0]), Some((&[][..], 256)));
    assert_eq!(packet_length(&[255, 0, 1, 0, 0, 3]), Some((&[3u8][..], 65536)));
    assert_eq!(packet_length(&[]), None);
    assert_eq!(packet_length(&[192]), None);
    assert_eq!(packet_length(&[255, 0, 0, 1]), None);
}

#[test]
fn mpi_reads_bits_rounded_up() {
    assert_eq!(mpi(&[0, 1, 1]), Some((&[][..], &[1u8][..])));
    assert_eq!(mpi(&[0, 8, 0xFF, 4]), Some((&[4u8][..], &[0xFFu8][..])));
    assert_eq!(mpi(&[0, 9, 1, 0xFF]), Some((&[][..], &[1u8, 0xFF][..])));
    assert_eq!(mpi(&[0, 0, 5]), Some((&[5u8][..], &[][..])));
    assert_eq!(mpi(&[0, 16, 0, 3]), Some((&[][..], &[3u8][..])));
    assert_eq!(mpi(&[0, 9, 1]), None);
    assert_eq!(mpi(&[0]), None);
}

#[test]
fn leading_zeros_are_stripped() {
    assert_eq!(strip_leading_zeros(&[0, 0, 1, 0]), &[1, 0]);
    assert_eq!(strip_leading_zeros(&[1, 0]), &[1, 0]);
    assert_eq!(strip_leading_zeros(&[0, 0]), &[] as &[u8]);
    assert_eq!(strip_leading_zeros(&[]), &[] as &[u8]);
}

#[test]
fn text_decoding() {
    assert_eq!(strict_text("gr\u{fc}n".as_bytes()), Some("gr\u{fc}n".to_string()));
    assert_eq!(strict_text(&[]), Some(String::new()));
    assert_eq!(strict_text(&[0x80]), None);
    assert_eq!(strict_text(&[0xE2, 0x82]), None);
    assert_eq!(read_string("gr\u{fc}n".as_bytes()), "gr\u{fc}n");
    assert_eq!(read_string(&[0x80]), "\u{fffd}");
}

#[test]
fn timestamps_round_trip() {
    for secs in [0u32, 1, 86_399, 86_400, 1_431_648_000, u32::MAX] {
        let t = dt_from_timestamp(secs);
        assert_eq!(t.timestamp(), i64::from(secs));
        assert_eq!(t.clone(), t);
    }
    assert_ne!(dt_from_timestamp(1), dt_from_timestamp(2));
}

#[test]
fn key_id_and_revocation_key_need_exact_lengths() {
    assert_eq!(KeyId::from_slice(&[1, 2, 3, 4, 5, 6, 7, 8]).unwrap().bytes, [1, 2, 3, 4, 5, 6, 7, 8]);
    assert_eq!(KeyId::from_slice(&[1, 2, 3]), None);
    assert_eq!(KeyId::from_slice(&[0; 9]), None);
    let fp: Vec<u8> = (1u8..=20).collect();
    let key = RevocationKey::new(RevocationKeyClass::Sensitive, PublicKeyAlgorithm::RSA, &fp).unwrap();
    assert_eq!(key.fingerprint.to_vec(), fp);
    assert_eq!(RevocationKey::new(RevocationKeyClass::Default, PublicKeyAlgorithm::RSA, &fp[1..]), None);
}

#[test]
fn every_code_round_trips() {
    for n in 0u8..=255 {
        if let Some(v) = SignatureType::from_u8(n) {
            assert_eq!(v.to_u8(), n);
        }
        if let Some(v) = PublicKeyAlgorithm::from_u8(n) {
            assert_eq!(v.to_u8(), n);
        }
        if let Some(v) = HashAlgorithm::from_u8(n) {
            assert_eq!(v.to_u8(), n);
        }
        if let Some(v) = SymmetricKeyAlgorithm::from_u8(n) {
            assert_eq!(v.to_u8(), n);
        }
        if let Some(v) = CompressionAlgorithm::from_u8(n) {
            assert_eq!(v.to_u8(), n);
        }
        if let Some(v) = AeadAlgorithm::from_u8(n) {
            assert_eq!(v.to_u8(), n);
        }
        if let Some(v) = RevocationCode::from_u8(n) {
            assert_eq!(v.to_u8(), n);
        }
        if let Some(v) = RevocationKeyClass::from_u8(n) {
            assert_eq!(v.to_u8(), n);
        }
        if let Some(v) = KeyVersion::from_u8(n) {
            assert_eq!(v.to_u8(), n);
        }
        assert_eq!(SubpacketType::from_u8(n).to_u8(), n);
    }
}

#[test]
fn known_codes() {
    assert_eq!(PublicKeyAlgorithm::from_u8(1), Some(PublicKeyAlgorithm::RSA));
    assert_eq!(PublicKeyAlgorithm::from_u8(3), Some(PublicKeyAlgorithm::RSASign));
    assert_eq!(PublicKeyAlgorithm::from_u8(22), Some(PublicKeyAlgorithm::EdDSA));
    assert_eq!(PublicKeyAlgorithm::from_u8(23), None);
    assert_eq!(HashAlgorithm::from_u8(8), Some(HashAlgorithm::SHA2_256));
    assert_eq!(HashAlgorithm::from_u8(253), None);
    assert_eq!(SignatureType::from_u8(0x13), Some(SignatureType::CertPositive));
    assert_eq!(SubpacketType::from_u8(2), SubpacketType::SignatureCreationTime);
    assert_eq!(SubpacketType::from_u8(32), SubpacketType::EmbeddedSignature);
    assert_eq!(SubpacketType::from_u8(100), SubpacketType::Experimental(100));
    assert_eq!(SubpacketType::from_u8(110), SubpacketType::Experimental(110));
    assert_eq!(SubpacketType::from_u8(111), SubpacketType::Other(111));
    assert_eq!(SubpacketType::from_u8(0), SubpacketType::Other(0));
}
