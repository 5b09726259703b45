use pgp_signature::codes::SignatureVersion;

#[test]
fn signature_version_codes() {
    assert_eq!(SignatureVersion::from_u8(4), Some(SignatureVersion::V4));
    assert_eq!(SignatureVersion::from_u8(6), None);
    assert_eq!(SignatureVersion::V2.to_u8(), 2);
}
