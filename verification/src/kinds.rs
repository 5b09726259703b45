//! One parser for each kind of subpacket that stands alone.
//!
//! Each takes the exact body of a subpacket and returns the part of the body
//! that its grammar leaves unread together with the typed subpacket.

use vstd::prelude::*;
use vstd::slice::{slice_subrange, slice_to_vec};
use crate::algorithms::{HashAlgorithm, PublicKeyAlgorithm};
use crate::codes::{KeyVersion, RevocationCode, RevocationKeyClass, SubpacketType};
use crate::errors::{Field, ParseError};
use crate::grammar::{spec_notation, spec_subpacket};
use crate::lists::{AeadAlgorithms, CompressionAlgorithms, HashAlgorithms, SymmetricAlgorithms};
use crate::signature::{Subpacket, SubpacketView};
use crate::small::SmallBytes;
use crate::text::{read_string, strict_text};
use crate::time::dt_from_timestamp;
use crate::types::{KeyId, Notation, RevocationKey};
use crate::wire::{be_u32, be_u8, take};

verus! {

/// What the outcome of a subpacket parser stands for.
pub open spec fn subpacket_outcome(r: Result<(&[u8], Subpacket), ParseError>) -> Result<
    (Seq<u8>, SubpacketView),
    ParseError,
> {
    match r {
        Ok((rest, sp)) => Ok((rest@, sp@)),
        Err(e) => Err(e),
    }
}

/// The empty slice at the end of `body`.
pub fn end_of(body: &[u8]) -> (r: &[u8])
    ensures
        r@ == Seq::<u8>::empty(),
{
    let r = slice_subrange(body, body.len(), body.len());
    assert(r@ =~= Seq::<u8>::empty());
    r
}

/// Parses a signature creation time subpacket: four octets of seconds
/// since the Unix epoch.
pub fn signature_creation_time(body: &[u8]) -> (r: Result<(&[u8], Subpacket), ParseError>)
    ensures
        subpacket_outcome(r) == spec_subpacket(SubpacketType::SignatureCreationTime, body@, 0),
{
    match be_u32(body) {
        None => Err(ParseError::malformed(Field::Subpacket(SubpacketType::SignatureCreationTime))),
        Some((rest, secs)) => Ok((rest, Subpacket::SignatureCreationTime(dt_from_timestamp(secs)))),
    }
}

/// Parses a signature expiration time subpacket.
pub fn signature_expiration_time(body: &[u8]) -> (r: Result<(&[u8], Subpacket), ParseError>)
    ensures
        subpacket_outcome(r) == spec_subpacket(SubpacketType::SignatureExpirationTime, body@, 0),
{
    match be_u32(body) {
        None => Err(
            ParseError::malformed(Field::Subpacket(SubpacketType::SignatureExpirationTime)),
        ),
        Some((rest, secs)) => Ok(
            (rest, Subpacket::SignatureExpirationTime(dt_from_timestamp(secs))),
        ),
    }
}

/// Parses a key expiration time subpacket.
pub fn key_expiration(body: &[u8]) -> (r: Result<(&[u8], Subpacket), ParseError>)
    ensures
        subpacket_outcome(r) == spec_subpacket(SubpacketType::KeyExpirationTime, body@, 0),
{
    match be_u32(body) {
        None => Err(ParseError::malformed(Field::Subpacket(SubpacketType::KeyExpirationTime))),
        Some((rest, secs)) => Ok((rest, Subpacket::KeyExpirationTime(dt_from_timestamp(secs)))),
    }
}

/// Parses an issuer subpacket: the eight octets of a key identifier.
pub fn issuer(body: &[u8]) -> (r: Result<(&[u8], Subpacket), ParseError>)
    ensures
        subpacket_outcome(r) == spec_subpacket(SubpacketType::Issuer, body@, 0),
{
    let bad = ParseError::malformed(Field::Subpacket(SubpacketType::Issuer));
    match take(body, 8) {
        None => Err(bad),
        Some((rest, id)) => match KeyId::from_slice(id) {
            None => Err(bad),
            Some(id) => Ok((rest, Subpacket::Issuer(id))),
        },
    }
}

/// Parses an exportable certification subpacket: one octet, 1 for yes.
pub fn exportable_certification(body: &[u8]) -> (r: Result<(&[u8], Subpacket), ParseError>)
    ensures
        subpacket_outcome(r) == spec_subpacket(SubpacketType::ExportableCertification, body@, 0),
{
    match be_u8(body) {
        None => Err(
            ParseError::malformed(Field::Subpacket(SubpacketType::ExportableCertification)),
        ),
        Some((rest, v)) => Ok((rest, Subpacket::ExportableCertification(v == 1))),
    }
}

/// Parses a revocable subpacket: one octet, 1 for yes.
pub fn revocable(body: &[u8]) -> (r: Result<(&[u8], Subpacket), ParseError>)
    ensures
        subpacket_outcome(r) == spec_subpacket(SubpacketType::Revocable, body@, 0),
{
    match be_u8(body) {
        None => Err(ParseError::malformed(Field::Subpacket(SubpacketType::Revocable))),
        Some((rest, v)) => Ok((rest, Subpacket::Revocable(v == 1))),
    }
}

/// Parses a primary user id subpacket: one octet, 1 for yes.
pub fn primary_userid(body: &[u8]) -> (r: Result<(&[u8], Subpacket), ParseError>)
    ensures
        subpacket_outcome(r) == spec_subpacket(SubpacketType::PrimaryUserId, body@, 0),
{
    match be_u8(body) {
        None => Err(ParseError::malformed(Field::Subpacket(SubpacketType::PrimaryUserId))),
        Some((rest, v)) => Ok((rest, Subpacket::IsPrimary(v == 1))),
    }
}

/// Parses a trust signature subpacket: a depth octet and an amount octet,
/// both kept as they are.
pub fn trust_signature(body: &[u8]) -> (r: Result<(&[u8], Subpacket), ParseError>)
    ensures
        subpacket_outcome(r) == spec_subpacket(SubpacketType::TrustSignature, body@, 0),
{
    match take(body, 2) {
        None => Err(ParseError::malformed(Field::Subpacket(SubpacketType::TrustSignature))),
        Some((rest, pair)) => Ok((rest, Subpacket::TrustSignature(pair[0], pair[1]))),
    }
}

/// Parses a regular expression subpacket: the whole body, read leniently
/// as text.
pub fn regular_expression(body: &[u8]) -> (r: Result<(&[u8], Subpacket), ParseError>)
    ensures
        subpacket_outcome(r) == spec_subpacket(SubpacketType::RegularExpression, body@, 0),
{
    Ok((end_of(body), Subpacket::RegularExpression(read_string(body))))
}

/// Parses a policy URI subpacket: the whole body, read leniently as text.
pub fn policy_uri(body: &[u8]) -> (r: Result<(&[u8], Subpacket), ParseError>)
    ensures
        subpacket_outcome(r) == spec_subpacket(SubpacketType::PolicyURI, body@, 0),
{
    Ok((end_of(body), Subpacket::PolicyURI(read_string(body))))
}

/// Parses a preferred key server subpacket: the whole body, which must be
/// well-formed UTF-8.
pub fn preferred_key_server(body: &[u8]) -> (r: Result<(&[u8], Subpacket), ParseError>)
    ensures
        subpacket_outcome(r) == spec_subpacket(SubpacketType::PreferredKeyServer, body@, 0),
{
    match strict_text(body) {
        None => Err(ParseError::malformed(Field::Subpacket(SubpacketType::PreferredKeyServer))),
        Some(text) => Ok((end_of(body), Subpacket::PreferredKeyServer(text))),
    }
}

/// Parses a signer's user id subpacket: the whole body, which must be
/// well-formed UTF-8.
pub fn signers_userid(body: &[u8]) -> (r: Result<(&[u8], Subpacket), ParseError>)
    ensures
        subpacket_outcome(r) == spec_subpacket(SubpacketType::SignersUserID, body@, 0),
{
    match strict_text(body) {
        None => Err(ParseError::malformed(Field::Subpacket(SubpacketType::SignersUserID))),
        Some(text) => Ok((end_of(body), Subpacket::SignersUserID(text))),
    }
}

/// Parses a preferred symmetric algorithms subpacket: one code per octet,
/// each of which must be known.
pub fn pref_sym_alg(body: &[u8]) -> (r: Result<(&[u8], Subpacket), ParseError>)
    ensures
        subpacket_outcome(r) == spec_subpacket(
            SubpacketType::PreferredSymmetricAlgorithms,
            body@,
            0,
        ),
{
    match SymmetricAlgorithms::from_codes(body) {
        None => Err(
            ParseError::unknown(Field::Subpacket(SubpacketType::PreferredSymmetricAlgorithms)),
        ),
        Some(list) => Ok((end_of(body), Subpacket::PreferredSymmetricAlgorithms(list))),
    }
}

/// Parses a preferred hash algorithms subpacket.
pub fn pref_hash_alg(body: &[u8]) -> (r: Result<(&[u8], Subpacket), ParseError>)
    ensures
        subpacket_outcome(r) == spec_subpacket(SubpacketType::PreferredHashAlgorithms, body@, 0),
{
    match HashAlgorithms::from_codes(body) {
        None => Err(ParseError::unknown(Field::Subpacket(SubpacketType::PreferredHashAlgorithms))),
        Some(list) => Ok((end_of(body), Subpacket::PreferredHashAlgorithms(list))),
    }
}

/// Parses a preferred compression algorithms subpacket.
pub fn pref_com_alg(body: &[u8]) -> (r: Result<(&[u8], Subpacket), ParseError>)
    ensures
        subpacket_outcome(r) == spec_subpacket(
            SubpacketType::PreferredCompressionAlgorithms,
            body@,
            0,
        ),
{
    match CompressionAlgorithms::from_codes(body) {
        None => Err(
            ParseError::unknown(Field::Subpacket(SubpacketType::PreferredCompressionAlgorithms)),
        ),
        Some(list) => Ok((end_of(body), Subpacket::PreferredCompressionAlgorithms(list))),
    }
}

/// Parses a preferred AEAD algorithms subpacket.
pub fn pref_aead_alg(body: &[u8]) -> (r: Result<(&[u8], Subpacket), ParseError>)
    ensures
        subpacket_outcome(r) == spec_subpacket(SubpacketType::PreferredAead, body@, 0),
{
    match AeadAlgorithms::from_codes(body) {
        None => Err(ParseError::unknown(Field::Subpacket(SubpacketType::PreferredAead))),
        Some(list) => Ok((end_of(body), Subpacket::PreferredAeadAlgorithms(list))),
    }
}

/// Parses a key server preferences subpacket: flag octets, kept as they are.
pub fn key_server_prefs(body: &[u8]) -> (r: Result<(&[u8], Subpacket), ParseError>)
    ensures
        subpacket_outcome(r) == spec_subpacket(SubpacketType::KeyServerPreferences, body@, 0),
{
    Ok((end_of(body), Subpacket::KeyServerPreferences(SmallBytes::from_slice(body))))
}

/// Parses a key flags subpacket: flag octets, kept as they are.
pub fn key_flags(body: &[u8]) -> (r: Result<(&[u8], Subpacket), ParseError>)
    ensures
        subpacket_outcome(r) == spec_subpacket(SubpacketType::KeyFlags, body@, 0),
{
    Ok((end_of(body), Subpacket::KeyFlags(SmallBytes::from_slice(body))))
}

/// Parses a features subpacket: flag octets, kept as they are.
pub fn features(body: &[u8]) -> (r: Result<(&[u8], Subpacket), ParseError>)
    ensures
        subpacket_outcome(r) == spec_subpacket(SubpacketType::Features, body@, 0),
{
    Ok((end_of(body), Subpacket::Features(SmallBytes::from_slice(body))))
}

/// Parses a revocation key subpacket: a class octet, an algorithm octet
/// and a fingerprint of twenty octets.
pub fn revocation_key(body: &[u8]) -> (r: Result<(&[u8], Subpacket), ParseError>)
    ensures
        subpacket_outcome(r) == spec_subpacket(SubpacketType::RevocationKey, body@, 0),
{
    let bad = ParseError::malformed(Field::Subpacket(SubpacketType::RevocationKey));
    let unknown = ParseError::unknown(Field::Subpacket(SubpacketType::RevocationKey));
    let (after_class, class) = match be_u8(body) {
        None => { return Err(bad); },
        Some(read) => read,
    };
    let class = match RevocationKeyClass::from_u8(class) {
        None => { return Err(unknown); },
        Some(class) => class,
    };
    let (after_alg, algorithm) = match be_u8(after_class) {
        None => { return Err(bad); },
        Some(read) => read,
    };
    let algorithm = match PublicKeyAlgorithm::from_u8(algorithm) {
        None => { return Err(unknown); },
        Some(algorithm) => algorithm,
    };
    let (rest, fp) = match take(after_alg, 20) {
        None => { return Err(bad); },
        Some(read) => read,
    };
    assert(rest@ =~= body@.skip(22));
    assert(fp@ =~= body@.subrange(2, 22));
    match RevocationKey::new(class, algorithm, fp) {
        None => Err(bad),
        Some(key) => Ok((rest, Subpacket::RevocationKey(key))),
    }
}

/// Parses a notation data subpacket: a flag octet whose top bit marks the
/// value as readable text, three zero octets, the two lengths, then the
/// name and the value.
pub fn notation_data(body: &[u8]) -> (r: Result<(&[u8], Subpacket), ParseError>)
    ensures
        subpacket_outcome(r) == spec_subpacket(SubpacketType::Notation, body@, 0),
{
    let bad = ParseError::malformed(Field::Subpacket(SubpacketType::Notation));
    let (after_head, head) = match take(body, 8) {
        None => { return Err(bad); },
        Some(read) => read,
    };
    if head[1] != 0 || head[2] != 0 || head[3] != 0 {
        return Err(bad);
    }
    let readable = head[0] & 0x80 != 0;
    let name_len: usize = head[4] as usize * 0x100 + head[5] as usize;
    let value_len: usize = head[6] as usize * 0x100 + head[7] as usize;
    let (after_name, name) = match take(after_head, name_len) {
        None => { return Err(bad); },
        Some(read) => read,
    };
    let (rest, value) = match take(after_name, value_len) {
        None => { return Err(bad); },
        Some(read) => read,
    };
    assert(name@ =~= body@.subrange(8, 8 + name_len));
    assert(value@ =~= body@.subrange(8 + name_len, 8 + name_len + value_len));
    assert(rest@ =~= body@.skip(8 + name_len + value_len));
    let notation = Notation { readable, name: read_string(name), value: read_string(value) };
    assert(spec_notation(body@) == Some((rest@, notation@)));
    Ok((rest, Subpacket::Notation(notation)))
}

/// Parses a revocation reason subpacket: a reason code, then text.
pub fn rev_reason(body: &[u8]) -> (r: Result<(&[u8], Subpacket), ParseError>)
    ensures
        subpacket_outcome(r) == spec_subpacket(SubpacketType::RevocationReason, body@, 0),
{
    match be_u8(body) {
        None => Err(ParseError::malformed(Field::Subpacket(SubpacketType::RevocationReason))),
        Some((rest, code)) => match RevocationCode::from_u8(code) {
            None => Err(ParseError::unknown(Field::Subpacket(SubpacketType::RevocationReason))),
            Some(code) => Ok((end_of(body), Subpacket::RevocationReason(code, read_string(rest)))),
        },
    }
}

/// Parses a signature target subpacket: the two algorithms of the target
/// signature, then its digest.
pub fn sig_target(body: &[u8]) -> (r: Result<(&[u8], Subpacket), ParseError>)
    ensures
        subpacket_outcome(r) == spec_subpacket(SubpacketType::SignatureTarget, body@, 0),
{
    let bad = ParseError::malformed(Field::Subpacket(SubpacketType::SignatureTarget));
    let unknown = ParseError::unknown(Field::Subpacket(SubpacketType::SignatureTarget));
    let (after_pub, pub_alg) = match be_u8(body) {
        None => { return Err(bad); },
        Some(read) => read,
    };
    let pub_alg = match PublicKeyAlgorithm::from_u8(pub_alg) {
        None => { return Err(unknown); },
        Some(alg) => alg,
    };
    let (digest, hash_alg) = match be_u8(after_pub) {
        None => { return Err(bad); },
        Some(read) => read,
    };
    let hash_alg = match HashAlgorithm::from_u8(hash_alg) {
        None => { return Err(unknown); },
        Some(alg) => alg,
    };
    assert(digest@ =~= body@.skip(2));
    Ok((end_of(body), Subpacket::SignatureTarget(pub_alg, hash_alg, slice_to_vec(digest))))
}

/// Parses an issuer fingerprint subpacket: a key version, then the
/// fingerprint, whose length is not checked against the version.
pub fn issuer_fingerprint(body: &[u8]) -> (r: Result<(&[u8], Subpacket), ParseError>)
    ensures
        subpacket_outcome(r) == spec_subpacket(SubpacketType::IssuerFingerprint, body@, 0),
{
    match be_u8(body) {
        None => Err(ParseError::malformed(Field::Subpacket(SubpacketType::IssuerFingerprint))),
        Some((rest, version)) => match KeyVersion::from_u8(version) {
            None => Err(ParseError::unknown(Field::Subpacket(SubpacketType::IssuerFingerprint))),
            Some(version) => Ok(
                (end_of(body), Subpacket::IssuerFingerprint(version, SmallBytes::from_slice(rest))),
            ),
        },
    }
}

/// Keeps a subpacket of a kind outside the known set: its tag and its body,
/// as they are. `typ` is one of the two catch-all kinds.
pub(crate) fn catch_all(typ: SubpacketType, body: &[u8]) -> (r: Result<(&[u8], Subpacket), ParseError>)
    requires
        typ is Experimental || typ is Other,
    ensures
        subpacket_outcome(r) == spec_subpacket(typ, body@, 0),
{
    match typ {
        SubpacketType::Experimental(tag) => Ok(
            (end_of(body), Subpacket::Experimental(tag, SmallBytes::from_slice(body))),
        ),
        SubpacketType::Other(tag) => Ok((end_of(body), Subpacket::Other(tag, slice_to_vec(body)))),
        _ => Err(ParseError::malformed(Field::Subpacket(typ))),
    }
}

} // verus!
