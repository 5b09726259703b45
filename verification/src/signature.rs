use vstd::prelude::*;
use crate::algorithms::{
    AeadAlgorithm, CompressionAlgorithm, HashAlgorithm, PublicKeyAlgorithm, SymmetricKeyAlgorithm,
};
use crate::codes::{KeyVersion, RevocationCode, SignatureType, SignatureVersion, Version};
use crate::lists::{AeadAlgorithms, CompressionAlgorithms, HashAlgorithms, SymmetricAlgorithms};
use crate::small::SmallBytes;
use crate::time::UtcTime;
use crate::types::{KeyId, Mpi, Notation, NotationView, RevocationKey, RevocationKeyView, mpis_view};

verus! {

/// A field of a signature's hashed or unhashed area.
#[derive(Debug, PartialEq, Eq)]
pub enum Subpacket {
    /// When the signature was made.
    SignatureCreationTime(UtcTime),
    /// When the signature stops being valid.
    SignatureExpirationTime(UtcTime),
    /// When the key stops being valid.
    KeyExpirationTime(UtcTime),
    /// The key that made the signature.
    Issuer(KeyId),
    PreferredSymmetricAlgorithms(SymmetricAlgorithms),
    PreferredHashAlgorithms(HashAlgorithms),
    PreferredCompressionAlgorithms(CompressionAlgorithms),
    KeyServerPreferences(SmallBytes),
    KeyFlags(SmallBytes),
    Features(SmallBytes),
    RevocationReason(RevocationCode, String),
    IsPrimary(bool),
    Revocable(bool),
    EmbeddedSignature(Box<Signature>),
    PreferredKeyServer(String),
    Notation(Notation),
    RevocationKey(RevocationKey),
    SignersUserID(String),
    PolicyURI(String),
    /// Depth and trust amount, as they stood on the wire.
    TrustSignature(u8, u8),
    RegularExpression(String),
    ExportableCertification(bool),
    IssuerFingerprint(KeyVersion, SmallBytes),
    PreferredAeadAlgorithms(AeadAlgorithms),
    /// A subpacket of a kind reserved for experiments: its tag and body.
    Experimental(u8, SmallBytes),
    /// A subpacket of a kind that is not known: its tag and body.
    Other(u8, Vec<u8>),
    SignatureTarget(PublicKeyAlgorithm, HashAlgorithm, Vec<u8>),
}

/// The fields of a signature that are hashed with the signed data.
#[derive(Debug, PartialEq, Eq)]
pub struct SignatureConfig {
    pub version: SignatureVersion,
    pub typ: SignatureType,
    pub pub_alg: PublicKeyAlgorithm,
    pub hash_alg: HashAlgorithm,
    pub unhashed_subpackets: Vec<Subpacket>,
    pub hashed_subpackets: Vec<Subpacket>,
    /// Set from the fixed field of a legacy signature; unset otherwise.
    pub created: Option<UtcTime>,
    /// Set from the fixed field of a legacy signature; unset otherwise.
    pub issuer: Option<KeyId>,
}

/// A parsed signature packet.
#[derive(Debug, PartialEq, Eq)]
pub struct Signature {
    pub packet_version: Version,
    pub config: SignatureConfig,
    /// The leading sixteen bits of the signed hash.
    pub signed_hash_value: [u8; 2],
    /// The integers that make up the signature itself.
    pub signature: Vec<Mpi>,
}

/// What a `Subpacket` stands for.
pub enum SubpacketView {
    SignatureCreationTime(int),
    SignatureExpirationTime(int),
    KeyExpirationTime(int),
    Issuer(Seq<u8>),
    PreferredSymmetricAlgorithms(Seq<SymmetricKeyAlgorithm>),
    PreferredHashAlgorithms(Seq<HashAlgorithm>),
    PreferredCompressionAlgorithms(Seq<CompressionAlgorithm>),
    KeyServerPreferences(Seq<u8>),
    KeyFlags(Seq<u8>),
    Features(Seq<u8>),
    RevocationReason(RevocationCode, Seq<char>),
    IsPrimary(bool),
    Revocable(bool),
    EmbeddedSignature(Box<SignatureView>),
    PreferredKeyServer(Seq<char>),
    Notation(NotationView),
    RevocationKey(RevocationKeyView),
    SignersUserID(Seq<char>),
    PolicyURI(Seq<char>),
    TrustSignature(u8, u8),
    RegularExpression(Seq<char>),
    ExportableCertification(bool),
    IssuerFingerprint(KeyVersion, Seq<u8>),
    PreferredAeadAlgorithms(Seq<AeadAlgorithm>),
    Experimental(u8, Seq<u8>),
    Other(u8, Seq<u8>),
    SignatureTarget(PublicKeyAlgorithm, HashAlgorithm, Seq<u8>),
}

/// What a `Signature` stands for.
pub struct SignatureView {
    pub packet_version: Version,
    pub version: SignatureVersion,
    pub typ: SignatureType,
    pub pub_alg: PublicKeyAlgorithm,
    pub hash_alg: HashAlgorithm,
    pub signed_hash_value: Seq<u8>,
    pub signature: Seq<Seq<u8>>,
    pub hashed_subpackets: Seq<SubpacketView>,
    pub unhashed_subpackets: Seq<SubpacketView>,
    pub created: Option<int>,
    pub issuer: Option<Seq<u8>>,
}

/// The views of a run of subpackets, in order.
pub open spec fn subpackets_view(v: Seq<Subpacket>) -> Seq<SubpacketView>
    decreases v,
{
    Seq::new(
        v.len(),
        |i: int|
            if 0 <= i < v.len() {
                subpacket_view(v[i])
            } else {
                arbitrary()
            },
    )
}

pub open spec fn subpacket_view(sp: Subpacket) -> SubpacketView
    decreases sp,
{
    match sp {
        Subpacket::SignatureCreationTime(t) => SubpacketView::SignatureCreationTime(t@),
        Subpacket::SignatureExpirationTime(t) => SubpacketView::SignatureExpirationTime(t@),
        Subpacket::KeyExpirationTime(t) => SubpacketView::KeyExpirationTime(t@),
        Subpacket::Issuer(id) => SubpacketView::Issuer(id@),
        Subpacket::PreferredSymmetricAlgorithms(l) => SubpacketView::PreferredSymmetricAlgorithms(
            l@,
        ),
        Subpacket::PreferredHashAlgorithms(l) => SubpacketView::PreferredHashAlgorithms(l@),
        Subpacket::PreferredCompressionAlgorithms(l) => SubpacketView::PreferredCompressionAlgorithms(l@),
        Subpacket::KeyServerPreferences(b) => SubpacketView::KeyServerPreferences(b@),
        Subpacket::KeyFlags(b) => SubpacketView::KeyFlags(b@),
        Subpacket::Features(b) => SubpacketView::Features(b@),
        Subpacket::RevocationReason(code, text) => SubpacketView::RevocationReason(code, text@),
        Subpacket::IsPrimary(b) => SubpacketView::IsPrimary(b),
        Subpacket::Revocable(b) => SubpacketView::Revocable(b),
        Subpacket::EmbeddedSignature(sig) => SubpacketView::EmbeddedSignature(
            Box::new(signature_view(*sig)),
        ),
        Subpacket::PreferredKeyServer(text) => SubpacketView::PreferredKeyServer(text@),
        Subpacket::Notation(n) => SubpacketView::Notation(n@),
        Subpacket::RevocationKey(k) => SubpacketView::RevocationKey(k@),
        Subpacket::SignersUserID(text) => SubpacketView::SignersUserID(text@),
        Subpacket::PolicyURI(text) => SubpacketView::PolicyURI(text@),
        Subpacket::TrustSignature(depth, amount) => SubpacketView::TrustSignature(depth, amount),
        Subpacket::RegularExpression(text) => SubpacketView::RegularExpression(text@),
        Subpacket::ExportableCertification(b) => SubpacketView::ExportableCertification(b),
        Subpacket::IssuerFingerprint(version, fp) => SubpacketView::IssuerFingerprint(version, fp@),
        Subpacket::PreferredAeadAlgorithms(l) => SubpacketView::PreferredAeadAlgorithms(l@),
        Subpacket::Experimental(tag, body) => SubpacketView::Experimental(tag, body@),
        Subpacket::Other(tag, body) => SubpacketView::Other(tag, body@),
        Subpacket::SignatureTarget(pub_alg, hash_alg, digest) => SubpacketView::SignatureTarget(
            pub_alg,
            hash_alg,
            digest@,
        ),
    }
}

pub open spec fn signature_view(sig: Signature) -> SignatureView
    decreases sig,
{
    SignatureView {
        packet_version: sig.packet_version,
        version: sig.config.version,
        typ: sig.config.typ,
        pub_alg: sig.config.pub_alg,
        hash_alg: sig.config.hash_alg,
        signed_hash_value: sig.signed_hash_value@,
        signature: mpis_view(sig.signature@),
        hashed_subpackets: subpackets_view(sig.config.hashed_subpackets@),
        unhashed_subpackets: subpackets_view(sig.config.unhashed_subpackets@),
        created: match sig.config.created {
            Some(t) => Some(t@),
            None => None,
        },
        issuer: match sig.config.issuer {
            Some(id) => Some(id@),
            None => None,
        },
    }
}

impl View for Subpacket {
    type V = SubpacketView;

    open spec fn view(&self) -> SubpacketView {
        subpacket_view(*self)
    }
}

impl View for Signature {
    type V = SignatureView;

    open spec fn view(&self) -> SignatureView {
        signature_view(*self)
    }
}

} // verus!
