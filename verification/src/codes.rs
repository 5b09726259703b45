use vstd::prelude::*;

verus! {

/// The format of the packet header that framed a packet.
#[derive(Debug, Clone, Copy, PartialEq, Eq, Structural)]
pub enum Version {
    Old,
    New,
}

/// The version of a signature packet's body.
#[derive(Debug, Clone, Copy, PartialEq, Eq, Structural)]
pub enum SignatureVersion {
    V2,
    V3,
    V4,
    V5,
}

impl SignatureVersion {
    pub open spec fn spec_from_u8(n: u8) -> Option<SignatureVersion> {
        match n {
            2 => Some(SignatureVersion::V2),
            3 => Some(SignatureVersion::V3),
            4 => Some(SignatureVersion::V4),
            5 => Some(SignatureVersion::V5),
            _ => None,
        }
    }

    pub open spec fn spec_to_u8(self) -> u8 {
        match self {
            SignatureVersion::V2 => 2,
            SignatureVersion::V3 => 3,
            SignatureVersion::V4 => 4,
            SignatureVersion::V5 => 5,
        }
    }

    /// True for the versions whose body has the fixed legacy layout.
    pub open spec fn is_legacy(self) -> bool {
        self == SignatureVersion::V2 || self == SignatureVersion::V3
    }

    pub fn from_u8(n: u8) -> (r: Option<SignatureVersion>)
        ensures
            r == Self::spec_from_u8(n),
    {
        match n {
            2 => Some(SignatureVersion::V2),
            3 => Some(SignatureVersion::V3),
            4 => Some(SignatureVersion::V4),
            5 => Some(SignatureVersion::V5),
            _ => None,
        }
    }

    pub fn to_u8(self) -> (n: u8)
        ensures
            n == self.spec_to_u8(),
            Self::spec_from_u8(n) == Some(self),
    {
        match self {
            SignatureVersion::V2 => 2,
            SignatureVersion::V3 => 3,
            SignatureVersion::V4 => 4,
            SignatureVersion::V5 => 5,
        }
    }
}

/// The version of the key that a fingerprint belongs to.
#[derive(Debug, Clone, Copy, PartialEq, Eq, Structural)]
pub enum KeyVersion {
    V2,
    V3,
    V4,
    V5,
}

impl KeyVersion {
    pub open spec fn spec_from_u8(n: u8) -> Option<KeyVersion> {
        match n {
            2 => Some(KeyVersion::V2),
            3 => Some(KeyVersion::V3),
            4 => Some(KeyVersion::V4),
            5 => Some(KeyVersion::V5),
            _ => None,
        }
    }

    pub open spec fn spec_to_u8(self) -> u8 {
        match self {
            KeyVersion::V2 => 2,
            KeyVersion::V3 => 3,
            KeyVersion::V4 => 4,
            KeyVersion::V5 => 5,
        }
    }

    pub fn from_u8(n: u8) -> (r: Option<KeyVersion>)
        ensures
            r == Self::spec_from_u8(n),
    {
        match n {
            2 => Some(KeyVersion::V2),
            3 => Some(KeyVersion::V3),
            4 => Some(KeyVersion::V4),
            5 => Some(KeyVersion::V5),
            _ => None,
        }
    }

    pub fn to_u8(self) -> (n: u8)
        ensures
            n == self.spec_to_u8(),
            Self::spec_from_u8(n) == Some(self),
    {
        match self {
            KeyVersion::V2 => 2,
            KeyVersion::V3 => 3,
            KeyVersion::V4 => 4,
            KeyVersion::V5 => 5,
        }
    }
}

/// What a signature certifies.
#[derive(Debug, Clone, Copy, PartialEq, Eq, Structural)]
pub enum SignatureType {
    Binary,
    Text,
    Standalone,
    CertGeneric,
    CertPersona,
    CertCasual,
    CertPositive,
    SubkeyBinding,
    KeyBinding,
    Key,
    KeyRevocation,
    SubkeyRevocation,
    CertRevocation,
    Timestamp,
    ThirdParty,
}

impl SignatureType {
    pub open spec fn spec_from_u8(n: u8) -> Option<SignatureType> {
        match n {
            0x00 => Some(SignatureType::Binary),
            0x01 => Some(SignatureType::Text),
            0x02 => Some(SignatureType::Standalone),
            0x10 => Some(SignatureType::CertGeneric),
            0x11 => Some(SignatureType::CertPersona),
            0x12 => Some(SignatureType::CertCasual),
            0x13 => Some(SignatureType::CertPositive),
            0x18 => Some(SignatureType::SubkeyBinding),
            0x19 => Some(SignatureType::KeyBinding),
            0x1F => Some(SignatureType::Key),
            0x20 => Some(SignatureType::KeyRevocation),
            0x28 => Some(SignatureType::SubkeyRevocation),
            0x30 => Some(SignatureType::CertRevocation),
            0x40 => Some(SignatureType::Timestamp),
            0x50 => Some(SignatureType::ThirdParty),
            _ => None,
        }
    }

    pub open spec fn spec_to_u8(self) -> u8 {
        match self {
            SignatureType::Binary => 0x00,
            SignatureType::Text => 0x01,
            SignatureType::Standalone => 0x02,
            SignatureType::CertGeneric => 0x10,
            SignatureType::CertPersona => 0x11,
            SignatureType::CertCasual => 0x12,
            SignatureType::CertPositive => 0x13,
            SignatureType::SubkeyBinding => 0x18,
            SignatureType::KeyBinding => 0x19,
            SignatureType::Key => 0x1F,
            SignatureType::KeyRevocation => 0x20,
            SignatureType::SubkeyRevocation => 0x28,
            SignatureType::CertRevocation => 0x30,
            SignatureType::Timestamp => 0x40,
            SignatureType::ThirdParty => 0x50,
        }
    }

    pub fn from_u8(n: u8) -> (r: Option<SignatureType>)
        ensures
            r == Self::spec_from_u8(n),
    {
        match n {
            0x00 => Some(SignatureType::Binary),
            0x01 => Some(SignatureType::Text),
            0x02 => Some(SignatureType::Standalone),
            0x10 => Some(SignatureType::CertGeneric),
            0x11 => Some(SignatureType::CertPersona),
            0x12 => Some(SignatureType::CertCasual),
            0x13 => Some(SignatureType::CertPositive),
            0x18 => Some(SignatureType::SubkeyBinding),
            0x19 => Some(SignatureType::KeyBinding),
            0x1F => Some(SignatureType::Key),
            0x20 => Some(SignatureType::KeyRevocation),
            0x28 => Some(SignatureType::SubkeyRevocation),
            0x30 => Some(SignatureType::CertRevocation),
            0x40 => Some(SignatureType::Timestamp),
            0x50 => Some(SignatureType::ThirdParty),
            _ => None,
        }
    }

    pub fn to_u8(self) -> (n: u8)
        ensures
            n == self.spec_to_u8(),
            Self::spec_from_u8(n) == Some(self),
    {
        match self {
            SignatureType::Binary => 0x00,
            SignatureType::Text => 0x01,
            SignatureType::Standalone => 0x02,
            SignatureType::CertGeneric => 0x10,
            SignatureType::CertPersona => 0x11,
            SignatureType::CertCasual => 0x12,
            SignatureType::CertPositive => 0x13,
            SignatureType::SubkeyBinding => 0x18,
            SignatureType::KeyBinding => 0x19,
            SignatureType::Key => 0x1F,
            SignatureType::KeyRevocation => 0x20,
            SignatureType::SubkeyRevocation => 0x28,
            SignatureType::CertRevocation => 0x30,
            SignatureType::Timestamp => 0x40,
            SignatureType::ThirdParty => 0x50,
        }
    }
}

/// The class octet of a revocation key.
#[derive(Debug, Clone, Copy, PartialEq, Eq, Structural)]
pub enum RevocationKeyClass {
    Default,
    Sensitive,
}

impl RevocationKeyClass {
    pub open spec fn spec_from_u8(n: u8) -> Option<RevocationKeyClass> {
        match n {
            0x80 => Some(RevocationKeyClass::Default),
            0xC0 => Some(RevocationKeyClass::Sensitive),
            _ => None,
        }
    }

    pub open spec fn spec_to_u8(self) -> u8 {
        match self {
            RevocationKeyClass::Default => 0x80,
            RevocationKeyClass::Sensitive => 0xC0,
        }
    }

    pub fn from_u8(n: u8) -> (r: Option<RevocationKeyClass>)
        ensures
            r == Self::spec_from_u8(n),
    {
        match n {
            0x80 => Some(RevocationKeyClass::Default),
            0xC0 => Some(RevocationKeyClass::Sensitive),
            _ => None,
        }
    }

    pub fn to_u8(self) -> (n: u8)
        ensures
            n == self.spec_to_u8(),
            Self::spec_from_u8(n) == Some(self),
    {
        match self {
            RevocationKeyClass::Default => 0x80,
            RevocationKeyClass::Sensitive => 0xC0,
        }
    }
}

/// The machine-readable reason for a revocation.
#[derive(Debug, Clone, Copy, PartialEq, Eq, Structural)]
pub enum RevocationCode {
    NoReason,
    KeySuperseded,
    KeyCompromised,
    KeyRetired,
    CertUserIdInvalid,
    Private100,
    Private101,
    Private102,
    Private103,
    Private104,
    Private105,
    Private106,
    Private107,
    Private108,
    Private109,
    Private110,
}

impl RevocationCode {
    pub open spec fn spec_from_u8(n: u8) -> Option<RevocationCode> {
        match n {
            0 => Some(RevocationCode::NoReason),
            1 => Some(RevocationCode::KeySuperseded),
            2 => Some(RevocationCode::KeyCompromised),
            3 => Some(RevocationCode::KeyRetired),
            32 => Some(RevocationCode::CertUserIdInvalid),
            100 => Some(RevocationCode::Private100),
            101 => Some(RevocationCode::Private101),
            102 => Some(RevocationCode::Private102),
            103 => Some(RevocationCode::Private103),
            104 => Some(RevocationCode::Private104),
            105 => Some(RevocationCode::Private105),
            106 => Some(RevocationCode::Private106),
            107 => Some(RevocationCode::Private107),
            108 => Some(RevocationCode::Private108),
            109 => Some(RevocationCode::Private109),
            110 => Some(RevocationCode::Private110),
            _ => None,
        }
    }

    pub open spec fn spec_to_u8(self) -> u8 {
        match self {
            RevocationCode::NoReason => 0,
            RevocationCode::KeySuperseded => 1,
            RevocationCode::KeyCompromised => 2,
            RevocationCode::KeyRetired => 3,
            RevocationCode::CertUserIdInvalid => 32,
            RevocationCode::Private100 => 100,
            RevocationCode::Private101 => 101,
            RevocationCode::Private102 => 102,
            RevocationCode::Private103 => 103,
            RevocationCode::Private104 => 104,
            RevocationCode::Private105 => 105,
            RevocationCode::Private106 => 106,
            RevocationCode::Private107 => 107,
            RevocationCode::Private108 => 108,
            RevocationCode::Private109 => 109,
            RevocationCode::Private110 => 110,
        }
    }

    pub fn from_u8(n: u8) -> (r: Option<RevocationCode>)
        ensures
            r == Self::spec_from_u8(n),
    {
        match n {
            0 => Some(RevocationCode::NoReason),
            1 => Some(RevocationCode::KeySuperseded),
            2 => Some(RevocationCode::KeyCompromised),
            3 => Some(RevocationCode::KeyRetired),
            32 => Some(RevocationCode::CertUserIdInvalid),
            100 => Some(RevocationCode::Private100),
            101 => Some(RevocationCode::Private101),
            102 => Some(RevocationCode::Private102),
            103 => Some(RevocationCode::Private103),
            104 => Some(RevocationCode::Private104),
            105 => Some(RevocationCode::Private105),
            106 => Some(RevocationCode::Private106),
            107 => Some(RevocationCode::Private107),
            108 => Some(RevocationCode::Private108),
            109 => Some(RevocationCode::Private109),
            110 => Some(RevocationCode::Private110),
            _ => None,
        }
    }

    pub fn to_u8(self) -> (n: u8)
        ensures
            n == self.spec_to_u8(),
            Self::spec_from_u8(n) == Some(self),
    {
        match self {
            RevocationCode::NoReason => 0,
            RevocationCode::KeySuperseded => 1,
            RevocationCode::KeyCompromised => 2,
            RevocationCode::KeyRetired => 3,
            RevocationCode::CertUserIdInvalid => 32,
            RevocationCode::Private100 => 100,
            RevocationCode::Private101 => 101,
            RevocationCode::Private102 => 102,
            RevocationCode::Private103 => 103,
            RevocationCode::Private104 => 104,
            RevocationCode::Private105 => 105,
            RevocationCode::Private106 => 106,
            RevocationCode::Private107 => 107,
            RevocationCode::Private108 => 108,
            RevocationCode::Private109 => 109,
            RevocationCode::Private110 => 110,
        }
    }
}

/// The kind of a subpacket, as its tag octet gives it. Every octet is a
/// kind: one outside the known set is `Experimental` (100 to 110) or
/// `Other`, and keeps the octet.
#[derive(Debug, Clone, Copy, PartialEq, Eq, Structural)]
pub enum SubpacketType {
    SignatureCreationTime,
    SignatureExpirationTime,
    ExportableCertification,
    TrustSignature,
    RegularExpression,
    Revocable,
    KeyExpirationTime,
    PreferredSymmetricAlgorithms,
    RevocationKey,
    Issuer,
    Notation,
    PreferredHashAlgorithms,
    PreferredCompressionAlgorithms,
    KeyServerPreferences,
    PreferredKeyServer,
    PrimaryUserId,
    PolicyURI,
    KeyFlags,
    SignersUserID,
    RevocationReason,
    Features,
    SignatureTarget,
    EmbeddedSignature,
    IssuerFingerprint,
    PreferredAead,
    Experimental(u8),
    Other(u8),
}

impl SubpacketType {
    pub open spec fn spec_from_u8(n: u8) -> SubpacketType {
        if 100 <= n <= 110 {
            SubpacketType::Experimental(n)
        } else {
            match n {
                2 => SubpacketType::SignatureCreationTime,
                3 => SubpacketType::SignatureExpirationTime,
                4 => SubpacketType::ExportableCertification,
                5 => SubpacketType::TrustSignature,
                6 => SubpacketType::RegularExpression,
                7 => SubpacketType::Revocable,
                9 => SubpacketType::KeyExpirationTime,
                11 => SubpacketType::PreferredSymmetricAlgorithms,
                12 => SubpacketType::RevocationKey,
                16 => SubpacketType::Issuer,
                20 => SubpacketType::Notation,
                21 => SubpacketType::PreferredHashAlgorithms,
                22 => SubpacketType::PreferredCompressionAlgorithms,
                23 => SubpacketType::KeyServerPreferences,
                24 => SubpacketType::PreferredKeyServer,
                25 => SubpacketType::PrimaryUserId,
                26 => SubpacketType::PolicyURI,
                27 => SubpacketType::KeyFlags,
                28 => SubpacketType::SignersUserID,
                29 => SubpacketType::RevocationReason,
                30 => SubpacketType::Features,
                31 => SubpacketType::SignatureTarget,
                32 => SubpacketType::EmbeddedSignature,
                33 => SubpacketType::IssuerFingerprint,
                34 => SubpacketType::PreferredAead,
                _ => SubpacketType::Other(n),
            }
        }
    }

    pub open spec fn spec_to_u8(self) -> u8 {
        match self {
            SubpacketType::SignatureCreationTime => 2,
            SubpacketType::SignatureExpirationTime => 3,
            SubpacketType::ExportableCertification => 4,
            SubpacketType::TrustSignature => 5,
            SubpacketType::RegularExpression => 6,
            SubpacketType::Revocable => 7,
            SubpacketType::KeyExpirationTime => 9,
            SubpacketType::PreferredSymmetricAlgorithms => 11,
            SubpacketType::RevocationKey => 12,
            SubpacketType::Issuer => 16,
            SubpacketType::Notation => 20,
            SubpacketType::PreferredHashAlgorithms => 21,
            SubpacketType::PreferredCompressionAlgorithms => 22,
            SubpacketType::KeyServerPreferences => 23,
            SubpacketType::PreferredKeyServer => 24,
            SubpacketType::PrimaryUserId => 25,
            SubpacketType::PolicyURI => 26,
            SubpacketType::KeyFlags => 27,
            SubpacketType::SignersUserID => 28,
            SubpacketType::RevocationReason => 29,
            SubpacketType::Features => 30,
            SubpacketType::SignatureTarget => 31,
            SubpacketType::EmbeddedSignature => 32,
            SubpacketType::IssuerFingerprint => 33,
            SubpacketType::PreferredAead => 34,
            SubpacketType::Experimental(n) => n,
            SubpacketType::Other(n) => n,
        }
    }

    /// True for the kinds that `from_u8` gives: a catch-all kind holds only
    /// an octet of its own range.
    pub open spec fn canonical(self) -> bool {
        Self::spec_from_u8(self.spec_to_u8()) == self
    }

    /// The kind for a tag octet. Never fails: unknown tags are kept.
    pub fn from_u8(n: u8) -> (t: SubpacketType)
        ensures
            t == Self::spec_from_u8(n),
            t.spec_to_u8() == n,
    {
        if 100 <= n && n <= 110 {
            SubpacketType::Experimental(n)
        } else {
            match n {
                2 => SubpacketType::SignatureCreationTime,
                3 => SubpacketType::SignatureExpirationTime,
                4 => SubpacketType::ExportableCertification,
                5 => SubpacketType::TrustSignature,
                6 => SubpacketType::RegularExpression,
                7 => SubpacketType::Revocable,
                9 => SubpacketType::KeyExpirationTime,
                11 => SubpacketType::PreferredSymmetricAlgorithms,
                12 => SubpacketType::RevocationKey,
                16 => SubpacketType::Issuer,
                20 => SubpacketType::Notation,
                21 => SubpacketType::PreferredHashAlgorithms,
                22 => SubpacketType::PreferredCompressionAlgorithms,
                23 => SubpacketType::KeyServerPreferences,
                24 => SubpacketType::PreferredKeyServer,
                25 => SubpacketType::PrimaryUserId,
                26 => SubpacketType::PolicyURI,
                27 => SubpacketType::KeyFlags,
                28 => SubpacketType::SignersUserID,
                29 => SubpacketType::RevocationReason,
                30 => SubpacketType::Features,
                31 => SubpacketType::SignatureTarget,
                32 => SubpacketType::EmbeddedSignature,
                33 => SubpacketType::IssuerFingerprint,
                34 => SubpacketType::PreferredAead,
                _ => SubpacketType::Other(n),
            }
        }
    }

    pub fn to_u8(self) -> (n: u8)
        ensures
            n == self.spec_to_u8(),
    {
        match self {
            SubpacketType::SignatureCreationTime => 2,
            SubpacketType::SignatureExpirationTime => 3,
            SubpacketType::ExportableCertification => 4,
            SubpacketType::TrustSignature => 5,
            SubpacketType::RegularExpression => 6,
            SubpacketType::Revocable => 7,
            SubpacketType::KeyExpirationTime => 9,
            SubpacketType::PreferredSymmetricAlgorithms => 11,
            SubpacketType::RevocationKey => 12,
            SubpacketType::Issuer => 16,
            SubpacketType::Notation => 20,
            SubpacketType::PreferredHashAlgorithms => 21,
            SubpacketType::PreferredCompressionAlgorithms => 22,
            SubpacketType::KeyServerPreferences => 23,
            SubpacketType::PreferredKeyServer => 24,
            SubpacketType::PrimaryUserId => 25,
            SubpacketType::PolicyURI => 26,
            SubpacketType::KeyFlags => 27,
            SubpacketType::SignersUserID => 28,
            SubpacketType::RevocationReason => 29,
            SubpacketType::Features => 30,
            SubpacketType::SignatureTarget => 31,
            SubpacketType::EmbeddedSignature => 32,
            SubpacketType::IssuerFingerprint => 33,
            SubpacketType::PreferredAead => 34,
            SubpacketType::Experimental(n) => n,
            SubpacketType::Other(n) => n,
        }
    }
}

impl SignatureVersion {
    /// A code that decodes is the code of what it decodes to.
    pub proof fn lemma_code_of_decoded(n: u8)
        ensures
            Self::spec_from_u8(n) is Some ==> Self::spec_from_u8(n)->Some_0.spec_to_u8() == n,
    {
    }

    /// A value's code decodes to that value.
    pub proof fn lemma_decoded_of_code(self)
        ensures
            Self::spec_from_u8(self.spec_to_u8()) == Some(self),
    {
    }
}

impl KeyVersion {
    /// A code that decodes is the code of what it decodes to.
    pub proof fn lemma_code_of_decoded(n: u8)
        ensures
            Self::spec_from_u8(n) is Some ==> Self::spec_from_u8(n)->Some_0.spec_to_u8() == n,
    {
    }

    /// A value's code decodes to that value.
    pub proof fn lemma_decoded_of_code(self)
        ensures
            Self::spec_from_u8(self.spec_to_u8()) == Some(self),
    {
    }
}

impl SignatureType {
    /// A code that decodes is the code of what it decodes to.
    pub proof fn lemma_code_of_decoded(n: u8)
        ensures
            Self::spec_from_u8(n) is Some ==> Self::spec_from_u8(n)->Some_0.spec_to_u8() == n,
    {
    }

    /// A value's code decodes to that value.
    pub proof fn lemma_decoded_of_code(self)
        ensures
            Self::spec_from_u8(self.spec_to_u8()) == Some(self),
    {
    }
}

impl RevocationKeyClass {
    /// A code that decodes is the code of what it decodes to.
    pub proof fn lemma_code_of_decoded(n: u8)
        ensures
            Self::spec_from_u8(n) is Some ==> Self::spec_from_u8(n)->Some_0.spec_to_u8() == n,
    {
    }

    /// A value's code decodes to that value.
    pub proof fn lemma_decoded_of_code(self)
        ensures
            Self::spec_from_u8(self.spec_to_u8()) == Some(self),
    {
    }
}

impl RevocationCode {
    /// A code that decodes is the code of what it decodes to.
    pub proof fn lemma_code_of_decoded(n: u8)
        ensures
            Self::spec_from_u8(n) is Some ==> Self::spec_from_u8(n)->Some_0.spec_to_u8() == n,
    {
    }

    /// A value's code decodes to that value.
    pub proof fn lemma_decoded_of_code(self)
        ensures
            Self::spec_from_u8(self.spec_to_u8()) == Some(self),
    {
    }
}

impl SubpacketType {
    /// Every tag octet is the code of the kind that it decodes to.
    pub proof fn lemma_code_of_decoded(n: u8)
        ensures
            Self::spec_from_u8(n).spec_to_u8() == n,
            Self::spec_from_u8(n).canonical(),
    {
    }

    /// A kind whose catch-all tag lies in its own range decodes from its code.
    pub proof fn lemma_decoded_of_code(self)
        requires
            self matches SubpacketType::Experimental(n) ==> 100 <= n <= 110,
            self matches SubpacketType::Other(n) ==> Self::spec_from_u8(n) == self,
        ensures
            Self::spec_from_u8(self.spec_to_u8()) == self,
    {
    }
}

} // verus!
