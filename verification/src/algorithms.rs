use vstd::prelude::*;

verus! {

/// A public-key algorithm.
#[derive(Debug, Clone, Copy, PartialEq, Eq, Structural)]
pub enum PublicKeyAlgorithm {
    /// RSA, to encrypt and to sign.
    RSA,
    /// RSA, to encrypt only.
    RSAEncrypt,
    /// RSA, to sign only.
    RSASign,
    ElgamalSign,
    DSA,
    ECDH,
    ECDSA,
    Elgamal,
    DiffieHellman,
    EdDSA,
    Private100,
    Private101,
    Private102,
    Private103,
    Private104,
    Private105,
    Private106,
    Private107,
    Private108,
    Private109,
    Private110,
}

impl PublicKeyAlgorithm {
    pub open spec fn spec_from_u8(n: u8) -> Option<PublicKeyAlgorithm> {
        match n {
            1 => Some(PublicKeyAlgorithm::RSA),
            2 => Some(PublicKeyAlgorithm::RSAEncrypt),
            3 => Some(PublicKeyAlgorithm::RSASign),
            16 => Some(PublicKeyAlgorithm::ElgamalSign),
            17 => Some(PublicKeyAlgorithm::DSA),
            18 => Some(PublicKeyAlgorithm::ECDH),
            19 => Some(PublicKeyAlgorithm::ECDSA),
            20 => Some(PublicKeyAlgorithm::Elgamal),
            21 => Some(PublicKeyAlgorithm::DiffieHellman),
            22 => Some(PublicKeyAlgorithm::EdDSA),
            100 => Some(PublicKeyAlgorithm::Private100),
            101 => Some(PublicKeyAlgorithm::Private101),
            102 => Some(PublicKeyAlgorithm::Private102),
            103 => Some(PublicKeyAlgorithm::Private103),
            104 => Some(PublicKeyAlgorithm::Private104),
            105 => Some(PublicKeyAlgorithm::Private105),
            106 => Some(PublicKeyAlgorithm::Private106),
            107 => Some(PublicKeyAlgorithm::Private107),
            108 => Some(PublicKeyAlgorithm::Private108),
            109 => Some(PublicKeyAlgorithm::Private109),
            110 => Some(PublicKeyAlgorithm::Private110),
            _ => None,
        }
    }

    pub open spec fn spec_to_u8(self) -> u8 {
        match self {
            PublicKeyAlgorithm::RSA => 1,
            PublicKeyAlgorithm::RSAEncrypt => 2,
            PublicKeyAlgorithm::RSASign => 3,
            PublicKeyAlgorithm::ElgamalSign => 16,
            PublicKeyAlgorithm::DSA => 17,
            PublicKeyAlgorithm::ECDH => 18,
            PublicKeyAlgorithm::ECDSA => 19,
            PublicKeyAlgorithm::Elgamal => 20,
            PublicKeyAlgorithm::DiffieHellman => 21,
            PublicKeyAlgorithm::EdDSA => 22,
            PublicKeyAlgorithm::Private100 => 100,
            PublicKeyAlgorithm::Private101 => 101,
            PublicKeyAlgorithm::Private102 => 102,
            PublicKeyAlgorithm::Private103 => 103,
            PublicKeyAlgorithm::Private104 => 104,
            PublicKeyAlgorithm::Private105 => 105,
            PublicKeyAlgorithm::Private106 => 106,
            PublicKeyAlgorithm::Private107 => 107,
            PublicKeyAlgorithm::Private108 => 108,
            PublicKeyAlgorithm::Private109 => 109,
            PublicKeyAlgorithm::Private110 => 110,
        }
    }

    pub fn from_u8(n: u8) -> (r: Option<PublicKeyAlgorithm>)
        ensures
            r == Self::spec_from_u8(n),
    {
        match n {
            1 => Some(PublicKeyAlgorithm::RSA),
            2 => Some(PublicKeyAlgorithm::RSAEncrypt),
            3 => Some(PublicKeyAlgorithm::RSASign),
            16 => Some(PublicKeyAlgorithm::ElgamalSign),
            17 => Some(PublicKeyAlgorithm::DSA),
            18 => Some(PublicKeyAlgorithm::ECDH),
            19 => Some(PublicKeyAlgorithm::ECDSA),
            20 => Some(PublicKeyAlgorithm::Elgamal),
            21 => Some(PublicKeyAlgorithm::DiffieHellman),
            22 => Some(PublicKeyAlgorithm::EdDSA),
            100 => Some(PublicKeyAlgorithm::Private100),
            101 => Some(PublicKeyAlgorithm::Private101),
            102 => Some(PublicKeyAlgorithm::Private102),
            103 => Some(PublicKeyAlgorithm::Private103),
            104 => Some(PublicKeyAlgorithm::Private104),
            105 => Some(PublicKeyAlgorithm::Private105),
            106 => Some(PublicKeyAlgorithm::Private106),
            107 => Some(PublicKeyAlgorithm::Private107),
            108 => Some(PublicKeyAlgorithm::Private108),
            109 => Some(PublicKeyAlgorithm::Private109),
            110 => Some(PublicKeyAlgorithm::Private110),
            _ => None,
        }
    }

    pub fn to_u8(self) -> (n: u8)
        ensures
            n == self.spec_to_u8(),
            Self::spec_from_u8(n) == Some(self),
    {
        match self {
            PublicKeyAlgorithm::RSA => 1,
            PublicKeyAlgorithm::RSAEncrypt => 2,
            PublicKeyAlgorithm::RSASign => 3,
            PublicKeyAlgorithm::ElgamalSign => 16,
            PublicKeyAlgorithm::DSA => 17,
            PublicKeyAlgorithm::ECDH => 18,
            PublicKeyAlgorithm::ECDSA => 19,
            PublicKeyAlgorithm::Elgamal => 20,
            PublicKeyAlgorithm::DiffieHellman => 21,
            PublicKeyAlgorithm::EdDSA => 22,
            PublicKeyAlgorithm::Private100 => 100,
            PublicKeyAlgorithm::Private101 => 101,
            PublicKeyAlgorithm::Private102 => 102,
            PublicKeyAlgorithm::Private103 => 103,
            PublicKeyAlgorithm::Private104 => 104,
            PublicKeyAlgorithm::Private105 => 105,
            PublicKeyAlgorithm::Private106 => 106,
            PublicKeyAlgorithm::Private107 => 107,
            PublicKeyAlgorithm::Private108 => 108,
            PublicKeyAlgorithm::Private109 => 109,
            PublicKeyAlgorithm::Private110 => 110,
        }
    }

    /// A code that decodes is the code of what it decodes to.
    pub proof fn lemma_code_of_decoded(n: u8)
        ensures
            Self::spec_from_u8(n) is Some ==> Self::spec_from_u8(n)->Some_0.spec_to_u8() == n,
    {
    }

    /// An algorithm's code decodes to that algorithm.
    pub proof fn lemma_decoded_of_code(self)
        ensures
            Self::spec_from_u8(self.spec_to_u8()) == Some(self),
    {
    }
}

/// A hash algorithm.
#[derive(Debug, Clone, Copy, PartialEq, Eq, Structural)]
pub enum HashAlgorithm {
    NoHash,
    MD5,
    SHA1,
    RIPEMD160,
    SHA2_256,
    SHA2_384,
    SHA2_512,
    SHA2_224,
    SHA3_256,
    SHA3_512,
    Private10,
}

impl HashAlgorithm {
    pub open spec fn spec_from_u8(n: u8) -> Option<HashAlgorithm> {
        match n {
            0 => Some(HashAlgorithm::NoHash),
            1 => Some(HashAlgorithm::MD5),
            2 => Some(HashAlgorithm::SHA1),
            3 => Some(HashAlgorithm::RIPEMD160),
            8 => Some(HashAlgorithm::SHA2_256),
            9 => Some(HashAlgorithm::SHA2_384),
            10 => Some(HashAlgorithm::SHA2_512),
            11 => Some(HashAlgorithm::SHA2_224),
            12 => Some(HashAlgorithm::SHA3_256),
            14 => Some(HashAlgorithm::SHA3_512),
            110 => Some(HashAlgorithm::Private10),
            _ => None,
        }
    }

    pub open spec fn spec_to_u8(self) -> u8 {
        match self {
            HashAlgorithm::NoHash => 0,
            HashAlgorithm::MD5 => 1,
            HashAlgorithm::SHA1 => 2,
            HashAlgorithm::RIPEMD160 => 3,
            HashAlgorithm::SHA2_256 => 8,
            HashAlgorithm::SHA2_384 => 9,
            HashAlgorithm::SHA2_512 => 10,
            HashAlgorithm::SHA2_224 => 11,
            HashAlgorithm::SHA3_256 => 12,
            HashAlgorithm::SHA3_512 => 14,
            HashAlgorithm::Private10 => 110,
        }
    }

    pub fn from_u8(n: u8) -> (r: Option<HashAlgorithm>)
        ensures
            r == Self::spec_from_u8(n),
    {
        match n {
            0 => Some(HashAlgorithm::NoHash),
            1 => Some(HashAlgorithm::MD5),
            2 => Some(HashAlgorithm::SHA1),
            3 => Some(HashAlgorithm::RIPEMD160),
            8 => Some(HashAlgorithm::SHA2_256),
            9 => Some(HashAlgorithm::SHA2_384),
            10 => Some(HashAlgorithm::SHA2_512),
            11 => Some(HashAlgorithm::SHA2_224),
            12 => Some(HashAlgorithm::SHA3_256),
            14 => Some(HashAlgorithm::SHA3_512),
            110 => Some(HashAlgorithm::Private10),
            _ => None,
        }
    }

    pub fn to_u8(self) -> (n: u8)
        ensures
            n == self.spec_to_u8(),
            Self::spec_from_u8(n) == Some(self),
    {
        match self {
            HashAlgorithm::NoHash => 0,
            HashAlgorithm::MD5 => 1,
            HashAlgorithm::SHA1 => 2,
            HashAlgorithm::RIPEMD160 => 3,
            HashAlgorithm::SHA2_256 => 8,
            HashAlgorithm::SHA2_384 => 9,
            HashAlgorithm::SHA2_512 => 10,
            HashAlgorithm::SHA2_224 => 11,
            HashAlgorithm::SHA3_256 => 12,
            HashAlgorithm::SHA3_512 => 14,
            HashAlgorithm::Private10 => 110,
        }
    }

    /// A code that decodes is the code of what it decodes to.
    pub proof fn lemma_code_of_decoded(n: u8)
        ensures
            Self::spec_from_u8(n) is Some ==> Self::spec_from_u8(n)->Some_0.spec_to_u8() == n,
    {
    }

    /// An algorithm's code decodes to that algorithm.
    pub proof fn lemma_decoded_of_code(self)
        ensures
            Self::spec_from_u8(self.spec_to_u8()) == Some(self),
    {
    }
}

/// A symmetric-key algorithm.
#[derive(Debug, Clone, Copy, PartialEq, Eq, Structural)]
pub enum SymmetricKeyAlgorithm {
    Plaintext,
    IDEA,
    TripleDES,
    CAST5,
    Blowfish,
    AES128,
    AES192,
    AES256,
    Twofish,
    Camellia128,
    Camellia192,
    Camellia256,
    Private10,
}

impl SymmetricKeyAlgorithm {
    pub open spec fn spec_from_u8(n: u8) -> Option<SymmetricKeyAlgorithm> {
        match n {
            0 => Some(SymmetricKeyAlgorithm::Plaintext),
            1 => Some(SymmetricKeyAlgorithm::IDEA),
            2 => Some(SymmetricKeyAlgorithm::TripleDES),
            3 => Some(SymmetricKeyAlgorithm::CAST5),
            4 => Some(SymmetricKeyAlgorithm::Blowfish),
            7 => Some(SymmetricKeyAlgorithm::AES128),
            8 => Some(SymmetricKeyAlgorithm::AES192),
            9 => Some(SymmetricKeyAlgorithm::AES256),
            10 => Some(SymmetricKeyAlgorithm::Twofish),
            11 => Some(SymmetricKeyAlgorithm::Camellia128),
            12 => Some(SymmetricKeyAlgorithm::Camellia192),
            13 => Some(SymmetricKeyAlgorithm::Camellia256),
            110 => Some(SymmetricKeyAlgorithm::Private10),
            _ => None,
        }
    }

    pub open spec fn spec_to_u8(self) -> u8 {
        match self {
            SymmetricKeyAlgorithm::Plaintext => 0,
            SymmetricKeyAlgorithm::IDEA => 1,
            SymmetricKeyAlgorithm::TripleDES => 2,
            SymmetricKeyAlgorithm::CAST5 => 3,
            SymmetricKeyAlgorithm::Blowfish => 4,
            SymmetricKeyAlgorithm::AES128 => 7,
            SymmetricKeyAlgorithm::AES192 => 8,
            SymmetricKeyAlgorithm::AES256 => 9,
            SymmetricKeyAlgorithm::Twofish => 10,
            SymmetricKeyAlgorithm::Camellia128 => 11,
            SymmetricKeyAlgorithm::Camellia192 => 12,
            SymmetricKeyAlgorithm::Camellia256 => 13,
            SymmetricKeyAlgorithm::Private10 => 110,
        }
    }

    pub fn from_u8(n: u8) -> (r: Option<SymmetricKeyAlgorithm>)
        ensures
            r == Self::spec_from_u8(n),
    {
        match n {
            0 => Some(SymmetricKeyAlgorithm::Plaintext),
            1 => Some(SymmetricKeyAlgorithm::IDEA),
            2 => Some(SymmetricKeyAlgorithm::TripleDES),
            3 => Some(SymmetricKeyAlgorithm::CAST5),
            4 => Some(SymmetricKeyAlgorithm::Blowfish),
            7 => Some(SymmetricKeyAlgorithm::AES128),
            8 => Some(SymmetricKeyAlgorithm::AES192),
            9 => Some(SymmetricKeyAlgorithm::AES256),
            10 => Some(SymmetricKeyAlgorithm::Twofish),
            11 => Some(SymmetricKeyAlgorithm::Camellia128),
            12 => Some(SymmetricKeyAlgorithm::Camellia192),
            13 => Some(SymmetricKeyAlgorithm::Camellia256),
            110 => Some(SymmetricKeyAlgorithm::Private10),
            _ => None,
        }
    }

    pub fn to_u8(self) -> (n: u8)
        ensures
            n == self.spec_to_u8(),
            Self::spec_from_u8(n) == Some(self),
    {
        match self {
            SymmetricKeyAlgorithm::Plaintext => 0,
            SymmetricKeyAlgorithm::IDEA => 1,
            SymmetricKeyAlgorithm::TripleDES => 2,
            SymmetricKeyAlgorithm::CAST5 => 3,
            SymmetricKeyAlgorithm::Blowfish => 4,
            SymmetricKeyAlgorithm::AES128 => 7,
            SymmetricKeyAlgorithm::AES192 => 8,
            SymmetricKeyAlgorithm::AES256 => 9,
            SymmetricKeyAlgorithm::Twofish => 10,
            SymmetricKeyAlgorithm::Camellia128 => 11,
            SymmetricKeyAlgorithm::Camellia192 => 12,
            SymmetricKeyAlgorithm::Camellia256 => 13,
            SymmetricKeyAlgorithm::Private10 => 110,
        }
    }

    /// A code that decodes is the code of what it decodes to.
    pub proof fn lemma_code_of_decoded(n: u8)
        ensures
            Self::spec_from_u8(n) is Some ==> Self::spec_from_u8(n)->Some_0.spec_to_u8() == n,
    {
    }

    /// An algorithm's code decodes to that algorithm.
    pub proof fn lemma_decoded_of_code(self)
        ensures
            Self::spec_from_u8(self.spec_to_u8()) == Some(self),
    {
    }
}

/// A compression algorithm.
#[derive(Debug, Clone, Copy, PartialEq, Eq, Structural)]
pub enum CompressionAlgorithm {
    Uncompressed,
    ZIP,
    ZLIB,
    BZip2,
    Private10,
}

impl CompressionAlgorithm {
    pub open spec fn spec_from_u8(n: u8) -> Option<CompressionAlgorithm> {
        match n {
            0 => Some(CompressionAlgorithm::Uncompressed),
            1 => Some(CompressionAlgorithm::ZIP),
            2 => Some(CompressionAlgorithm::ZLIB),
            3 => Some(CompressionAlgorithm::BZip2),
            110 => Some(CompressionAlgorithm::Private10),
            _ => None,
        }
    }

    pub open spec fn spec_to_u8(self) -> u8 {
        match self {
            CompressionAlgorithm::Uncompressed => 0,
            CompressionAlgorithm::ZIP => 1,
            CompressionAlgorithm::ZLIB => 2,
            CompressionAlgorithm::BZip2 => 3,
            CompressionAlgorithm::Private10 => 110,
        }
    }

    pub fn from_u8(n: u8) -> (r: Option<CompressionAlgorithm>)
        ensures
            r == Self::spec_from_u8(n),
    {
        match n {
            0 => Some(CompressionAlgorithm::Uncompressed),
            1 => Some(CompressionAlgorithm::ZIP),
            2 => Some(CompressionAlgorithm::ZLIB),
            3 => Some(CompressionAlgorithm::BZip2),
            110 => Some(CompressionAlgorithm::Private10),
            _ => None,
        }
    }

    pub fn to_u8(self) -> (n: u8)
        ensures
            n == self.spec_to_u8(),
            Self::spec_from_u8(n) == Some(self),
    {
        match self {
            CompressionAlgorithm::Uncompressed => 0,
            CompressionAlgorithm::ZIP => 1,
            CompressionAlgorithm::ZLIB => 2,
            CompressionAlgorithm::BZip2 => 3,
            CompressionAlgorithm::Private10 => 110,
        }
    }

    /// A code that decodes is the code of what it decodes to.
    pub proof fn lemma_code_of_decoded(n: u8)
        ensures
            Self::spec_from_u8(n) is Some ==> Self::spec_from_u8(n)->Some_0.spec_to_u8() == n,
    {
    }

    /// An algorithm's code decodes to that algorithm.
    pub proof fn lemma_decoded_of_code(self)
        ensures
            Self::spec_from_u8(self.spec_to_u8()) == Some(self),
    {
    }
}

/// An algorithm for authenticated encryption with associated data.
#[derive(Debug, Clone, Copy, PartialEq, Eq, Structural)]
pub enum AeadAlgorithm {
    NoAead,
    Eax,
    Ocb,
    Gcm,
    Private100,
    Private101,
    Private102,
    Private103,
    Private104,
    Private105,
    Private106,
    Private107,
    Private108,
    Private109,
    Private110,
}

impl AeadAlgorithm {
    pub open spec fn spec_from_u8(n: u8) -> Option<AeadAlgorithm> {
        match n {
            0 => Some(AeadAlgorithm::NoAead),
            1 => Some(AeadAlgorithm::Eax),
            2 => Some(AeadAlgorithm::Ocb),
            3 => Some(AeadAlgorithm::Gcm),
            100 => Some(AeadAlgorithm::Private100),
            101 => Some(AeadAlgorithm::Private101),
            102 => Some(AeadAlgorithm::Private102),
            103 => Some(AeadAlgorithm::Private103),
            104 => Some(AeadAlgorithm::Private104),
            105 => Some(AeadAlgorithm::Private105),
            106 => Some(AeadAlgorithm::Private106),
            107 => Some(AeadAlgorithm::Private107),
            108 => Some(AeadAlgorithm::Private108),
            109 => Some(AeadAlgorithm::Private109),
            110 => Some(AeadAlgorithm::Private110),
            _ => None,
        }
    }

    pub open spec fn spec_to_u8(self) -> u8 {
        match self {
            AeadAlgorithm::NoAead => 0,
            AeadAlgorithm::Eax => 1,
            AeadAlgorithm::Ocb => 2,
            AeadAlgorithm::Gcm => 3,
            AeadAlgorithm::Private100 => 100,
            AeadAlgorithm::Private101 => 101,
            AeadAlgorithm::Private102 => 102,
            AeadAlgorithm::Private103 => 103,
            AeadAlgorithm::Private104 => 104,
            AeadAlgorithm::Private105 => 105,
            AeadAlgorithm::Private106 => 106,
            AeadAlgorithm::Private107 => 107,
            AeadAlgorithm::Private108 => 108,
            AeadAlgorithm::Private109 => 109,
            AeadAlgorithm::Private110 => 110,
        }
    }

    pub fn from_u8(n: u8) -> (r: Option<AeadAlgorithm>)
        ensures
            r == Self::spec_from_u8(n),
    {
        match n {
            0 => Some(AeadAlgorithm::NoAead),
            1 => Some(AeadAlgorithm::Eax),
            2 => Some(AeadAlgorithm::Ocb),
            3 => Some(AeadAlgorithm::Gcm),
            100 => Some(AeadAlgorithm::Private100),
            101 => Some(AeadAlgorithm::Private101),
            102 => Some(AeadAlgorithm::Private102),
            103 => Some(AeadAlgorithm::Private103),
            104 => Some(AeadAlgorithm::Private104),
            105 => Some(AeadAlgorithm::Private105),
            106 => Some(AeadAlgorithm::Private106),
            107 => Some(AeadAlgorithm::Private107),
            108 => Some(AeadAlgorithm::Private108),
            109 => Some(AeadAlgorithm::Private109),
            110 => Some(AeadAlgorithm::Private110),
            _ => None,
        }
    }

    pub fn to_u8(self) -> (n: u8)
        ensures
            n == self.spec_to_u8(),
            Self::spec_from_u8(n) == Some(self),
    {
        match self {
            AeadAlgorithm::NoAead => 0,
            AeadAlgorithm::Eax => 1,
            AeadAlgorithm::Ocb => 2,
            AeadAlgorithm::Gcm => 3,
            AeadAlgorithm::Private100 => 100,
            AeadAlgorithm::Private101 => 101,
            AeadAlgorithm::Private102 => 102,
            AeadAlgorithm::Private103 => 103,
            AeadAlgorithm::Private104 => 104,
            AeadAlgorithm::Private105 => 105,
            AeadAlgorithm::Private106 => 106,
            AeadAlgorithm::Private107 => 107,
            AeadAlgorithm::Private108 => 108,
            AeadAlgorithm::Private109 => 109,
            AeadAlgorithm::Private110 => 110,
        }
    }

    /// A code that decodes is the code of what it decodes to.
    pub proof fn lemma_code_of_decoded(n: u8)
        ensures
            Self::spec_from_u8(n) is Some ==> Self::spec_from_u8(n)->Some_0.spec_to_u8() == n,
    {
    }

    /// An algorithm's code decodes to that algorithm.
    pub proof fn lemma_decoded_of_code(self)
        ensures
            Self::spec_from_u8(self.spec_to_u8()) == Some(self),
    {
    }
}
} // verus!
