use vstd::prelude::*;
use crate::algorithms::PublicKeyAlgorithm;
use crate::codes::RevocationKeyClass;
use crate::wire::{spec_strip_leading_zeros, strip_leading_zeros};
use vstd::slice::slice_to_vec;

verus! {

/// The eight-octet identifier of a key.
#[derive(Debug, Clone, Copy, PartialEq, Eq)]
pub struct KeyId {
    pub bytes: [u8; 8],
}

impl View for KeyId {
    type V = Seq<u8>;

    open spec fn view(&self) -> Seq<u8> {
        self.bytes@
    }
}

impl KeyId {
    /// The key identifier that `input` holds; `None` unless it has exactly
    /// eight octets.
    pub fn from_slice(input: &[u8]) -> (r: Option<KeyId>)
        ensures
            r is Some <==> input@.len() == 8,
            r is Some ==> r->Some_0@ == input@,
    {
        if input.len() != 8 {
            None
        } else {
            let id = KeyId {
                bytes: [
                    input[0],
                    input[1],
                    input[2],
                    input[3],
                    input[4],
                    input[5],
                    input[6],
                    input[7],
                ],
            };
            assert(id@ =~= input@);
            Some(id)
        }
    }

    pub fn as_bytes(&self) -> (r: &[u8])
        ensures
            r@ == self@,
    {
        self.bytes.as_slice()
    }
}

/// A multi-precision integer: its big-endian octets.
#[derive(Debug, Clone, PartialEq, Eq)]
pub struct Mpi {
    pub bytes: Vec<u8>,
}

impl View for Mpi {
    type V = Seq<u8>;

    open spec fn view(&self) -> Seq<u8> {
        self.bytes@
    }
}

impl Mpi {
    /// The integer with exactly these octets.
    pub fn from_raw(bytes: Vec<u8>) -> (m: Mpi)
        ensures
            m@ == bytes@,
    {
        Mpi { bytes }
    }

    /// The integer that `bytes` encode, kept without leading zero octets.
    pub fn from_slice(bytes: &[u8]) -> (m: Mpi)
        ensures
            m@ == spec_strip_leading_zeros(bytes@),
    {
        Mpi { bytes: slice_to_vec(strip_leading_zeros(bytes)) }
    }

    pub fn as_bytes(&self) -> (r: &[u8])
        ensures
            r@ == self@,
    {
        self.bytes.as_slice()
    }
}

/// The views of a run of integers, in order.
pub open spec fn mpis_view(v: Seq<Mpi>) -> Seq<Seq<u8>> {
    Seq::new(v.len(), |i: int| v[i]@)
}

/// A key that may revoke the signed key.
#[derive(Debug, Clone, Copy, PartialEq, Eq)]
pub struct RevocationKey {
    pub class: RevocationKeyClass,
    pub algorithm: PublicKeyAlgorithm,
    pub fingerprint: [u8; 20],
}

/// What a `RevocationKey` stands for.
pub struct RevocationKeyView {
    pub class: RevocationKeyClass,
    pub algorithm: PublicKeyAlgorithm,
    pub fingerprint: Seq<u8>,
}

impl View for RevocationKey {
    type V = RevocationKeyView;

    open spec fn view(&self) -> RevocationKeyView {
        RevocationKeyView {
            class: self.class,
            algorithm: self.algorithm,
            fingerprint: self.fingerprint@,
        }
    }
}

impl RevocationKey {
    /// A revocation key with the twenty-octet fingerprint `fp`.
    pub fn new(class: RevocationKeyClass, algorithm: PublicKeyAlgorithm, fp: &[u8]) -> (r: Option<
        RevocationKey,
    >)
        ensures
            r is Some <==> fp@.len() == 20,
            r is Some ==> r->Some_0@ == (RevocationKeyView { class, algorithm, fingerprint: fp@ }),
    {
        if fp.len() != 20 {
            None
        } else {
            let fingerprint: [u8; 20] = [
                fp[0],
                fp[1],
                fp[2],
                fp[3],
                fp[4],
                fp[5],
                fp[6],
                fp[7],
                fp[8],
                fp[9],
                fp[10],
                fp[11],
                fp[12],
                fp[13],
                fp[14],
                fp[15],
                fp[16],
                fp[17],
                fp[18],
                fp[19],
            ];
            assert(fingerprint@ =~= fp@);
            Some(RevocationKey { class, algorithm, fingerprint })
        }
    }
}

/// A name and a value that the signer attached to the signature.
#[derive(Debug, Clone, PartialEq, Eq)]
pub struct Notation {
    pub readable: bool,
    pub name: String,
    pub value: String,
}

/// What a `Notation` stands for.
pub struct NotationView {
    pub readable: bool,
    pub name: Seq<char>,
    pub value: Seq<char>,
}

impl View for Notation {
    type V = NotationView;

    open spec fn view(&self) -> NotationView {
        NotationView { readable: self.readable, name: self.name@, value: self.value@ }
    }
}

} // verus!
