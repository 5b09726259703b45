use vstd::prelude::*;
use crate::codes::SubpacketType;

verus! {

/// Why a parse stopped.
#[derive(Debug, Clone, Copy, PartialEq, Eq, Structural)]
pub enum ErrorKind {
    /// The input ended before a declared boundary; more bytes may complete it.
    Incomplete,
    /// The bytes at hand break the grammar; no further input mends them.
    Malformed,
    /// A field of a closed enumeration holds a code outside it.
    UnknownCode,
    /// Embedded signatures are nested deeper than the parser follows.
    UnsupportedRecursion,
}

/// The part of a signature packet that a parse was reading when it stopped.
#[derive(Debug, Clone, Copy, PartialEq, Eq, Structural)]
pub enum Field {
    Version,
    HashedLength,
    SignatureType,
    Created,
    Issuer,
    PublicKeyAlgorithm,
    HashAlgorithm,
    HashedArea,
    UnhashedArea,
    SignedHashValue,
    SignatureValue,
    SubpacketLength,
    SubpacketTag,
    Subpacket(SubpacketType),
}

/// A structured parse failure: what went wrong and where.
#[derive(Debug, Clone, Copy, PartialEq, Eq, Structural)]
pub struct ParseError {
    pub kind: ErrorKind,
    pub field: Field,
}

/// The failure for running out of bytes: `Incomplete` while the input is
/// a stream that may still grow, `Malformed` inside a slice whose length
/// an enclosing field has already fixed.
pub open spec fn short_of(streaming: bool, field: Field) -> ParseError {
    ParseError {
        kind: if streaming { ErrorKind::Incomplete } else { ErrorKind::Malformed },
        field,
    }
}

pub open spec fn malformed_at(field: Field) -> ParseError {
    ParseError { kind: ErrorKind::Malformed, field }
}

pub open spec fn unknown_at(field: Field) -> ParseError {
    ParseError { kind: ErrorKind::UnknownCode, field }
}

impl ParseError {
    pub fn short(streaming: bool, field: Field) -> (e: ParseError)
        ensures
            e == short_of(streaming, field),
    {
        if streaming {
            ParseError { kind: ErrorKind::Incomplete, field }
        } else {
            ParseError { kind: ErrorKind::Malformed, field }
        }
    }

    pub fn malformed(field: Field) -> (e: ParseError)
        ensures
            e == malformed_at(field),
    {
        ParseError { kind: ErrorKind::Malformed, field }
    }

    pub fn unknown(field: Field) -> (e: ParseError)
        ensures
            e == unknown_at(field),
    {
        ParseError { kind: ErrorKind::UnknownCode, field }
    }

    /// True when more input may turn the failure into a success.
    pub fn is_incomplete(&self) -> (b: bool)
        ensures
            b == (self.kind == ErrorKind::Incomplete),
    {
        match self.kind {
            ErrorKind::Incomplete => true,
            _ => false,
        }
    }
}

} // verus!
