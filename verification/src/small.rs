use vstd::prelude::*;
use smallvec::SmallVec;

verus! {

/// A short run of bytes that lives inline, without a heap allocation, while
/// it has at most twenty of them: a `smallvec::SmallVec<[u8; 20]>`.
///
/// The verifier does not look inside: all it knows of a value is the
/// sequence `small_bytes` of what it holds.
#[verifier::external_body]
#[derive(Debug, PartialEq, Eq)]
pub struct SmallBytes {
    inner: SmallVec<[u8; 20]>,
}

/// The bytes that a `SmallBytes` holds, in order.
pub uninterp spec fn small_bytes(v: SmallBytes) -> Seq<u8>;

impl View for SmallBytes {
    type V = Seq<u8>;

    open spec fn view(&self) -> Seq<u8> {
        small_bytes(*self)
    }
}

/// Calls `SmallVec::from_slice`.
///
/// Trusted: the new vector holds the slice's items, in the slice's order.
#[verifier::external_body]
fn smallvec_from_slice(bytes: &[u8]) -> (v: SmallBytes)
    ensures
        small_bytes(v) == bytes@,
{
    SmallBytes { inner: SmallVec::from_slice(bytes) }
}

/// Calls `SmallVec::as_slice`.
///
/// Trusted: the slice is the vector's contents, in order.
#[verifier::external_body]
fn smallvec_as_slice(v: &SmallBytes) -> (bytes: &[u8])
    ensures
        bytes@ == small_bytes(*v),
{
    v.inner.as_slice()
}

/// Calls `SmallVec::clone`.
///
/// Trusted: the clone holds the same bytes in the same order.
#[verifier::external_body]
fn smallvec_clone(v: &SmallBytes) -> (copy: SmallBytes)
    ensures
        small_bytes(copy) == small_bytes(*v),
{
    SmallBytes { inner: v.inner.clone() }
}

impl Clone for SmallBytes {
    fn clone(&self) -> (copy: SmallBytes)
        ensures
            copy@ == self@,
    {
        smallvec_clone(self)
    }
}

impl SmallBytes {
    /// A copy of `bytes`.
    pub fn from_slice(bytes: &[u8]) -> (v: SmallBytes)
        ensures
            v@ == bytes@,
    {
        smallvec_from_slice(bytes)
    }

    /// The bytes held.
    pub fn as_slice(&self) -> (bytes: &[u8])
        ensures
            bytes@ == self@,
    {
        smallvec_as_slice(self)
    }

    pub fn len(&self) -> (n: usize)
        ensures
            n == self@.len(),
    {
        smallvec_as_slice(self).len()
    }
}

} // verus!
