use vstd::prelude::*;
use vstd::slice::slice_subrange;

verus! {

/// The value of the two leading octets read as a big-endian integer.
pub open spec fn spec_be_u16(s: Seq<u8>) -> int
    recommends
        s.len() >= 2,
{
    s[0] as int * 0x100 + s[1] as int
}

/// The value of the four leading octets read as a big-endian integer.
pub open spec fn spec_be_u32(s: Seq<u8>) -> int
    recommends
        s.len() >= 4,
{
    s[0] as int * 0x100_0000 + s[1] as int * 0x1_0000 + s[2] as int * 0x100 + s[3] as int
}

/// The two octets that encode `v` big-endian.
#[verifier::opaque]
pub open spec fn spec_u16_octets(v: int) -> Seq<u8>
    recommends
        0 <= v < 0x1_0000,
{
    seq![(v / 0x100) as u8, (v % 0x100) as u8]
}

/// The four octets that encode `v` big-endian.
#[verifier::opaque]
pub open spec fn spec_u32_octets(v: int) -> Seq<u8>
    recommends
        0 <= v < 0x1_0000_0000,
{
    seq![
        (v / 0x100_0000) as u8,
        (v / 0x1_0000 % 0x100) as u8,
        (v / 0x100 % 0x100) as u8,
        (v % 0x100) as u8,
    ]
}

/// Splits `n` octets off the front of `input`: the part after them, then
/// the octets themselves. `None` exactly when `input` is shorter than `n`.
pub fn take(input: &[u8], n: usize) -> (r: Option<(&[u8], &[u8])>)
    ensures
        r is Some <==> n <= input@.len(),
        r is Some ==> r->Some_0.0@ == input@.skip(n as int) && r->Some_0.1@ == input@.take(
            n as int,
        ),
{
    if input.len() < n {
        None
    } else {
        let taken = slice_subrange(input, 0, n);
        let rest = slice_subrange(input, n, input.len());
        Some((rest, taken))
    }
}

/// Reads one octet.
pub fn be_u8(input: &[u8]) -> (r: Option<(&[u8], u8)>)
    ensures
        r is Some <==> 1 <= input@.len(),
        r is Some ==> r->Some_0.0@ == input@.skip(1) && r->Some_0.1 == input@[0],
{
    if input.len() < 1 {
        None
    } else {
        let rest = slice_subrange(input, 1, input.len());
        Some((rest, input[0]))
    }
}

/// Reads a two-octet big-endian integer.
pub fn be_u16(input: &[u8]) -> (r: Option<(&[u8], u16)>)
    ensures
        r is Some <==> 2 <= input@.len(),
        r is Some ==> r->Some_0.0@ == input@.skip(2) && r->Some_0.1 as int == spec_be_u16(input@),
{
    if input.len() < 2 {
        None
    } else {
        let rest = slice_subrange(input, 2, input.len());
        let hi: u16 = input[0] as u16;
        let lo: u16 = input[1] as u16;
        Some((rest, hi * 0x100 + lo))
    }
}

/// Reads a four-octet big-endian integer.
pub fn be_u32(input: &[u8]) -> (r: Option<(&[u8], u32)>)
    ensures
        r is Some <==> 4 <= input@.len(),
        r is Some ==> r->Some_0.0@ == input@.skip(4) && r->Some_0.1 as int == spec_be_u32(input@),
{
    if input.len() < 4 {
        None
    } else {
        let rest = slice_subrange(input, 4, input.len());
        let a: u32 = input[0] as u32;
        let b: u32 = input[1] as u32;
        let c: u32 = input[2] as u32;
        let d: u32 = input[3] as u32;
        Some((rest, a * 0x100_0000 + b * 0x1_0000 + c * 0x100 + d))
    }
}

/// A decoded length prefix of a subpacket: the length it declares and the
/// number of octets that the prefix itself takes.
pub struct LengthPrefix {
    pub length: int,
    pub octets: int,
}

/// The variable-width length at the front of `s`.
///
/// A first octet below 192 is the length itself. One from 192 to 254 opens a
/// two-octet form, and 255 a five-octet form whose last four octets are the
/// length, big-endian. `None` where `s` ends inside the prefix.
pub open spec fn spec_packet_length(s: Seq<u8>) -> Option<LengthPrefix> {
    if s.len() < 1 {
        None
    } else if s[0] < 192 {
        Some(LengthPrefix { length: s[0] as int, octets: 1 })
    } else if s[0] < 255 {
        if s.len() < 2 {
            None
        } else {
            Some(LengthPrefix { length: (s[0] - 192) * 0x100 + 192 + s[1], octets: 2 })
        }
    } else if s.len() < 5 {
        None
    } else {
        Some(LengthPrefix { length: spec_be_u32(s.subrange(1, 5)), octets: 5 })
    }
}

/// Reads a variable-width length: the part of `input` after it, and the
/// length. `None` exactly when `input` ends inside the prefix.
pub fn packet_length(input: &[u8]) -> (r: Option<(&[u8], usize)>)
    ensures
        r is Some <==> spec_packet_length(input@) is Some,
        r is Some ==> {
            let p = spec_packet_length(input@)->Some_0;
            &&& r->Some_0.0@ == input@.skip(p.octets)
            &&& r->Some_0.1 as int == p.length
        },
{
    match be_u8(input) {
        None => None,
        Some((rest, first)) => {
            if first < 192 {
                Some((rest, first as usize))
            } else if first < 255 {
                match be_u8(rest) {
                    None => None,
                    Some((rest, second)) => {
                        assert(rest@ =~= input@.skip(2));
                        let high: usize = (first - 192) as usize;
                        Some((rest, high * 0x100 + 192 + second as usize))
                    },
                }
            } else {
                match be_u32(rest) {
                    None => None,
                    Some((rest, length)) => {
                        assert(rest@ =~= input@.skip(5));
                        assert(input@.skip(1).take(4) =~= input@.subrange(1, 5));
                        assert(spec_be_u32(input@.skip(1)) == spec_be_u32(input@.subrange(1, 5)));
                        Some((rest, length as usize))
                    },
                }
            }
        },
    }
}

/// The octets that encode a multi-precision integer of `bits` bits.
pub open spec fn mpi_octets(bits: int) -> int {
    (bits + 7) / 8
}

/// `s` without the zero octets at its front.
pub open spec fn spec_strip_leading_zeros(s: Seq<u8>) -> Seq<u8>
    decreases s.len(),
{
    if s.len() > 0 && s[0] == 0 {
        spec_strip_leading_zeros(s.skip(1))
    } else {
        s
    }
}

/// A multi-precision integer read off the front of a byte sequence.
pub struct MpiRead {
    pub rest: Seq<u8>,
    pub value: Seq<u8>,
}

/// The multi-precision integer at the front of `s`: a two-octet count of
/// bits, then the octets that hold that many bits; the value is kept
/// without leading zero octets. `None` where `s` ends before the integer does.
pub open spec fn spec_mpi(s: Seq<u8>) -> Option<MpiRead> {
    if s.len() < 2 {
        None
    } else {
        let n = mpi_octets(spec_be_u16(s));
        if s.len() < 2 + n {
            None
        } else {
            Some(MpiRead { rest: s.skip(2 + n), value: spec_strip_leading_zeros(s.subrange(2, 2 + n)) })
        }
    }
}

/// Drops the zero octets at the front of `bytes`.
pub fn strip_leading_zeros(bytes: &[u8]) -> (r: &[u8])
    ensures
        r@ == spec_strip_leading_zeros(bytes@),
        r@.len() > 0 ==> r@[0] != 0,
        r@.len() <= bytes@.len(),
{
    let mut i: usize = 0;
    assert(bytes@.skip(0) =~= bytes@);
    while i < bytes.len() && bytes[i] == 0
        invariant
            i <= bytes@.len(),
            spec_strip_leading_zeros(bytes@) == spec_strip_leading_zeros(bytes@.skip(i as int)),
        decreases bytes@.len() - i,
    {
        assert(bytes@.skip(i as int).skip(1) =~= bytes@.skip(i + 1));
        i += 1;
    }
    slice_subrange(bytes, i, bytes.len())
}

/// Reads one multi-precision integer: the part of `input` after it, and its
/// octets without leading zeros. `None` exactly when `input` ends too early.
pub fn mpi(input: &[u8]) -> (r: Option<(&[u8], &[u8])>)
    ensures
        r is Some <==> spec_mpi(input@) is Some,
        r is Some ==> {
            let m = spec_mpi(input@)->Some_0;
            &&& r->Some_0.0@ == m.rest
            &&& r->Some_0.1@ == m.value
        },
{
    match be_u16(input) {
        None => None,
        Some((after, bits)) => {
            let n: usize = ((bits as usize) + 7) / 8;
            match take(after, n) {
                None => None,
                Some((rest, raw)) => {
                    assert(rest@ =~= input@.skip(2 + n));
                    assert(raw@ =~= input@.subrange(2, 2 + n));
                    Some((rest, strip_leading_zeros(raw)))
                },
            }
        },
    }
}

} // verus!
