//! Properties of the grammar that hold of every input.

use vstd::prelude::*;
use crate::algorithms::{HashAlgorithm, PublicKeyAlgorithm};
use crate::codes::{SignatureType, SignatureVersion, SubpacketType, Version};
use crate::errors::{ErrorKind, Field, ParseError, unknown_at};
use crate::grammar::{
    spec_actual_signature, spec_frame, spec_mpis, spec_parse, spec_signature_integers,
    spec_subpacket, spec_subpackets, spec_v3, spec_v4,
};
use crate::signature::{SignatureView, SubpacketView};
use crate::wire::{spec_be_u16, spec_mpi, spec_packet_length};

verus! {

/// However many integers are asked for, a successful read returns that many.
pub proof fn lemma_mpis_count(input: Seq<u8>, count: nat, streaming: bool)
    ensures
        spec_mpis(input, count, streaming) matches Ok((_, values)) ==> values.len() == count,
    decreases count,
{
    if count > 0 {
        match spec_mpi(input) {
            None => {},
            Some(m) => {
                lemma_mpis_count(m.rest, (count - 1) as nat, streaming);
            },
        }
    }
}

/// The signature value of an RSA signature has one integer, that of a DSA,
/// ECDSA or EdDSA signature has two, and that of any other algorithm has one.
pub proof fn lemma_signature_value_count(input: Seq<u8>, alg: PublicKeyAlgorithm, streaming: bool)
    ensures
        spec_actual_signature(input, alg, streaming) matches Ok((_, values)) ==> values.len() == (
        if alg == PublicKeyAlgorithm::DSA || alg == PublicKeyAlgorithm::ECDSA || alg
            == PublicKeyAlgorithm::EdDSA {
            2nat
        } else {
            1nat
        }),
{
    lemma_mpis_count(input, spec_signature_integers(alg), streaming);
}

/// Every signature that parses carries as many integers as its own
/// public-key algorithm has.
pub proof fn lemma_parsed_signature_value_count(
    input: Seq<u8>,
    packet_version: Version,
    streaming: bool,
    depth: nat,
)
    ensures
        spec_parse(input, packet_version, streaming, depth) matches Ok((_, sig))
            ==> sig.signature.len() == spec_signature_integers(sig.pub_alg),
{
    if input.len() >= 1 {
        let body = input.skip(1);
        match SignatureVersion::spec_from_u8(input[0]) {
            None => {},
            Some(version) => {
                if version.is_legacy() {
                    if spec_v3(body, packet_version, version, streaming) is Ok {
                        let alg = PublicKeyAlgorithm::spec_from_u8(body[14])->Some_0;
                        lemma_mpis_count(body.skip(18), spec_signature_integers(alg), streaming);
                    }
                } else {
                    if spec_v4(body, packet_version, version, streaming, depth) is Ok {
                        let alg = PublicKeyAlgorithm::spec_from_u8(body[1])->Some_0;
                        let h = 5 + spec_be_u16(body.skip(3));
                        let u = h + 2 + spec_be_u16(body.skip(h));
                        lemma_mpis_count(body.skip(u + 2), spec_signature_integers(alg), streaming);
                    }
                }
            },
        }
    }
}

/// An area of no octets holds no subpackets, and is no failure.
pub proof fn lemma_empty_area(depth: nat)
    ensures
        spec_subpackets(Seq::<u8>::empty(), depth) == Ok::<Seq<SubpacketView>, ParseError>(
            Seq::empty(),
        ),
{
}

/// In a version 4 or 5 signature whose hashed area has length zero, the
/// area reads as no subpackets and is no failure; if the signature parses,
/// it has no hashed subpackets.
pub proof fn lemma_zero_hashed_length(
    input: Seq<u8>,
    packet_version: Version,
    version: SignatureVersion,
    streaming: bool,
    depth: nat,
)
    requires
        input.len() >= 5,
        input[3] == 0,
        input[4] == 0,
    ensures
        spec_v4(input, packet_version, version, streaming, depth) matches Ok((_, sig))
            ==> sig.hashed_subpackets == Seq::<SubpacketView>::empty(),
        spec_subpackets(input.subrange(5, 5 + spec_be_u16(input.skip(3))), depth)
            == Ok::<Seq<SubpacketView>, ParseError>(Seq::empty()),
{
    assert(input.subrange(5, 5) =~= Seq::<u8>::empty());
}

/// A subpacket that declares more octets than the input holds is
/// `Incomplete` where the input is a stream and `Malformed` where the
/// input is a slice of fixed length.
pub proof fn lemma_overlong_subpacket(input: Seq<u8>)
    requires
        spec_packet_length(input) is Some,
        input.len() < spec_packet_length(input)->Some_0.octets + spec_packet_length(
            input,
        )->Some_0.length,
    ensures
        spec_frame(input, true) is Err,
        spec_frame(input, false) is Err,
        spec_frame(input, true)->Err_0.kind == ErrorKind::Incomplete,
        spec_frame(input, false)->Err_0.kind == ErrorKind::Malformed,
{
}

/// Cutting a subpacket out of a stream fails in the same cases as cutting
/// it out of a slice, and differs only in what running out of input is
/// called.
pub proof fn lemma_frame_modes_agree(input: Seq<u8>)
    ensures
        spec_frame(input, true) is Ok <==> spec_frame(input, false) is Ok,
        spec_frame(input, true) is Ok ==> spec_frame(input, true) == spec_frame(input, false),
        spec_frame(input, false) matches Err(e) ==> e.kind == ErrorKind::Malformed,
{
}

/// Reading integers out of a slice of fixed length never ends as `Incomplete`.
pub proof fn lemma_mpis_in_slice(input: Seq<u8>, count: nat)
    ensures
        spec_mpis(input, count, false) matches Err(e) ==> e.kind == ErrorKind::Malformed,
    decreases count,
{
    if count > 0 {
        match spec_mpi(input) {
            None => {},
            Some(m) => {
                lemma_mpis_in_slice(m.rest, (count - 1) as nat);
            },
        }
    }
}

/// A subpacket body never fails as `Incomplete`: its frame has fixed its
/// length.
pub proof fn lemma_subpacket_never_incomplete(typ: SubpacketType, body: Seq<u8>, depth: nat)
    ensures
        spec_subpacket(typ, body, depth) matches Err(e) ==> e.kind != ErrorKind::Incomplete,
    decreases depth, body.len(), 0nat,
{
    if typ == SubpacketType::EmbeddedSignature && depth > 0 {
        lemma_slice_never_incomplete(body, Version::New, (depth - 1) as nat);
    }
}

/// A subpacket area never fails as `Incomplete`.
pub proof fn lemma_area_never_incomplete(area: Seq<u8>, depth: nat)
    ensures
        spec_subpackets(area, depth) matches Err(e) ==> e.kind != ErrorKind::Incomplete,
    decreases depth, area.len(), 1nat,
{
    if area.len() > 0 {
        match spec_frame(area, false) {
            Err(_) => {},
            Ok(f) => {
                lemma_subpacket_never_incomplete(f.typ, f.body, depth);
                match spec_subpacket(f.typ, f.body, depth) {
                    Err(_) => {},
                    Ok(_) => {
                        lemma_area_never_incomplete(f.rest, depth);
                    },
                }
            },
        }
    }
}

/// A signature read out of a slice of fixed length never fails as
/// `Incomplete`: whatever is missing is `Malformed` there.
pub proof fn lemma_slice_never_incomplete(input: Seq<u8>, packet_version: Version, depth: nat)
    ensures
        spec_parse(input, packet_version, false, depth) matches Err(e) ==> e.kind
            != ErrorKind::Incomplete,
    decreases depth, input.len() + 1, 0nat,
{
    if input.len() >= 1 {
        let body = input.skip(1);
        match SignatureVersion::spec_from_u8(input[0]) {
            None => {},
            Some(version) => {
                if version.is_legacy() {
                    if body.len() >= 18 {
                        let alg = PublicKeyAlgorithm::spec_from_u8(body[14]);
                        if alg is Some {
                            lemma_mpis_in_slice(
                                body.skip(18),
                                spec_signature_integers(alg->Some_0),
                            );
                        }
                    }
                } else {
                    lemma_v4_in_slice(body, packet_version, version, depth);
                }
            },
        }
    }
}

/// The version 4 layout, read out of a slice of fixed length, never fails
/// as `Incomplete`.
pub proof fn lemma_v4_in_slice(
    input: Seq<u8>,
    packet_version: Version,
    version: SignatureVersion,
    depth: nat,
)
    ensures
        spec_v4(input, packet_version, version, false, depth) matches Err(e) ==> e.kind
            != ErrorKind::Incomplete,
    decreases depth, input.len(), 2nat,
{
    if input.len() >= 5 && input.len() >= 5 + spec_be_u16(input.skip(3)) {
        let h = 5 + spec_be_u16(input.skip(3));
        lemma_area_never_incomplete(input.subrange(5, h), depth);
        if input.len() >= h + 2 && input.len() >= h + 2 + spec_be_u16(input.skip(h)) {
            let u = h + 2 + spec_be_u16(input.skip(h));
            lemma_area_never_incomplete(input.subrange(h + 2, u), depth);
            if input.len() >= u + 2 {
                let alg = PublicKeyAlgorithm::spec_from_u8(input[1]);
                if alg is Some {
                    lemma_mpis_in_slice(input.skip(u + 2), spec_signature_integers(alg->Some_0));
                }
            }
        }
    }
}

/// While a signature is read off a stream, its subpacket areas are slices
/// of fixed length: a subpacket that overruns its area fails the parse as
/// `Malformed`, and the only fields that can be `Incomplete` are those of
/// the signature itself.
pub proof fn lemma_incomplete_only_outside_areas(
    input: Seq<u8>,
    packet_version: Version,
    depth: nat,
)
    ensures
        spec_parse(input, packet_version, true, depth) matches Err(e) ==> (e.kind
            == ErrorKind::Incomplete ==> !(e.field is Subpacket) && e.field
            != Field::SubpacketLength && e.field != Field::SubpacketTag),
{
    if input.len() >= 1 {
        let body = input.skip(1);
        match SignatureVersion::spec_from_u8(input[0]) {
            None => {},
            Some(version) => {
                if !version.is_legacy() {
                    if body.len() >= 5 && body.len() >= 5 + spec_be_u16(body.skip(3)) {
                        let h = 5 + spec_be_u16(body.skip(3));
                        lemma_area_never_incomplete(body.subrange(5, h), depth);
                        if body.len() >= h + 2 && body.len() >= h + 2 + spec_be_u16(
                            body.skip(h),
                        ) {
                            let u = h + 2 + spec_be_u16(body.skip(h));
                            lemma_area_never_incomplete(body.subrange(h + 2, u), depth);
                            if body.len() >= u + 2 {
                                let alg = PublicKeyAlgorithm::spec_from_u8(body[1]);
                                if alg is Some {
                                    lemma_mpis_field(
                                        body.skip(u + 2),
                                        spec_signature_integers(alg->Some_0),
                                        true,
                                    );
                                }
                            }
                        }
                    }
                } else {
                    if body.len() >= 18 {
                        let alg = PublicKeyAlgorithm::spec_from_u8(body[14]);
                        if alg is Some {
                            lemma_mpis_field(
                                body.skip(18),
                                spec_signature_integers(alg->Some_0),
                                true,
                            );
                        }
                    }
                }
            },
        }
    }
}

/// A failure to read the integers names the signature value.
pub proof fn lemma_mpis_field(input: Seq<u8>, count: nat, streaming: bool)
    ensures
        spec_mpis(input, count, streaming) matches Err(e) ==> e.field == Field::SignatureValue,
    decreases count,
{
    if count > 0 {
        match spec_mpi(input) {
            None => {},
            Some(m) => {
                lemma_mpis_field(m.rest, (count - 1) as nat, streaming);
            },
        }
    }
}

/// An embedded-signature subpacket parses exactly when its body parses as
/// a signature packet in the new format, read as a slice one level
/// further down, and then holds that signature.
pub proof fn lemma_embedded_signature(body: Seq<u8>, depth: nat)
    ensures
        match spec_parse(body, Version::New, false, depth) {
            Ok((rest, sig)) => spec_subpacket(
                SubpacketType::EmbeddedSignature,
                body,
                depth + 1,
            ) == Ok::<(Seq<u8>, SubpacketView), ParseError>(
                (rest, SubpacketView::EmbeddedSignature(Box::new(sig))),
            ),
            Err(e) => spec_subpacket(SubpacketType::EmbeddedSignature, body, depth + 1) == Err::<
                (Seq<u8>, SubpacketView),
                ParseError,
            >(e),
        },
{
    assert((depth + 1 - 1) as nat == depth);
}

/// A tag outside the known kinds never fails: the subpacket is kept with
/// its tag and its body as they are.
pub proof fn lemma_unknown_kind_is_kept(tag: u8, body: Seq<u8>, depth: nat)
    requires
        SubpacketType::spec_from_u8(tag) is Other || SubpacketType::spec_from_u8(tag)
            is Experimental,
    ensures
        spec_subpacket(SubpacketType::spec_from_u8(tag), body, depth) == Ok::<
            (Seq<u8>, SubpacketView),
            ParseError,
        >(
            (
                Seq::empty(),
                if 100 <= tag <= 110 {
                    SubpacketView::Experimental(tag, body)
                } else {
                    SubpacketView::Other(tag, body)
                },
            ),
        ),
{
}

/// A hash algorithm code outside the known set fails a version 4 or 5
/// signature whose fields before it are in order.
pub proof fn lemma_unknown_hash_algorithm_fails(
    input: Seq<u8>,
    packet_version: Version,
    streaming: bool,
    depth: nat,
)
    requires
        input.len() >= 4,
        input[0] == 4 || input[0] == 5,
        SignatureType::spec_from_u8(input[1]) is Some,
        PublicKeyAlgorithm::spec_from_u8(input[2]) is Some,
        HashAlgorithm::spec_from_u8(input[3]) is None,
    ensures
        spec_parse(input, packet_version, streaming, depth) == Err::<
            (Seq<u8>, SignatureView),
            ParseError,
        >(unknown_at(Field::HashAlgorithm)),
{
}

/// A hash algorithm code outside the known set fails a version 2 or 3
/// signature whose fields before it are in order.
pub proof fn lemma_unknown_hash_algorithm_fails_legacy(
    input: Seq<u8>,
    packet_version: Version,
    streaming: bool,
    depth: nat,
)
    requires
        input.len() >= 17,
        input[0] == 2 || input[0] == 3,
        input[1] == 5,
        SignatureType::spec_from_u8(input[2]) is Some,
        PublicKeyAlgorithm::spec_from_u8(input[15]) is Some,
        HashAlgorithm::spec_from_u8(input[16]) is None,
    ensures
        spec_parse(input, packet_version, streaming, depth) == Err::<
            (Seq<u8>, SignatureView),
            ParseError,
        >(unknown_at(Field::HashAlgorithm)),
{
}

/// A trust signature keeps whatever two octets it holds: no pair of depth
/// and amount is refused.
pub proof fn lemma_trust_signature_unchecked(level: u8, amount: u8, depth: nat)
    ensures
        spec_subpacket(SubpacketType::TrustSignature, seq![level, amount], depth) == Ok::<
            (Seq<u8>, SubpacketView),
            ParseError,
        >((Seq::empty(), SubpacketView::TrustSignature(level, amount))),
{
    assert(seq![level, amount].skip(2) =~= Seq::<u8>::empty());
}

} // verus!
