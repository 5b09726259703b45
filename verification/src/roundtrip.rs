//! Reading back what was encoded: the grammar recovers every value from
//! its encoding.

use vstd::prelude::*;
use vstd::utf8::{encode_utf8, encode_utf8_decode_utf8, encode_utf8_valid_utf8};
use crate::codes::SubpacketType;
use crate::encoding::{
    spec_area_octets, spec_area_octets_from, spec_body, spec_encodable, spec_kind,
    spec_length_octets, spec_mpi_canonical, spec_mpi_octets, spec_mpis_octets,
    spec_signature_encodable, spec_signature_fields, spec_signature_octets,
    spec_subpacket_octets,
};
use crate::errors::{Field, ParseError};
use crate::grammar::{
    Frame, ModernCodes, spec_area_at, spec_frame, spec_modern_codes, spec_mpis,
    spec_next_subpacket, spec_notation, spec_parse, spec_signature_integers, spec_subpacket,
    spec_subpackets, spec_v3, spec_v4,
};
use crate::signature::SignatureView;
use crate::lists::{AeadAlgorithms, CompressionAlgorithms, HashAlgorithms, SymmetricAlgorithms};
use crate::signature::SubpacketView;
use crate::text::{spec_read_string, spec_strict_text};
use crate::wire::{
    LengthPrefix, MpiRead, spec_be_u16, spec_be_u32, spec_mpi, spec_packet_length,
    spec_u16_octets, spec_u32_octets,
};

verus! {

/// A two-octet integer reads back from its octets, whatever follows them.
pub proof fn lemma_u16_round_trip(v: int, rest: Seq<u8>)
    requires
        0 <= v < 0x1_0000,
    ensures
        spec_u16_octets(v).len() == 2,
        spec_be_u16(spec_u16_octets(v) + rest) == v,
{
    reveal(spec_u16_octets);
}

/// A four-octet integer reads back from its octets, whatever follows them.
pub proof fn lemma_u32_round_trip(v: int, rest: Seq<u8>)
    requires
        0 <= v < 0x1_0000_0000,
    ensures
        spec_u32_octets(v).len() == 4,
        spec_be_u32(spec_u32_octets(v) + rest) == v,
{
    reveal(spec_u32_octets);
}

/// A subpacket length reads back from its shortest encoding, whatever
/// follows it.
pub proof fn lemma_length_round_trip(n: int, rest: Seq<u8>)
    requires
        0 <= n < 0x1_0000_0000,
    ensures
        spec_packet_length(spec_length_octets(n) + rest) == Some(
            LengthPrefix { length: n, octets: spec_length_octets(n).len() as int },
        ),
        1 <= spec_length_octets(n).len() <= 5,
{
    reveal(spec_length_octets);
    let s = spec_length_octets(n) + rest;
    if n < 192 {
    } else if n < 16320 {
    } else {
        lemma_u32_round_trip(n, Seq::empty());
        assert(s.subrange(1, 5) =~= spec_u32_octets(n));
        assert(spec_u32_octets(n) + Seq::<u8>::empty() =~= spec_u32_octets(n));
    }
}

/// Text reads back from its UTF-8 encoding, strictly and leniently.
pub proof fn lemma_text_round_trip(text: Seq<char>)
    ensures
        spec_strict_text(encode_utf8(text)) == Some(text),
        spec_read_string(encode_utf8(text)) == text,
{
    encode_utf8_valid_utf8(text);
    encode_utf8_decode_utf8(text);
}

/// An integer without leading zero octets reads back from its encoding,
/// whatever follows it.
pub proof fn lemma_mpi_round_trip(value: Seq<u8>, rest: Seq<u8>)
    requires
        spec_mpi_canonical(value),
    ensures
        spec_mpi(spec_mpi_octets(value) + rest) == Some(MpiRead { rest, value }),
{
    let s = spec_mpi_octets(value) + rest;
    let n = value.len() as int;
    lemma_u16_round_trip(8 * n, value + rest);
    assert(s =~= spec_u16_octets(8 * n) + (value + rest));
    assert(s.subrange(2, 2 + n) =~= value);
    assert(s.skip(2 + n) =~= rest);
}

/// A run of integers without leading zero octets reads back from its
/// encoding, whatever follows it.
pub proof fn lemma_mpis_round_trip(values: Seq<Seq<u8>>, rest: Seq<u8>, streaming: bool)
    requires
        forall|i: int| 0 <= i < values.len() ==> spec_mpi_canonical(#[trigger] values[i]),
    ensures
        spec_mpis(spec_mpis_octets(values) + rest, values.len(), streaming) == Ok::<
            (Seq<u8>, Seq<Seq<u8>>),
            ParseError,
        >((rest, values)),
    decreases values.len(),
{
    if values.len() == 0 {
        assert(spec_mpis_octets(values) + rest =~= rest);
        assert(values =~= Seq::empty());
    } else {
        let tail = values.skip(1);
        let after = spec_mpis_octets(tail) + rest;
        assert(spec_mpis_octets(values) + rest =~= spec_mpi_octets(values[0]) + after);
        lemma_mpi_round_trip(values[0], after);
        assert forall|i: int| 0 <= i < tail.len() implies spec_mpi_canonical(#[trigger] tail[i]) by {
            assert(tail[i] == values[i + 1]);
        }
        lemma_mpis_round_trip(tail, rest, streaming);
        assert(seq![values[0]] + tail =~= values);
    }
}

/// The body of a notation reads back.
proof fn lemma_notation_round_trip(v: SubpacketView)
    requires
        v is Notation,
        spec_encodable(v, 0),
    ensures
        spec_notation(spec_body(v)) == Some((Seq::<u8>::empty(), v->Notation_0)),
{
    let n = v->Notation_0;
    let name = encode_utf8(n.name);
    let value = encode_utf8(n.value);
    let body = spec_body(v);
    let nl = name.len() as int;
    let vl = value.len() as int;
    let flag: u8 = if n.readable { 0x80u8 } else { 0u8 };
    lemma_u16_round_trip(nl, spec_u16_octets(vl) + name + value);
    lemma_u16_round_trip(vl, name + value);
    assert(body.len() == 8 + nl + vl);
    assert(body[0] == flag);
    assert(body[1] == 0 && body[2] == 0 && body[3] == 0);
    assert(body.skip(4) =~= spec_u16_octets(nl) + (spec_u16_octets(vl) + name + value));
    assert(body.skip(6) =~= spec_u16_octets(vl) + (name + value));
    assert(body.subrange(8, 8 + nl) =~= name);
    assert(body.subrange(8 + nl, 8 + nl + vl) =~= value);
    assert(body.skip(8 + nl + vl) =~= Seq::<u8>::empty());
    lemma_text_round_trip(n.name);
    lemma_text_round_trip(n.value);
    assert(0x80u8 & 0x80 != 0) by (bit_vector);
    assert(0u8 & 0x80 == 0) by (bit_vector);
}

/// The body of a subpacket of fixed width reads back.
proof fn lemma_fixed_width_round_trip(v: SubpacketView, depth: nat)
    requires
        v is SignatureCreationTime || v is SignatureExpirationTime || v is KeyExpirationTime || v
            is Issuer || v is IsPrimary || v is Revocable || v is ExportableCertification || v
            is TrustSignature,
        spec_encodable(v, depth),
    ensures
        spec_subpacket(spec_kind(v), spec_body(v), depth) == Ok::<
            (Seq<u8>, SubpacketView),
            ParseError,
        >((Seq::empty(), v)),
{
    let body = spec_body(v);
    let none = Seq::<u8>::empty();
    match v {
        SubpacketView::SignatureCreationTime(t) => {
            lemma_u32_round_trip(t, none);
            assert(body + none =~= body);
            assert(body.skip(4) =~= none);
        },
        SubpacketView::SignatureExpirationTime(t) => {
            lemma_u32_round_trip(t, none);
            assert(body + none =~= body);
            assert(body.skip(4) =~= none);
        },
        SubpacketView::KeyExpirationTime(t) => {
            lemma_u32_round_trip(t, none);
            assert(body + none =~= body);
            assert(body.skip(4) =~= none);
        },
        SubpacketView::Issuer(id) => {
            assert(body.skip(8) =~= none);
            assert(body.take(8) =~= id);
        },
        SubpacketView::TrustSignature(_, _) => {
            assert(body.skip(2) =~= none);
        },
        _ => {
            assert(body.skip(1) =~= none);
        },
    }
}

/// The body of a subpacket that is text reads back.
proof fn lemma_text_body_round_trip(v: SubpacketView, depth: nat)
    requires
        v is PreferredKeyServer || v is SignersUserID || v is PolicyURI || v is RegularExpression
            || v is RevocationReason,
        spec_encodable(v, depth),
    ensures
        spec_subpacket(spec_kind(v), spec_body(v), depth) == Ok::<
            (Seq<u8>, SubpacketView),
            ParseError,
        >((Seq::empty(), v)),
{
    let body = spec_body(v);
    match v {
        SubpacketView::RevocationReason(code, text) => {
            code.lemma_decoded_of_code();
            assert(body.skip(1) =~= encode_utf8(text));
            lemma_text_round_trip(text);
        },
        SubpacketView::PreferredKeyServer(text) => {
            lemma_text_round_trip(text);
        },
        SubpacketView::SignersUserID(text) => {
            lemma_text_round_trip(text);
        },
        SubpacketView::PolicyURI(text) => {
            lemma_text_round_trip(text);
        },
        SubpacketView::RegularExpression(text) => {
            lemma_text_round_trip(text);
        },
        _ => {},
    }
}

/// The body of a subpacket that is a list of codes or of octets reads back.
proof fn lemma_list_body_round_trip(v: SubpacketView, depth: nat)
    requires
        v is PreferredSymmetricAlgorithms || v is PreferredHashAlgorithms || v
            is PreferredCompressionAlgorithms || v is PreferredAeadAlgorithms || v
            is KeyServerPreferences || v is KeyFlags || v is Features || v is Experimental || v
            is Other,
        spec_encodable(v, depth),
    ensures
        spec_subpacket(spec_kind(v), spec_body(v), depth) == Ok::<
            (Seq<u8>, SubpacketView),
            ParseError,
        >((Seq::empty(), v)),
{
    match v {
        SubpacketView::PreferredSymmetricAlgorithms(l) => {
            SymmetricAlgorithms::lemma_codes_round_trip(l);
        },
        SubpacketView::PreferredHashAlgorithms(l) => {
            HashAlgorithms::lemma_codes_round_trip(l);
        },
        SubpacketView::PreferredCompressionAlgorithms(l) => {
            CompressionAlgorithms::lemma_codes_round_trip(l);
        },
        SubpacketView::PreferredAeadAlgorithms(l) => {
            AeadAlgorithms::lemma_codes_round_trip(l);
        },
        _ => {},
    }
}

/// The body of a subpacket of several fields reads back.
proof fn lemma_record_body_round_trip(v: SubpacketView, depth: nat)
    requires
        v is Notation || v is RevocationKey || v is IssuerFingerprint || v is SignatureTarget,
        spec_encodable(v, depth),
    ensures
        spec_subpacket(spec_kind(v), spec_body(v), depth) == Ok::<
            (Seq<u8>, SubpacketView),
            ParseError,
        >((Seq::empty(), v)),
{
    let body = spec_body(v);
    let none = Seq::<u8>::empty();
    match v {
        SubpacketView::Notation(_) => {
            lemma_notation_round_trip(v);
        },
        SubpacketView::RevocationKey(k) => {
            k.class.lemma_decoded_of_code();
            k.algorithm.lemma_decoded_of_code();
            assert(body.subrange(2, 22) =~= k.fingerprint);
            assert(body.skip(22) =~= none);
        },
        SubpacketView::IssuerFingerprint(version, fp) => {
            version.lemma_decoded_of_code();
            assert(body.skip(1) =~= fp);
        },
        SubpacketView::SignatureTarget(pub_alg, hash_alg, digest) => {
            pub_alg.lemma_decoded_of_code();
            hash_alg.lemma_decoded_of_code();
            assert(body.skip(2) =~= digest);
        },
        _ => {},
    }
}

/// The body of a subpacket of any kind but the embedded signature reads
/// back as the subpacket, and leaves nothing unread.
pub proof fn lemma_plain_body_round_trip(v: SubpacketView, depth: nat)
    requires
        !(v is EmbeddedSignature),
        spec_encodable(v, depth),
    ensures
        spec_subpacket(spec_kind(v), spec_body(v), depth) == Ok::<
            (Seq<u8>, SubpacketView),
            ParseError,
        >((Seq::empty(), v)),
{
    if v is SignatureCreationTime || v is SignatureExpirationTime || v is KeyExpirationTime || v
        is Issuer || v is IsPrimary || v is Revocable || v is ExportableCertification || v
        is TrustSignature {
        lemma_fixed_width_round_trip(v, depth);
    } else if v is PreferredKeyServer || v is SignersUserID || v is PolicyURI || v
        is RegularExpression || v is RevocationReason {
        lemma_text_body_round_trip(v, depth);
    } else if v is Notation || v is RevocationKey || v is IssuerFingerprint || v
        is SignatureTarget {
        lemma_record_body_round_trip(v, depth);
    } else {
        lemma_list_body_round_trip(v, depth);
    }
}

/// A whole subpacket is cut out of what it is followed by: the frame finds
/// the kind and the body that were encoded, on a stream and in a slice.
pub proof fn lemma_frame_round_trip(v: SubpacketView, rest: Seq<u8>, streaming: bool, depth: nat)
    requires
        spec_encodable(v, depth),
    ensures
        spec_frame(spec_subpacket_octets(v) + rest, streaming) == Ok::<Frame, ParseError>(
            Frame { typ: spec_kind(v), body: spec_body(v), rest },
        ),
        spec_subpacket_octets(v).len() >= 2,
{
    let body = spec_body(v);
    let n = 1 + body.len() as int;
    let prefix = spec_length_octets(n);
    let tag = spec_kind(v).spec_to_u8();
    let input = spec_subpacket_octets(v) + rest;
    let k = prefix.len() as int;
    assert(input =~= prefix + (seq![tag] + body + rest));
    lemma_length_round_trip(n, seq![tag] + body + rest);
    assert(input[k] == tag);
    assert(SubpacketType::spec_from_u8(tag) == spec_kind(v));
    assert(input.subrange(k + 1, k + n) =~= body);
    assert(input.skip(k + n) =~= rest);
}

/// The body of a subpacket of any kind reads back as the subpacket, and
/// leaves nothing unread.
pub proof fn lemma_body_round_trip(v: SubpacketView, depth: nat)
    requires
        spec_encodable(v, depth),
    ensures
        spec_subpacket(spec_kind(v), spec_body(v), depth) == Ok::<
            (Seq<u8>, SubpacketView),
            ParseError,
        >((Seq::empty(), v)),
    decreases v, 0nat,
{
    match v {
        SubpacketView::EmbeddedSignature(sig) => {
            let octets = spec_signature_octets(*sig);
            lemma_signature_round_trip(*sig, Seq::empty(), false, (depth - 1) as nat);
            assert(octets + Seq::<u8>::empty() =~= octets);
        },
        _ => {
            lemma_plain_body_round_trip(v, depth);
        },
    }
}

/// A whole subpacket reads back from its encoding, whatever follows it, on
/// a stream and in a slice.
pub proof fn lemma_subpacket_round_trip(
    v: SubpacketView,
    rest: Seq<u8>,
    streaming: bool,
    depth: nat,
)
    requires
        spec_encodable(v, depth),
    ensures
        spec_next_subpacket(spec_subpacket_octets(v) + rest, streaming, depth) == Ok::<
            (Seq<u8>, SubpacketView),
            ParseError,
        >((rest, v)),
{
    lemma_frame_round_trip(v, rest, streaming, depth);
    lemma_body_round_trip(v, depth);
}

/// The subpackets of an area from position `from` on read back from their
/// encoding.
pub proof fn lemma_area_round_trip_from(vs: Seq<SubpacketView>, from: int, depth: nat)
    requires
        0 <= from <= vs.len(),
        forall|i: int| 0 <= i < vs.len() ==> spec_encodable(#[trigger] vs[i], depth),
    ensures
        spec_subpackets(spec_area_octets_from(vs, from), depth) == Ok::<
            Seq<SubpacketView>,
            ParseError,
        >(vs.skip(from)),
    decreases vs, vs.len() - from,
{
    if from < vs.len() {
        let first = vs[from];
        let after = spec_area_octets_from(vs, from + 1);
        lemma_frame_round_trip(first, after, false, depth);
        lemma_body_round_trip(first, depth);
        lemma_area_round_trip_from(vs, from + 1, depth);
        assert(seq![first] + vs.skip(from + 1) =~= vs.skip(from));
        assert(spec_area_octets_from(vs, from).len() > 0);
    } else {
        assert(vs.skip(from) =~= Seq::<SubpacketView>::empty());
    }
}

/// A subpacket area reads back from its encoding.
pub proof fn lemma_area_round_trip(vs: Seq<SubpacketView>, depth: nat)
    requires
        forall|i: int| 0 <= i < vs.len() ==> spec_encodable(#[trigger] vs[i], depth),
    ensures
        spec_subpackets(spec_area_octets(vs), depth) == Ok::<Seq<SubpacketView>, ParseError>(vs),
    decreases vs, vs.len() + 1,
{
    lemma_area_round_trip_from(vs, 0, depth);
    assert(vs.skip(0) =~= vs);
}

/// Where the pieces of a version 4 body lie in their concatenation.
proof fn lemma_modern_layout(
    head: Seq<u8>,
    hashed_len: Seq<u8>,
    hashed: Seq<u8>,
    unhashed_len: Seq<u8>,
    unhashed: Seq<u8>,
    hash: Seq<u8>,
    mpis: Seq<u8>,
    rest: Seq<u8>,
)
    requires
        head.len() == 3,
        hashed_len.len() == 2,
        unhashed_len.len() == 2,
        hash.len() == 2,
    ensures
        ({
            let body = head + hashed_len + hashed + unhashed_len + unhashed + hash + mpis + rest;
            let h = 5 + hashed.len() as int;
            let u = h + 2 + unhashed.len() as int;
            &&& body.len() == u + 2 + mpis.len() + rest.len()
            &&& body[0] == head[0]
            &&& body[1] == head[1]
            &&& body[2] == head[2]
            &&& body.skip(3) == hashed_len + (hashed + unhashed_len + unhashed + hash + mpis + rest)
            &&& body.subrange(5, h) == hashed
            &&& body.skip(h) == unhashed_len + (unhashed + hash + mpis + rest)
            &&& body.subrange(h + 2, u) == unhashed
            &&& body.subrange(u, u + 2) == hash
            &&& body.skip(u + 2) == mpis + rest
        }),
{
    let body = head + hashed_len + hashed + unhashed_len + unhashed + hash + mpis + rest;
    let h = 5 + hashed.len() as int;
    let u = h + 2 + unhashed.len() as int;
    assert(body.skip(3) =~= hashed_len + (hashed + unhashed_len + unhashed + hash + mpis + rest));
    assert(body.subrange(5, h) =~= hashed);
    assert(body.skip(h) =~= unhashed_len + (unhashed + hash + mpis + rest));
    assert(body.subrange(h + 2, u) =~= unhashed);
    assert(body.subrange(u, u + 2) =~= hash);
    assert(body.skip(u + 2) =~= mpis + rest);
}

/// Where the pieces of a version 3 body lie in their concatenation.
proof fn lemma_legacy_layout(
    head: Seq<u8>,
    created: Seq<u8>,
    issuer: Seq<u8>,
    algorithms: Seq<u8>,
    hash: Seq<u8>,
    mpis: Seq<u8>,
    rest: Seq<u8>,
)
    requires
        head.len() == 2,
        created.len() == 4,
        issuer.len() == 8,
        algorithms.len() == 2,
        hash.len() == 2,
    ensures
        ({
            let body = head + created + issuer + algorithms + hash + mpis + rest;
            &&& body.len() == 18 + mpis.len() + rest.len()
            &&& body[0] == head[0]
            &&& body[1] == head[1]
            &&& body.skip(2) == created + (issuer + algorithms + hash + mpis + rest)
            &&& body.subrange(6, 14) == issuer
            &&& body[14] == algorithms[0]
            &&& body[15] == algorithms[1]
            &&& body.subrange(16, 18) == hash
            &&& body.skip(18) == mpis + rest
        }),
{
    let body = head + created + issuer + algorithms + hash + mpis + rest;
    assert(body.skip(2) =~= created + (issuer + algorithms + hash + mpis + rest));
    assert(body.subrange(6, 14) =~= issuer);
    assert(body.subrange(16, 18) =~= hash);
    assert(body.skip(18) =~= mpis + rest);
}

/// A version 2 or 3 signature reads back from the encoding of its fields.
proof fn lemma_legacy_round_trip(s: SignatureView, rest: Seq<u8>, streaming: bool, depth: nat)
    requires
        spec_signature_encodable(s, depth),
        s.version.is_legacy(),
    ensures
        spec_v3(spec_signature_fields(s) + rest, s.packet_version, s.version, streaming) == Ok::<
            (Seq<u8>, SignatureView),
            ParseError,
        >((rest, s)),
{
    let body = spec_signature_fields(s) + rest;
    let mpis = spec_mpis_octets(s.signature);
    let head = seq![5u8, s.typ.spec_to_u8()];
    let created = spec_u32_octets(s.created->Some_0);
    let issuer = s.issuer->Some_0;
    let algorithms = seq![s.pub_alg.spec_to_u8(), s.hash_alg.spec_to_u8()];
    s.typ.lemma_decoded_of_code();
    s.pub_alg.lemma_decoded_of_code();
    s.hash_alg.lemma_decoded_of_code();
    lemma_mpis_round_trip(s.signature, rest, streaming);
    lemma_u32_round_trip(
        s.created->Some_0,
        issuer + algorithms + s.signed_hash_value + mpis + rest,
    );
    lemma_legacy_layout(head, created, issuer, algorithms, s.signed_hash_value, mpis, rest);
    let parsed = spec_v3(body, s.packet_version, s.version, streaming);
    assert(parsed is Ok);
    assert(parsed->Ok_0.0 == rest);
    assert(parsed->Ok_0.1.hashed_subpackets =~= s.hashed_subpackets);
    assert(parsed->Ok_0.1.unhashed_subpackets =~= s.unhashed_subpackets);
    assert(parsed->Ok_0.1 == s);
}

/// An area reads back at its offset, given where its octets lie.
proof fn lemma_area_at_round_trip(
    input: Seq<u8>,
    at: int,
    area: Seq<u8>,
    after: Seq<u8>,
    found: Seq<SubpacketView>,
    streaming: bool,
    field: Field,
    depth: nat,
)
    requires
        0 <= at,
        area.len() < 0x1_0000,
        input.len() >= at + 2 + area.len(),
        input.skip(at) == spec_u16_octets(area.len() as int) + after,
        input.subrange(at + 2, at + 2 + area.len()) == area,
        spec_subpackets(area, depth) == Ok::<Seq<SubpacketView>, ParseError>(found),
    ensures
        spec_area_at(input, at, streaming, field, depth) == Ok::<
            (int, Seq<SubpacketView>),
            ParseError,
        >((at + 2 + area.len(), found)),
{
    lemma_u16_round_trip(area.len() as int, after);
}

/// A version 4 body whose pieces read back one by one reads back as a whole.
proof fn lemma_modern_assembly(
    body: Seq<u8>,
    s: SignatureView,
    h: int,
    u: int,
    rest: Seq<u8>,
    streaming: bool,
    depth: nat,
)
    requires
        s.created is None,
        s.issuer is None,
        spec_modern_codes(body, streaming) == Ok::<ModernCodes, ParseError>(
            ModernCodes { typ: s.typ, pub_alg: s.pub_alg, hash_alg: s.hash_alg },
        ),
        spec_area_at(body, 3, streaming, Field::HashedArea, depth) == Ok::<
            (int, Seq<SubpacketView>),
            ParseError,
        >((h, s.hashed_subpackets)),
        spec_area_at(body, h, streaming, Field::UnhashedArea, depth) == Ok::<
            (int, Seq<SubpacketView>),
            ParseError,
        >((u, s.unhashed_subpackets)),
        body.len() >= u + 2,
        body.subrange(u, u + 2) == s.signed_hash_value,
        spec_mpis(body.skip(u + 2), spec_signature_integers(s.pub_alg), streaming) == Ok::<
            (Seq<u8>, Seq<Seq<u8>>),
            ParseError,
        >((rest, s.signature)),
    ensures
        spec_v4(body, s.packet_version, s.version, streaming, depth) == Ok::<
            (Seq<u8>, SignatureView),
            ParseError,
        >((rest, s)),
{
}

/// The version 4 layout reads back field by field: three codes, two
/// areas that read back, the leading bits of the hash, and the integers.
proof fn lemma_modern_fields(
    s: SignatureView,
    hashed: Seq<u8>,
    unhashed: Seq<u8>,
    rest: Seq<u8>,
    streaming: bool,
    depth: nat,
)
    requires
        !s.version.is_legacy(),
        s.created is None,
        s.issuer is None,
        s.signed_hash_value.len() == 2,
        s.signature.len() == spec_signature_integers(s.pub_alg),
        forall|i: int| 0 <= i < s.signature.len() ==> spec_mpi_canonical(#[trigger] s.signature[i]),
        hashed.len() < 0x1_0000,
        unhashed.len() < 0x1_0000,
        spec_subpackets(hashed, depth) == Ok::<Seq<SubpacketView>, ParseError>(
            s.hashed_subpackets,
        ),
        spec_subpackets(unhashed, depth) == Ok::<Seq<SubpacketView>, ParseError>(
            s.unhashed_subpackets,
        ),
    ensures
        spec_v4(
            seq![s.typ.spec_to_u8(), s.pub_alg.spec_to_u8(), s.hash_alg.spec_to_u8()]
                + spec_u16_octets(hashed.len() as int) + hashed + spec_u16_octets(
                unhashed.len() as int,
            ) + unhashed + s.signed_hash_value + spec_mpis_octets(s.signature) + rest,
            s.packet_version,
            s.version,
            streaming,
            depth,
        ) == Ok::<(Seq<u8>, SignatureView), ParseError>((rest, s)),
{
    let mpis = spec_mpis_octets(s.signature);
    let head = seq![s.typ.spec_to_u8(), s.pub_alg.spec_to_u8(), s.hash_alg.spec_to_u8()];
    let hashed_len = spec_u16_octets(hashed.len() as int);
    let unhashed_len = spec_u16_octets(unhashed.len() as int);
    let body = head + hashed_len + hashed + unhashed_len + unhashed + s.signed_hash_value + mpis
        + rest;
    let h = 5 + hashed.len() as int;
    let u = h + 2 + unhashed.len() as int;
    lemma_u16_round_trip(hashed.len() as int, Seq::empty());
    lemma_u16_round_trip(unhashed.len() as int, Seq::empty());
    lemma_modern_layout(
        head,
        hashed_len,
        hashed,
        unhashed_len,
        unhashed,
        s.signed_hash_value,
        mpis,
        rest,
    );
    assert(spec_modern_codes(body, streaming) == Ok::<ModernCodes, ParseError>(
        ModernCodes { typ: s.typ, pub_alg: s.pub_alg, hash_alg: s.hash_alg },
    )) by {
        s.typ.lemma_decoded_of_code();
        s.pub_alg.lemma_decoded_of_code();
        s.hash_alg.lemma_decoded_of_code();
    }
    lemma_area_at_round_trip(
        body,
        3,
        hashed,
        hashed + unhashed_len + unhashed + s.signed_hash_value + mpis + rest,
        s.hashed_subpackets,
        streaming,
        Field::HashedArea,
        depth,
    );
    lemma_area_at_round_trip(
        body,
        h,
        unhashed,
        unhashed + s.signed_hash_value + mpis + rest,
        s.unhashed_subpackets,
        streaming,
        Field::UnhashedArea,
        depth,
    );
    lemma_mpis_round_trip(s.signature, rest, streaming);
    lemma_modern_assembly(body, s, h, u, rest, streaming, depth);
}

/// What follows the first octet of a sequence, and that octet.
proof fn lemma_after_first(first: u8, fields: Seq<u8>, rest: Seq<u8>)
    ensures
        (seq![first] + fields + rest).len() >= 1,
        (seq![first] + fields + rest)[0] == first,
        (seq![first] + fields + rest).skip(1) == fields + rest,
{
    assert((seq![first] + fields + rest).skip(1) =~= fields + rest);
}

/// A signature reads back from its encoding, whatever follows it, on a
/// stream and in a slice: parsing recovers exactly the fields encoded and
/// stops where the encoding ends.
pub proof fn lemma_signature_round_trip(s: SignatureView, rest: Seq<u8>, streaming: bool, depth: nat)
    requires
        spec_signature_encodable(s, depth),
    ensures
        spec_parse(spec_signature_octets(s) + rest, s.packet_version, streaming, depth) == Ok::<
            (Seq<u8>, SignatureView),
            ParseError,
        >((rest, s)),
    decreases s, 0nat,
{
    let fields = spec_signature_fields(s);
    s.version.lemma_decoded_of_code();
    lemma_after_first(s.version.spec_to_u8(), fields, rest);
    if s.version.is_legacy() {
        lemma_legacy_round_trip(s, rest, streaming, depth);
    } else {
        lemma_area_round_trip(s.hashed_subpackets, depth);
        lemma_area_round_trip(s.unhashed_subpackets, depth);
        lemma_modern_fields(
            s,
            spec_area_octets(s.hashed_subpackets),
            spec_area_octets(s.unhashed_subpackets),
            rest,
            streaming,
            depth,
        );
        assert(spec_v4(fields + rest, s.packet_version, s.version, streaming, depth) == Ok::<
            (Seq<u8>, SignatureView),
            ParseError,
        >((rest, s)));
    }
}

/// Encoding what a body reads back as gives the body again: for the body
/// of an encodable subpacket, parsing and encoding are inverse to each other.
pub proof fn lemma_body_encodes_back(v: SubpacketView, depth: nat)
    requires
        spec_encodable(v, depth),
    ensures
        spec_subpacket(spec_kind(v), spec_body(v), depth) matches Ok((_, read)) && spec_body(read)
            == spec_body(v),
{
    lemma_body_round_trip(v, depth);
}

/// Encoding what a signature's octets read back as gives the octets
/// again: for the encoding of an encodable signature, parsing and encoding
/// are inverse to each other.
pub proof fn lemma_signature_encodes_back(s: SignatureView, streaming: bool, depth: nat)
    requires
        spec_signature_encodable(s, depth),
    ensures
        spec_parse(spec_signature_octets(s), s.packet_version, streaming, depth) matches Ok(
            (rest, read),
        ) && rest.len() == 0 && spec_signature_octets(read) == spec_signature_octets(s),
{
    lemma_signature_round_trip(s, Seq::empty(), streaming, depth);
    assert(spec_signature_octets(s) + Seq::<u8>::empty() =~= spec_signature_octets(s));
}

} // verus!
