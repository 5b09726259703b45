//! The parser of signature packets.

use vstd::prelude::*;
use vstd::slice::{slice_subrange, slice_to_vec};
use crate::algorithms::{HashAlgorithm, PublicKeyAlgorithm};
use crate::codes::{SignatureType, SignatureVersion, SubpacketType, Version};
use crate::errors::{ErrorKind, Field, ParseError};
use crate::grammar::{
    Frame, LegacyHeader, MAX_EMBEDDED_DEPTH, ModernCodes, spec_actual_signature, spec_area_at,
    spec_frame, spec_legacy_header, spec_modern_codes, spec_mpis, spec_next_subpacket,
    spec_parse, spec_signature_integers, spec_subpacket, spec_subpackets, spec_v3, spec_v4,
};
use crate::kinds::{
    catch_all, exportable_certification, features, issuer, issuer_fingerprint, key_expiration,
    key_flags, key_server_prefs, notation_data, policy_uri, pref_aead_alg, pref_com_alg,
    pref_hash_alg, pref_sym_alg, preferred_key_server, primary_userid, regular_expression,
    rev_reason, revocable, revocation_key, sig_target, signature_creation_time,
    signature_expiration_time, signers_userid, subpacket_outcome, trust_signature,
};
use crate::laws::{
    lemma_area_never_incomplete, lemma_parsed_signature_value_count, lemma_slice_never_incomplete,
};
use crate::signature::{
    Signature, SignatureConfig, SignatureView, Subpacket, SubpacketView, subpackets_view,
};
use crate::time::{UtcTime, dt_from_timestamp};
use crate::types::{KeyId, Mpi, mpis_view};
use crate::wire::{be_u8, mpi, packet_length, spec_be_u32, spec_packet_length, take};

verus! {

/// What the outcome of a signature parser stands for.
pub open spec fn signature_outcome(r: Result<(&[u8], Signature), ParseError>) -> Result<
    (Seq<u8>, SignatureView),
    ParseError,
> {
    match r {
        Ok((rest, sig)) => Ok((rest@, sig@)),
        Err(e) => Err(e),
    }
}

/// What the outcome of the parser of a signature's integers stands for.
pub open spec fn mpis_outcome(r: Result<(&[u8], Vec<Mpi>), ParseError>) -> Result<
    (Seq<u8>, Seq<Seq<u8>>),
    ParseError,
> {
    match r {
        Ok((rest, values)) => Ok((rest@, mpis_view(values@))),
        Err(e) => Err(e),
    }
}

/// What the outcome of the parser of a subpacket area stands for.
pub open spec fn area_outcome(r: Result<Vec<Subpacket>, ParseError>) -> Result<
    Seq<SubpacketView>,
    ParseError,
> {
    match r {
        Ok(found) => Ok(subpackets_view(found@)),
        Err(e) => Err(e),
    }
}

/// What the outcome of cutting a subpacket out of its area stands for.
pub open spec fn frame_outcome(r: Result<(SubpacketType, &[u8], &[u8]), ParseError>) -> Result<
    Frame,
    ParseError,
> {
    match r {
        Ok((typ, body, rest)) => Ok(Frame { typ, body: body@, rest: rest@ }),
        Err(e) => Err(e),
    }
}

/// Cuts the subpacket at the front of `input` out of it: its kind, its
/// body, and what follows it.
///
/// Where `input` ends before the declared length is met, the failure is
/// `Incomplete` if `streaming` and `Malformed` if not.
pub fn frame(input: &[u8], streaming: bool) -> (r: Result<
    (SubpacketType, &[u8], &[u8]),
    ParseError,
>)
    ensures
        frame_outcome(r) == spec_frame(input@, streaming),
{
    let (after_len, length) = match packet_length(input) {
        None => { return Err(ParseError::short(streaming, Field::SubpacketLength)); },
        Some(read) => read,
    };
    if length == 0 {
        return Err(ParseError::malformed(Field::SubpacketLength));
    }
    let (after_tag, tag) = match be_u8(after_len) {
        None => { return Err(ParseError::short(streaming, Field::SubpacketTag)); },
        Some(read) => read,
    };
    let typ = SubpacketType::from_u8(tag);
    match take(after_tag, length - 1) {
        None => Err(ParseError::short(streaming, Field::Subpacket(typ))),
        Some((rest, body)) => {
            proof {
                let p = spec_packet_length(input@)->Some_0;
                assert(body@ =~= input@.subrange(p.octets + 1, p.octets + p.length));
                assert(rest@ =~= input@.skip(p.octets + p.length));
            }
            Ok((typ, body, rest))
        },
    }
}

/// Reads the integers of the signature itself: two for DSA, ECDSA and
/// EdDSA, one for every other algorithm.
pub fn actual_signature<'a>(input: &'a [u8], typ: &PublicKeyAlgorithm, streaming: bool) -> (r:
    Result<(&'a [u8], Vec<Mpi>), ParseError>)
    ensures
        mpis_outcome(r) == spec_actual_signature(input@, *typ, streaming),
        r matches Ok((_, values)) ==> values@.len() == spec_signature_integers(*typ),
{
    proof {
        reveal_with_fuel(spec_mpis, 3);
    }
    let short = ParseError::short(streaming, Field::SignatureValue);
    let (rest, first) = match mpi(input) {
        None => { return Err(short); },
        Some(read) => read,
    };
    let mut values: Vec<Mpi> = Vec::new();
    values.push(Mpi::from_raw(slice_to_vec(first)));
    match typ {
        PublicKeyAlgorithm::DSA | PublicKeyAlgorithm::ECDSA | PublicKeyAlgorithm::EdDSA => {
            let (rest, second) = match mpi(rest) {
                None => { return Err(short); },
                Some(read) => read,
            };
            values.push(Mpi::from_raw(slice_to_vec(second)));
            assert(mpis_view(values@) =~= seq![first@] + (seq![second@] + Seq::empty()));
            Ok((rest, values))
        },
        _ => {
            assert(mpis_view(values@) =~= seq![first@] + Seq::empty());
            Ok((rest, values))
        },
    }
}

impl Signature {
    /// A signature with the given fields, and with neither a creation time
    /// nor an issuer of its own.
    pub fn new(
        packet_version: Version,
        version: SignatureVersion,
        typ: SignatureType,
        pub_alg: PublicKeyAlgorithm,
        hash_alg: HashAlgorithm,
        signed_hash_value: [u8; 2],
        signature: Vec<Mpi>,
        hashed_subpackets: Vec<Subpacket>,
        unhashed_subpackets: Vec<Subpacket>,
    ) -> (s: Signature)
        ensures
            s@ == (SignatureView {
                packet_version,
                version,
                typ,
                pub_alg,
                hash_alg,
                signed_hash_value: signed_hash_value@,
                signature: mpis_view(signature@),
                hashed_subpackets: subpackets_view(hashed_subpackets@),
                unhashed_subpackets: subpackets_view(unhashed_subpackets@),
                created: None,
                issuer: None,
            }),
            s.config.created is None,
            s.config.issuer is None,
            s.config.hashed_subpackets == hashed_subpackets,
            s.config.unhashed_subpackets == unhashed_subpackets,
            s.packet_version == packet_version,
            s.config.version == version,
            s.config.typ == typ,
            s.config.pub_alg == pub_alg,
            s.config.hash_alg == hash_alg,
            s.signed_hash_value == signed_hash_value,
            s.signature == signature,
    {
        Signature {
            packet_version,
            config: SignatureConfig {
                version,
                typ,
                pub_alg,
                hash_alg,
                hashed_subpackets,
                unhashed_subpackets,
                created: None,
                issuer: None,
            },
            signed_hash_value,
            signature,
        }
    }
}

/// The fixed fields of a version 2 or 3 signature, as they are read.
pub struct LegacyFields {
    pub typ: SignatureType,
    pub created: UtcTime,
    pub issuer: KeyId,
    pub pub_alg: PublicKeyAlgorithm,
    pub hash_alg: HashAlgorithm,
    pub signed_hash_value: [u8; 2],
}

impl View for LegacyFields {
    type V = LegacyHeader;

    open spec fn view(&self) -> LegacyHeader {
        LegacyHeader {
            typ: self.typ,
            created: self.created@,
            issuer: self.issuer@,
            pub_alg: self.pub_alg,
            hash_alg: self.hash_alg,
            signed_hash_value: self.signed_hash_value@,
        }
    }
}

/// What the outcome of reading the fixed fields stands for.
pub open spec fn legacy_outcome(r: Result<LegacyFields, ParseError>) -> Result<
    LegacyHeader,
    ParseError,
> {
    match r {
        Ok(fields) => Ok(fields@),
        Err(e) => Err(e),
    }
}

/// Reads the eighteen octets of fixed fields at the front of a version 2
/// or 3 body.
pub fn legacy_header(input: &[u8], streaming: bool) -> (r: Result<LegacyFields, ParseError>)
    ensures
        legacy_outcome(r) == spec_legacy_header(input@, streaming),
{
    if input.len() < 1 {
        return Err(ParseError::short(streaming, Field::HashedLength));
    }
    if input[0] != 5 {
        return Err(ParseError::malformed(Field::HashedLength));
    }
    if input.len() < 2 {
        return Err(ParseError::short(streaming, Field::SignatureType));
    }
    let typ = match SignatureType::from_u8(input[1]) {
        None => { return Err(ParseError::unknown(Field::SignatureType)); },
        Some(typ) => typ,
    };
    if input.len() < 6 {
        return Err(ParseError::short(streaming, Field::Created));
    }
    if input.len() < 14 {
        return Err(ParseError::short(streaming, Field::Issuer));
    }
    if input.len() < 15 {
        return Err(ParseError::short(streaming, Field::PublicKeyAlgorithm));
    }
    let pub_alg = match PublicKeyAlgorithm::from_u8(input[14]) {
        None => { return Err(ParseError::unknown(Field::PublicKeyAlgorithm)); },
        Some(alg) => alg,
    };
    if input.len() < 16 {
        return Err(ParseError::short(streaming, Field::HashAlgorithm));
    }
    let hash_alg = match HashAlgorithm::from_u8(input[15]) {
        None => { return Err(ParseError::unknown(Field::HashAlgorithm)); },
        Some(alg) => alg,
    };
    if input.len() < 18 {
        return Err(ParseError::short(streaming, Field::SignedHashValue));
    }
    let created = fixed_time(slice_subrange(input, 2, 6));
    let issuer = fixed_key_id(slice_subrange(input, 6, 14));
    let signed_hash_value = fixed_hash_prefix(slice_subrange(input, 16, 18));
    Ok(LegacyFields { typ, created, issuer, pub_alg, hash_alg, signed_hash_value })
}

/// The point in time that four octets of seconds since the epoch give.
fn fixed_time(octets: &[u8]) -> (t: UtcTime)
    requires
        octets@.len() == 4,
    ensures
        t@ == spec_be_u32(octets@),
{
    let a: u32 = octets[0] as u32;
    let b: u32 = octets[1] as u32;
    let c: u32 = octets[2] as u32;
    let d: u32 = octets[3] as u32;
    dt_from_timestamp(a * 0x100_0000 + b * 0x1_0000 + c * 0x100 + d)
}

/// The two octets that hold the leading bits of the signed hash.
fn fixed_hash_prefix(octets: &[u8]) -> (prefix: [u8; 2])
    requires
        octets@.len() == 2,
    ensures
        prefix@ == octets@,
{
    let prefix: [u8; 2] = [octets[0], octets[1]];
    assert(prefix@ =~= octets@);
    prefix
}

/// The key identifier that eight octets give.
fn fixed_key_id(octets: &[u8]) -> (id: KeyId)
    requires
        octets@.len() == 8,
    ensures
        id@ == octets@,
{
    let id = KeyId {
        bytes: [
            octets[0],
            octets[1],
            octets[2],
            octets[3],
            octets[4],
            octets[5],
            octets[6],
            octets[7],
        ],
    };
    assert(id@ =~= octets@);
    id
}

/// Parses the body of a version 2 or 3 signature, after its version octet.
pub fn v3_parser(
    input: &[u8],
    packet_version: Version,
    version: SignatureVersion,
    streaming: bool,
) -> (r: Result<(&[u8], Signature), ParseError>)
    ensures
        signature_outcome(r) == spec_v3(input@, packet_version, version, streaming),
{
    let fields = match legacy_header(input, streaming) {
        Err(e) => { return Err(e); },
        Ok(fields) => fields,
    };
    let after = slice_subrange(input, 18, input.len());
    let (rest, sig) = match actual_signature(after, &fields.pub_alg, streaming) {
        Err(e) => { return Err(e); },
        Ok(read) => read,
    };
    let mut s = Signature::new(
        packet_version,
        version,
        fields.typ,
        fields.pub_alg,
        fields.hash_alg,
        fields.signed_hash_value,
        sig,
        Vec::new(),
        Vec::new(),
    );
    s.config.created = Some(fields.created);
    s.config.issuer = Some(fields.issuer);
    proof {
        assert(s@.hashed_subpackets =~= Seq::empty());
        assert(s@.unhashed_subpackets =~= Seq::empty());
    }
    Ok((rest, s))
}

/// Parses the body of one subpacket of kind `typ`, following embedded
/// signatures `depth` levels down.
///
/// Returns the part of the body that the kind's grammar leaves unread and
/// the typed subpacket. A kind outside the known set never fails.
pub fn subpacket(typ: SubpacketType, body: &[u8], depth: usize) -> (r: Result<
    (&[u8], Subpacket),
    ParseError,
>)
    ensures
        subpacket_outcome(r) == spec_subpacket(typ, body@, depth as nat),
    decreases depth, body@.len(), 1nat,
{
    match typ {
        SubpacketType::SignatureCreationTime => signature_creation_time(body),
        SubpacketType::SignatureExpirationTime => signature_expiration_time(body),
        SubpacketType::ExportableCertification => exportable_certification(body),
        SubpacketType::TrustSignature => trust_signature(body),
        SubpacketType::RegularExpression => regular_expression(body),
        SubpacketType::Revocable => revocable(body),
        SubpacketType::KeyExpirationTime => key_expiration(body),
        SubpacketType::PreferredSymmetricAlgorithms => pref_sym_alg(body),
        SubpacketType::RevocationKey => revocation_key(body),
        SubpacketType::Issuer => issuer(body),
        SubpacketType::Notation => notation_data(body),
        SubpacketType::PreferredHashAlgorithms => pref_hash_alg(body),
        SubpacketType::PreferredCompressionAlgorithms => pref_com_alg(body),
        SubpacketType::KeyServerPreferences => key_server_prefs(body),
        SubpacketType::PreferredKeyServer => preferred_key_server(body),
        SubpacketType::PrimaryUserId => primary_userid(body),
        SubpacketType::PolicyURI => policy_uri(body),
        SubpacketType::KeyFlags => key_flags(body),
        SubpacketType::SignersUserID => signers_userid(body),
        SubpacketType::RevocationReason => rev_reason(body),
        SubpacketType::Features => features(body),
        SubpacketType::SignatureTarget => sig_target(body),
        SubpacketType::EmbeddedSignature => embedded_sig(body, depth),
        SubpacketType::IssuerFingerprint => issuer_fingerprint(body),
        SubpacketType::PreferredAead => pref_aead_alg(body),
        SubpacketType::Experimental(_) => catch_all(typ, body),
        SubpacketType::Other(_) => catch_all(typ, body),
    }
}

/// Parses an embedded signature subpacket: its body is a whole signature
/// packet in the new packet format, read as a slice of fixed length.
///
/// With no depth left the subpacket is refused as `UnsupportedRecursion`.
pub fn embedded_sig(body: &[u8], depth: usize) -> (r: Result<(&[u8], Subpacket), ParseError>)
    ensures
        subpacket_outcome(r) == spec_subpacket(SubpacketType::EmbeddedSignature, body@, depth as nat),
    decreases depth, body@.len(), 0nat,
{
    if depth == 0 {
        Err(
            ParseError {
                kind: ErrorKind::UnsupportedRecursion,
                field: Field::Subpacket(SubpacketType::EmbeddedSignature),
            },
        )
    } else {
        match parse_bounded(body, Version::New, false, depth - 1) {
            Err(e) => Err(e),
            Ok((rest, sig)) => Ok((rest, Subpacket::EmbeddedSignature(Box::new(sig)))),
        }
    }
}

/// Reads the subpacket at the front of `input`: cuts it out, then parses
/// its body by its kind. Returns what follows the subpacket.
pub fn next_subpacket(input: &[u8], streaming: bool, depth: usize) -> (r: Result<
    (&[u8], Subpacket),
    ParseError,
>)
    ensures
        subpacket_outcome(r) == spec_next_subpacket(input@, streaming, depth as nat),
    decreases depth, input@.len(), 0nat,
{
    match frame(input, streaming) {
        Err(e) => Err(e),
        Ok((typ, body, rest)) => match subpacket(typ, body, depth) {
            Err(e) => Err(e),
            Ok((_, sp)) => Ok((rest, sp)),
        },
    }
}

/// `done` followed by what the rest of an area holds.
pub open spec fn area_after(done: Seq<SubpacketView>, rest: Result<Seq<SubpacketView>, ParseError>)
    -> Result<Seq<SubpacketView>, ParseError> {
    match rest {
        Ok(others) => Ok(done + others),
        Err(e) => Err(e),
    }
}

/// Parses a whole subpacket area: subpacket after subpacket until the area
/// is used up. The first subpacket that fails fails the area.
pub fn subpackets(input: &[u8], depth: usize) -> (r: Result<Vec<Subpacket>, ParseError>)
    ensures
        area_outcome(r) == spec_subpackets(input@, depth as nat),
        input@.len() == 0 ==> r is Ok && r->Ok_0@.len() == 0,
        r matches Err(e) ==> e.kind != ErrorKind::Incomplete,
    decreases depth, input@.len(), 2nat,
{
    proof {
        lemma_area_never_incomplete(input@, depth as nat);
    }
    let mut found: Vec<Subpacket> = Vec::new();
    let mut rest = input;
    assert(subpackets_view(found@) + spec_subpackets(input@, depth as nat)->Ok_0 =~= spec_subpackets(
        input@,
        depth as nat,
    )->Ok_0);
    while rest.len() > 0
        invariant
            rest@.len() <= input@.len(),
            spec_subpackets(input@, depth as nat) matches Err(e) ==> e.kind
                != ErrorKind::Incomplete,
            spec_subpackets(input@, depth as nat) == area_after(
                subpackets_view(found@),
                spec_subpackets(rest@, depth as nat),
            ),
        decreases rest@.len(),
    {
        let ghost before = found@;
        let (typ, body, after) = match frame(rest, false) {
            Err(e) => { return Err(e); },
            Ok(cut) => cut,
        };
        let sp = match subpacket(typ, body, depth) {
            Err(e) => { return Err(e); },
            Ok((_, sp)) => sp,
        };
        found.push(sp);
        rest = after;
        proof {
            assert(subpackets_view(found@) =~= subpackets_view(before).push(sp@));
            match spec_subpackets(rest@, depth as nat) {
                Ok(others) => {
                    assert(subpackets_view(found@) + others =~= subpackets_view(before) + (seq![
                        sp@,
                    ] + others));
                },
                Err(_) => {},
            }
        }
    }
    assert(subpackets_view(found@) + Seq::empty() =~= subpackets_view(found@));
    Ok(found)
}

/// What the outcome of reading the three leading codes stands for.
pub open spec fn codes_outcome(
    r: Result<(SignatureType, PublicKeyAlgorithm, HashAlgorithm), ParseError>,
) -> Result<ModernCodes, ParseError> {
    match r {
        Ok((typ, pub_alg, hash_alg)) => Ok(ModernCodes { typ, pub_alg, hash_alg }),
        Err(e) => Err(e),
    }
}

/// Reads the signature type, the public-key algorithm and the hash
/// algorithm at the front of a version 4 or 5 body.
pub fn modern_codes(input: &[u8], streaming: bool) -> (r: Result<
    (SignatureType, PublicKeyAlgorithm, HashAlgorithm),
    ParseError,
>)
    ensures
        codes_outcome(r) == spec_modern_codes(input@, streaming),
{
    if input.len() < 1 {
        return Err(ParseError::short(streaming, Field::SignatureType));
    }
    let typ = match SignatureType::from_u8(input[0]) {
        None => { return Err(ParseError::unknown(Field::SignatureType)); },
        Some(typ) => typ,
    };
    if input.len() < 2 {
        return Err(ParseError::short(streaming, Field::PublicKeyAlgorithm));
    }
    let pub_alg = match PublicKeyAlgorithm::from_u8(input[1]) {
        None => { return Err(ParseError::unknown(Field::PublicKeyAlgorithm)); },
        Some(alg) => alg,
    };
    if input.len() < 3 {
        return Err(ParseError::short(streaming, Field::HashAlgorithm));
    }
    let hash_alg = match HashAlgorithm::from_u8(input[2]) {
        None => { return Err(ParseError::unknown(Field::HashAlgorithm)); },
        Some(alg) => alg,
    };
    Ok((typ, pub_alg, hash_alg))
}

/// What the outcome of reading an area at an offset stands for.
pub open spec fn area_at_outcome(r: Result<(usize, Vec<Subpacket>), ParseError>) -> Result<
    (int, Seq<SubpacketView>),
    ParseError,
> {
    match r {
        Ok((end, found)) => Ok((end as int, subpackets_view(found@))),
        Err(e) => Err(e),
    }
}

/// Reads the subpacket area that starts at offset `at` of `input`: its
/// two-octet length, then its subpackets. Returns the offset at which the
/// area ends.
pub fn area_at(input: &[u8], at: usize, streaming: bool, field: Field, depth: usize) -> (r: Result<
    (usize, Vec<Subpacket>),
    ParseError,
>)
    ensures
        area_at_outcome(r) == spec_area_at(input@, at as int, streaming, field, depth as nat),
        r is Ok ==> r->Ok_0.0 <= input@.len(),
    decreases depth, input@.len(), 3nat,
{
    if input.len() < at || input.len() - at < 2 {
        return Err(ParseError::short(streaming, field));
    }
    let length: usize = input[at] as usize * 0x100 + input[at + 1] as usize;
    if input.len() - at - 2 < length {
        return Err(ParseError::short(streaming, field));
    }
    let end: usize = at + 2 + length;
    match subpackets(slice_subrange(input, at + 2, end), depth) {
        Err(e) => Err(e),
        Ok(found) => Ok((end, found)),
    }
}

/// Parses the body of a version 4 or 5 signature, after its version octet.
pub fn v4_parser(
    input: &[u8],
    packet_version: Version,
    version: SignatureVersion,
    streaming: bool,
    depth: usize,
) -> (r: Result<(&[u8], Signature), ParseError>)
    ensures
        signature_outcome(r) == spec_v4(input@, packet_version, version, streaming, depth as nat),
    decreases depth, input@.len(), 4nat,
{
    let (typ, pub_alg, hash_alg) = match modern_codes(input, streaming) {
        Err(e) => { return Err(e); },
        Ok(codes) => codes,
    };
    let (h, hsub) = match area_at(input, 3, streaming, Field::HashedArea, depth) {
        Err(e) => { return Err(e); },
        Ok(read) => read,
    };
    let (u, usub) = match area_at(input, h, streaming, Field::UnhashedArea, depth) {
        Err(e) => { return Err(e); },
        Ok(read) => read,
    };
    if input.len() - u < 2 {
        return Err(ParseError::short(streaming, Field::SignedHashValue));
    }
    let ls_hash = fixed_hash_prefix(slice_subrange(input, u, u + 2));
    let after = slice_subrange(input, u + 2, input.len());
    let (rest, sig) = match actual_signature(after, &pub_alg, streaming) {
        Err(e) => { return Err(e); },
        Ok(read) => read,
    };
    let s = Signature::new(
        packet_version,
        version,
        typ,
        pub_alg,
        hash_alg,
        ls_hash,
        sig,
        hsub,
        usub,
    );
    Ok((rest, s))
}

/// Parses a signature packet's body, reading `input` as a stream if
/// `streaming` and as a slice of fixed length if not, and following
/// embedded signatures `depth` levels down.
pub fn parse_bounded(input: &[u8], packet_version: Version, streaming: bool, depth: usize) -> (r:
    Result<(&[u8], Signature), ParseError>)
    ensures
        signature_outcome(r) == spec_parse(input@, packet_version, streaming, depth as nat),
        r matches Ok((_, sig)) ==> sig.signature@.len() == spec_signature_integers(
            sig.config.pub_alg,
        ),
        !streaming ==> (r matches Err(e) ==> e.kind != ErrorKind::Incomplete),
    decreases depth, input@.len() + 1, 5nat,
{
    proof {
        lemma_parsed_signature_value_count(input@, packet_version, streaming, depth as nat);
        lemma_slice_never_incomplete(input@, packet_version, depth as nat);
    }
    let (rest, version) = match be_u8(input) {
        None => { return Err(ParseError::short(streaming, Field::Version)); },
        Some(read) => read,
    };
    match SignatureVersion::from_u8(version) {
        None => Err(ParseError::malformed(Field::Version)),
        Some(version) => match version {
            SignatureVersion::V2 | SignatureVersion::V3 => v3_parser(
                rest,
                packet_version,
                version,
                streaming,
            ),
            SignatureVersion::V4 | SignatureVersion::V5 => v4_parser(
                rest,
                packet_version,
                version,
                streaming,
                depth,
            ),
        },
    }
}

/// Parses a signature packet from the body of the packet.
///
/// Returns the signature and the part of `i` after it. `i` is read as a
/// stream: where it ends too early the failure is `Incomplete`. Embedded
/// signatures are followed `MAX_EMBEDDED_DEPTH` levels down.
pub fn parse(i: &[u8], packet_version: Version) -> (r: Result<(&[u8], Signature), ParseError>)
    ensures
        signature_outcome(r) == spec_parse(i@, packet_version, true, MAX_EMBEDDED_DEPTH as nat),
        r matches Ok((_, sig)) ==> sig.signature@.len() == spec_signature_integers(
            sig.config.pub_alg,
        ),
{
    parse_bounded(i, packet_version, true, MAX_EMBEDDED_DEPTH)
}

impl Signature {
    /// Parses a signature packet from the given slice, and drops what
    /// follows the signature in it.
    pub fn from_slice(packet_version: Version, input: &[u8]) -> (r: Result<Signature, ParseError>)
        ensures
            match r {
                Ok(sig) => {
                    let parsed = spec_parse(input@, packet_version, true, MAX_EMBEDDED_DEPTH as nat);
                    parsed is Ok && parsed->Ok_0.1 == sig@
                },
                Err(e) => spec_parse(input@, packet_version, true, MAX_EMBEDDED_DEPTH as nat)
                    == Err::<(Seq<u8>, SignatureView), ParseError>(e),
            },
    {
        match parse(input, packet_version) {
            Ok((_, sig)) => Ok(sig),
            Err(e) => Err(e),
        }
    }
}

} // verus!
