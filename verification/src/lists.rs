use vstd::prelude::*;
use crate::algorithms::{AeadAlgorithm, CompressionAlgorithm, HashAlgorithm, SymmetricKeyAlgorithm};
use crate::small::SmallBytes;

verus! {

/// A list of symmetric-key algorithms, most preferred first.
///
/// The codes are kept as they stood on the wire, in a [`SmallBytes`]; each
/// is a known symmetric-key algorithm.
#[derive(Debug, PartialEq, Eq)]
pub struct SymmetricAlgorithms {
    codes: SmallBytes,
}

impl View for SymmetricAlgorithms {
    type V = Seq<SymmetricKeyAlgorithm>;

    closed spec fn view(&self) -> Seq<SymmetricKeyAlgorithm> {
        Seq::new(self.codes@.len(), |i: int| SymmetricKeyAlgorithm::spec_from_u8(self.codes@[i])->Some_0)
    }
}

impl Clone for SymmetricAlgorithms {
    fn clone(&self) -> (list: SymmetricAlgorithms)
        ensures
            list@ == self@,
    {
        proof {
            use_type_invariant(self);
        }
        let list = SymmetricAlgorithms { codes: self.codes.clone() };
        assert(list@ =~= self@);
        list
    }
}

impl SymmetricAlgorithms {
    #[verifier::type_invariant]
    spec fn all_known(self) -> bool {
        forall|i: int|
            0 <= i < self.codes@.len() ==> SymmetricKeyAlgorithm::spec_from_u8(#[trigger] self.codes@[i]) is Some
    }

    /// What a run of code octets decodes to: the algorithm of each octet in
    /// turn, or nothing where some octet is no known code.
    pub open spec fn spec_from_codes(codes: Seq<u8>) -> Option<Seq<SymmetricKeyAlgorithm>> {
        if forall|i: int| 0 <= i < codes.len() ==> SymmetricKeyAlgorithm::spec_from_u8(#[trigger] codes[i]) is Some {
            Some(Seq::new(codes.len(), |i: int| SymmetricKeyAlgorithm::spec_from_u8(codes[i])->Some_0))
        } else {
            None
        }
    }

    /// The octets that encode a list: the code of each algorithm in turn.
    pub open spec fn spec_to_codes(list: Seq<SymmetricKeyAlgorithm>) -> Seq<u8> {
        Seq::new(list.len(), |i: int| list[i].spec_to_u8())
    }

    /// The octets that encode a list decode to that list.
    pub proof fn lemma_codes_round_trip(list: Seq<SymmetricKeyAlgorithm>)
        ensures
            Self::spec_from_codes(Self::spec_to_codes(list)) == Some(list),
    {
        let codes = Self::spec_to_codes(list);
        assert forall|i: int| 0 <= i < codes.len() implies SymmetricKeyAlgorithm::spec_from_u8(
            #[trigger] codes[i],
        ) == Some(list[i]) by {
            list[i].lemma_decoded_of_code();
        }
        assert(Self::spec_from_codes(codes)->Some_0 =~= list);
    }

    /// Decodes a run of code octets, or returns `None` where one of them is
    /// no known code.
    pub fn from_codes(codes: &[u8]) -> (r: Option<SymmetricAlgorithms>)
        ensures
            r is Some <==> Self::spec_from_codes(codes@) is Some,
            r is Some ==> r->Some_0@ == Self::spec_from_codes(codes@)->Some_0,
    {
        let mut i: usize = 0;
        while i < codes.len()
            invariant
                i <= codes@.len(),
                forall|j: int| 0 <= j < i ==> SymmetricKeyAlgorithm::spec_from_u8(#[trigger] codes@[j]) is Some,
            decreases codes@.len() - i,
        {
            if SymmetricKeyAlgorithm::from_u8(codes[i]).is_none() {
                return None;
            }
            i += 1;
        }
        let held = SmallBytes::from_slice(codes);
        let list = SymmetricAlgorithms { codes: held };
        assert(list@ =~= Self::spec_from_codes(codes@)->Some_0);
        Some(list)
    }

    /// The list of the given algorithms, in their order.
    pub fn from_algorithms(algorithms: &[SymmetricKeyAlgorithm]) -> (list: SymmetricAlgorithms)
        ensures
            list@ == algorithms@,
    {
        let mut codes: Vec<u8> = Vec::new();
        let mut i: usize = 0;
        while i < algorithms.len()
            invariant
                i <= algorithms@.len(),
                codes@.len() == i,
                forall|j: int| 0 <= j < i ==> SymmetricKeyAlgorithm::spec_from_u8(#[trigger] codes@[j]) == Some(algorithms@[j]),
            decreases algorithms@.len() - i,
        {
            codes.push(algorithms[i].to_u8());
            i += 1;
        }
        let held = SmallBytes::from_slice(codes.as_slice());
        let list = SymmetricAlgorithms { codes: held };
        assert(list@ =~= algorithms@);
        list
    }

    pub fn len(&self) -> (n: usize)
        ensures
            n == self@.len(),
    {
        self.codes.len()
    }

    /// The algorithm at position `i`, or `None` past the end.
    pub fn get(&self, i: usize) -> (r: Option<SymmetricKeyAlgorithm>)
        ensures
            r == (if i < self@.len() { Some(self@[i as int]) } else { None }),
    {
        proof {
            use_type_invariant(self);
        }
        let codes = self.codes.as_slice();
        if i < codes.len() {
            SymmetricKeyAlgorithm::from_u8(codes[i])
        } else {
            None
        }
    }

    /// The code octets of the list, as they stand on the wire.
    pub fn codes(&self) -> (codes: &[u8])
        ensures
            codes@ == Self::spec_to_codes(self@),
    {
        proof {
            use_type_invariant(self);
        }
        let codes = self.codes.as_slice();
        proof {
            assert forall|i: int| 0 <= i < codes@.len() implies codes@[i] == self@[i].spec_to_u8() by {
                SymmetricKeyAlgorithm::lemma_code_of_decoded(codes@[i]);
            }
            assert(codes@ =~= Self::spec_to_codes(self@));
        }
        codes
    }
}

/// A list of hash algorithms, most preferred first.
///
/// The codes are kept as they stood on the wire, in a [`SmallBytes`]; each
/// is a known hash algorithm.
#[derive(Debug, PartialEq, Eq)]
pub struct HashAlgorithms {
    codes: SmallBytes,
}

impl View for HashAlgorithms {
    type V = Seq<HashAlgorithm>;

    closed spec fn view(&self) -> Seq<HashAlgorithm> {
        Seq::new(self.codes@.len(), |i: int| HashAlgorithm::spec_from_u8(self.codes@[i])->Some_0)
    }
}

impl Clone for HashAlgorithms {
    fn clone(&self) -> (list: HashAlgorithms)
        ensures
            list@ == self@,
    {
        proof {
            use_type_invariant(self);
        }
        let list = HashAlgorithms { codes: self.codes.clone() };
        assert(list@ =~= self@);
        list
    }
}

impl HashAlgorithms {
    #[verifier::type_invariant]
    spec fn all_known(self) -> bool {
        forall|i: int|
            0 <= i < self.codes@.len() ==> HashAlgorithm::spec_from_u8(#[trigger] self.codes@[i]) is Some
    }

    /// What a run of code octets decodes to: the algorithm of each octet in
    /// turn, or nothing where some octet is no known code.
    pub open spec fn spec_from_codes(codes: Seq<u8>) -> Option<Seq<HashAlgorithm>> {
        if forall|i: int| 0 <= i < codes.len() ==> HashAlgorithm::spec_from_u8(#[trigger] codes[i]) is Some {
            Some(Seq::new(codes.len(), |i: int| HashAlgorithm::spec_from_u8(codes[i])->Some_0))
        } else {
            None
        }
    }

    /// The octets that encode a list: the code of each algorithm in turn.
    pub open spec fn spec_to_codes(list: Seq<HashAlgorithm>) -> Seq<u8> {
        Seq::new(list.len(), |i: int| list[i].spec_to_u8())
    }

    /// The octets that encode a list decode to that list.
    pub proof fn lemma_codes_round_trip(list: Seq<HashAlgorithm>)
        ensures
            Self::spec_from_codes(Self::spec_to_codes(list)) == Some(list),
    {
        let codes = Self::spec_to_codes(list);
        assert forall|i: int| 0 <= i < codes.len() implies HashAlgorithm::spec_from_u8(
            #[trigger] codes[i],
        ) == Some(list[i]) by {
            list[i].lemma_decoded_of_code();
        }
        assert(Self::spec_from_codes(codes)->Some_0 =~= list);
    }

    /// Decodes a run of code octets, or returns `None` where one of them is
    /// no known code.
    pub fn from_codes(codes: &[u8]) -> (r: Option<HashAlgorithms>)
        ensures
            r is Some <==> Self::spec_from_codes(codes@) is Some,
            r is Some ==> r->Some_0@ == Self::spec_from_codes(codes@)->Some_0,
    {
        let mut i: usize = 0;
        while i < codes.len()
            invariant
                i <= codes@.len(),
                forall|j: int| 0 <= j < i ==> HashAlgorithm::spec_from_u8(#[trigger] codes@[j]) is Some,
            decreases codes@.len() - i,
        {
            if HashAlgorithm::from_u8(codes[i]).is_none() {
                return None;
            }
            i += 1;
        }
        let held = SmallBytes::from_slice(codes);
        let list = HashAlgorithms { codes: held };
        assert(list@ =~= Self::spec_from_codes(codes@)->Some_0);
        Some(list)
    }

    /// The list of the given algorithms, in their order.
    pub fn from_algorithms(algorithms: &[HashAlgorithm]) -> (list: HashAlgorithms)
        ensures
            list@ == algorithms@,
    {
        let mut codes: Vec<u8> = Vec::new();
        let mut i: usize = 0;
        while i < algorithms.len()
            invariant
                i <= algorithms@.len(),
                codes@.len() == i,
                forall|j: int| 0 <= j < i ==> HashAlgorithm::spec_from_u8(#[trigger] codes@[j]) == Some(algorithms@[j]),
            decreases algorithms@.len() - i,
        {
            codes.push(algorithms[i].to_u8());
            i += 1;
        }
        let held = SmallBytes::from_slice(codes.as_slice());
        let list = HashAlgorithms { codes: held };
        assert(list@ =~= algorithms@);
        list
    }

    pub fn len(&self) -> (n: usize)
        ensures
            n == self@.len(),
    {
        self.codes.len()
    }

    /// The algorithm at position `i`, or `None` past the end.
    pub fn get(&self, i: usize) -> (r: Option<HashAlgorithm>)
        ensures
            r == (if i < self@.len() { Some(self@[i as int]) } else { None }),
    {
        proof {
            use_type_invariant(self);
        }
        let codes = self.codes.as_slice();
        if i < codes.len() {
            HashAlgorithm::from_u8(codes[i])
        } else {
            None
        }
    }

    /// The code octets of the list, as they stand on the wire.
    pub fn codes(&self) -> (codes: &[u8])
        ensures
            codes@ == Self::spec_to_codes(self@),
    {
        proof {
            use_type_invariant(self);
        }
        let codes = self.codes.as_slice();
        proof {
            assert forall|i: int| 0 <= i < codes@.len() implies codes@[i] == self@[i].spec_to_u8() by {
                HashAlgorithm::lemma_code_of_decoded(codes@[i]);
            }
            assert(codes@ =~= Self::spec_to_codes(self@));
        }
        codes
    }
}

/// A list of compression algorithms, most preferred first.
///
/// The codes are kept as they stood on the wire, in a [`SmallBytes`]; each
/// is a known compression algorithm.
#[derive(Debug, PartialEq, Eq)]
pub struct CompressionAlgorithms {
    codes: SmallBytes,
}

impl View for CompressionAlgorithms {
    type V = Seq<CompressionAlgorithm>;

    closed spec fn view(&self) -> Seq<CompressionAlgorithm> {
        Seq::new(self.codes@.len(), |i: int| CompressionAlgorithm::spec_from_u8(self.codes@[i])->Some_0)
    }
}

impl Clone for CompressionAlgorithms {
    fn clone(&self) -> (list: CompressionAlgorithms)
        ensures
            list@ == self@,
    {
        proof {
            use_type_invariant(self);
        }
        let list = CompressionAlgorithms { codes: self.codes.clone() };
        assert(list@ =~= self@);
        list
    }
}

impl CompressionAlgorithms {
    #[verifier::type_invariant]
    spec fn all_known(self) -> bool {
        forall|i: int|
            0 <= i < self.codes@.len() ==> CompressionAlgorithm::spec_from_u8(#[trigger] self.codes@[i]) is Some
    }

    /// What a run of code octets decodes to: the algorithm of each octet in
    /// turn, or nothing where some octet is no known code.
    pub open spec fn spec_from_codes(codes: Seq<u8>) -> Option<Seq<CompressionAlgorithm>> {
        if forall|i: int| 0 <= i < codes.len() ==> CompressionAlgorithm::spec_from_u8(#[trigger] codes[i]) is Some {
            Some(Seq::new(codes.len(), |i: int| CompressionAlgorithm::spec_from_u8(codes[i])->Some_0))
        } else {
            None
        }
    }

    /// The octets that encode a list: the code of each algorithm in turn.
    pub open spec fn spec_to_codes(list: Seq<CompressionAlgorithm>) -> Seq<u8> {
        Seq::new(list.len(), |i: int| list[i].spec_to_u8())
    }

    /// The octets that encode a list decode to that list.
    pub proof fn lemma_codes_round_trip(list: Seq<CompressionAlgorithm>)
        ensures
            Self::spec_from_codes(Self::spec_to_codes(list)) == Some(list),
    {
        let codes = Self::spec_to_codes(list);
        assert forall|i: int| 0 <= i < codes.len() implies CompressionAlgorithm::spec_from_u8(
            #[trigger] codes[i],
        ) == Some(list[i]) by {
            list[i].lemma_decoded_of_code();
        }
        assert(Self::spec_from_codes(codes)->Some_0 =~= list);
    }

    /// Decodes a run of code octets, or returns `None` where one of them is
    /// no known code.
    pub fn from_codes(codes: &[u8]) -> (r: Option<CompressionAlgorithms>)
        ensures
            r is Some <==> Self::spec_from_codes(codes@) is Some,
            r is Some ==> r->Some_0@ == Self::spec_from_codes(codes@)->Some_0,
    {
        let mut i: usize = 0;
        while i < codes.len()
            invariant
                i <= codes@.len(),
                forall|j: int| 0 <= j < i ==> CompressionAlgorithm::spec_from_u8(#[trigger] codes@[j]) is Some,
            decreases codes@.len() - i,
        {
            if CompressionAlgorithm::from_u8(codes[i]).is_none() {
                return None;
            }
            i += 1;
        }
        let held = SmallBytes::from_slice(codes);
        let list = CompressionAlgorithms { codes: held };
        assert(list@ =~= Self::spec_from_codes(codes@)->Some_0);
        Some(list)
    }

    /// The list of the given algorithms, in their order.
    pub fn from_algorithms(algorithms: &[CompressionAlgorithm]) -> (list: CompressionAlgorithms)
        ensures
            list@ == algorithms@,
    {
        let mut codes: Vec<u8> = Vec::new();
        let mut i: usize = 0;
        while i < algorithms.len()
            invariant
                i <= algorithms@.len(),
                codes@.len() == i,
                forall|j: int| 0 <= j < i ==> CompressionAlgorithm::spec_from_u8(#[trigger] codes@[j]) == Some(algorithms@[j]),
            decreases algorithms@.len() - i,
        {
            codes.push(algorithms[i].to_u8());
            i += 1;
        }
        let held = SmallBytes::from_slice(codes.as_slice());
        let list = CompressionAlgorithms { codes: held };
        assert(list@ =~= algorithms@);
        list
    }

    pub fn len(&self) -> (n: usize)
        ensures
            n == self@.len(),
    {
        self.codes.len()
    }

    /// The algorithm at position `i`, or `None` past the end.
    pub fn get(&self, i: usize) -> (r: Option<CompressionAlgorithm>)
        ensures
            r == (if i < self@.len() { Some(self@[i as int]) } else { None }),
    {
        proof {
            use_type_invariant(self);
        }
        let codes = self.codes.as_slice();
        if i < codes.len() {
            CompressionAlgorithm::from_u8(codes[i])
        } else {
            None
        }
    }

    /// The code octets of the list, as they stand on the wire.
    pub fn codes(&self) -> (codes: &[u8])
        ensures
            codes@ == Self::spec_to_codes(self@),
    {
        proof {
            use_type_invariant(self);
        }
        let codes = self.codes.as_slice();
        proof {
            assert forall|i: int| 0 <= i < codes@.len() implies codes@[i] == self@[i].spec_to_u8() by {
                CompressionAlgorithm::lemma_code_of_decoded(codes@[i]);
            }
            assert(codes@ =~= Self::spec_to_codes(self@));
        }
        codes
    }
}

/// A list of AEAD algorithms, most preferred first.
///
/// The codes are kept as they stood on the wire, in a [`SmallBytes`]; each
/// is a known AEAD algorithm.
#[derive(Debug, PartialEq, Eq)]
pub struct AeadAlgorithms {
    codes: SmallBytes,
}

impl View for AeadAlgorithms {
    type V = Seq<AeadAlgorithm>;

    closed spec fn view(&self) -> Seq<AeadAlgorithm> {
        Seq::new(self.codes@.len(), |i: int| AeadAlgorithm::spec_from_u8(self.codes@[i])->Some_0)
    }
}

impl Clone for AeadAlgorithms {
    fn clone(&self) -> (list: AeadAlgorithms)
        ensures
            list@ == self@,
    {
        proof {
            use_type_invariant(self);
        }
        let list = AeadAlgorithms { codes: self.codes.clone() };
        assert(list@ =~= self@);
        list
    }
}

impl AeadAlgorithms {
    #[verifier::type_invariant]
    spec fn all_known(self) -> bool {
        forall|i: int|
            0 <= i < self.codes@.len() ==> AeadAlgorithm::spec_from_u8(#[trigger] self.codes@[i]) is Some
    }

    /// What a run of code octets decodes to: the algorithm of each octet in
    /// turn, or nothing where some octet is no known code.
    pub open spec fn spec_from_codes(codes: Seq<u8>) -> Option<Seq<AeadAlgorithm>> {
        if forall|i: int| 0 <= i < codes.len() ==> AeadAlgorithm::spec_from_u8(#[trigger] codes[i]) is Some {
            Some(Seq::new(codes.len(), |i: int| AeadAlgorithm::spec_from_u8(codes[i])->Some_0))
        } else {
            None
        }
    }

    /// The octets that encode a list: the code of each algorithm in turn.
    pub open spec fn spec_to_codes(list: Seq<AeadAlgorithm>) -> Seq<u8> {
        Seq::new(list.len(), |i: int| list[i].spec_to_u8())
    }

    /// The octets that encode a list decode to that list.
    pub proof fn lemma_codes_round_trip(list: Seq<AeadAlgorithm>)
        ensures
            Self::spec_from_codes(Self::spec_to_codes(list)) == Some(list),
    {
        let codes = Self::spec_to_codes(list);
        assert forall|i: int| 0 <= i < codes.len() implies AeadAlgorithm::spec_from_u8(
            #[trigger] codes[i],
        ) == Some(list[i]) by {
            list[i].lemma_decoded_of_code();
        }
        assert(Self::spec_from_codes(codes)->Some_0 =~= list);
    }

    /// Decodes a run of code octets, or returns `None` where one of them is
    /// no known code.
    pub fn from_codes(codes: &[u8]) -> (r: Option<AeadAlgorithms>)
        ensures
            r is Some <==> Self::spec_from_codes(codes@) is Some,
            r is Some ==> r->Some_0@ == Self::spec_from_codes(codes@)->Some_0,
    {
        let mut i: usize = 0;
        while i < codes.len()
            invariant
                i <= codes@.len(),
                forall|j: int| 0 <= j < i ==> AeadAlgorithm::spec_from_u8(#[trigger] codes@[j]) is Some,
            decreases codes@.len() - i,
        {
            if AeadAlgorithm::from_u8(codes[i]).is_none() {
                return None;
            }
            i += 1;
        }
        let held = SmallBytes::from_slice(codes);
        let list = AeadAlgorithms { codes: held };
        assert(list@ =~= Self::spec_from_codes(codes@)->Some_0);
        Some(list)
    }

    /// The list of the given algorithms, in their order.
    pub fn from_algorithms(algorithms: &[AeadAlgorithm]) -> (list: AeadAlgorithms)
        ensures
            list@ == algorithms@,
    {
        let mut codes: Vec<u8> = Vec::new();
        let mut i: usize = 0;
        while i < algorithms.len()
            invariant
                i <= algorithms@.len(),
                codes@.len() == i,
                forall|j: int| 0 <= j < i ==> AeadAlgorithm::spec_from_u8(#[trigger] codes@[j]) == Some(algorithms@[j]),
            decreases algorithms@.len() - i,
        {
            codes.push(algorithms[i].to_u8());
            i += 1;
        }
        let held = SmallBytes::from_slice(codes.as_slice());
        let list = AeadAlgorithms { codes: held };
        assert(list@ =~= algorithms@);
        list
    }

    pub fn len(&self) -> (n: usize)
        ensures
            n == self@.len(),
    {
        self.codes.len()
    }

    /// The algorithm at position `i`, or `None` past the end.
    pub fn get(&self, i: usize) -> (r: Option<AeadAlgorithm>)
        ensures
            r == (if i < self@.len() { Some(self@[i as int]) } else { None }),
    {
        proof {
            use_type_invariant(self);
        }
        let codes = self.codes.as_slice();
        if i < codes.len() {
            AeadAlgorithm::from_u8(codes[i])
        } else {
            None
        }
    }

    /// The code octets of the list, as they stand on the wire.
    pub fn codes(&self) -> (codes: &[u8])
        ensures
            codes@ == Self::spec_to_codes(self@),
    {
        proof {
            use_type_invariant(self);
        }
        let codes = self.codes.as_slice();
        proof {
            assert forall|i: int| 0 <= i < codes@.len() implies codes@[i] == self@[i].spec_to_u8() by {
                AeadAlgorithm::lemma_code_of_decoded(codes@[i]);
            }
            assert(codes@ =~= Self::spec_to_codes(self@));
        }
        codes
    }
}

} // verus!
