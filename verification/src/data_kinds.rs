use vstd::prelude::*;

verus! {

/// One representation kind a datum can be produced in.
///
/// The three kinds form a closed set; a [`DataKinds`] value combines any
/// number of them into a set by giving each kind a bit of its own.
#[derive(Clone, Copy, PartialEq, Eq, Structural, Debug)]
pub enum DataKind {
    Bytes,
    Str,
    Parsed,
}

impl DataKind {
    /// The stable bit encoding of this kind at component boundaries.
    pub fn bit(self) -> (r: u8)
        ensures
            r == kind_bit(self),
    {
        match self {
            DataKind::Bytes => 0x1,
            DataKind::Str => 0x2,
            DataKind::Parsed => 0x4,
        }
    }
}

/// The bit that stands for one kind inside a [`DataKinds`] bitmask:
/// bit 0 for `Bytes`, bit 1 for `Str`, bit 2 for `Parsed`.
pub open spec fn kind_bit(k: DataKind) -> u8 {
    match k {
        DataKind::Bytes => 0x1,
        DataKind::Str => 0x2,
        DataKind::Parsed => 0x4,
    }
}

/// The set of representation kinds a source can produce for one data
/// channel, stored as a bitmask over the three kind bits.
///
/// Viewed as the `Set<DataKind>` whose members are the kinds whose bits
/// are set.
#[derive(Clone, Copy, PartialEq, Eq, Structural, Debug)]
pub struct DataKinds {
    bits: u8,
}

impl View for DataKinds {
    type V = Set<DataKind>;

    closed spec fn view(&self) -> Set<DataKind> {
        let bits = self.bits;
        Set::new(|k: DataKind| bits & kind_bit(k) != 0)
    }
}

impl DataKinds {
    /// Well-formedness: only the three kind bits may be set. Every value
    /// this library builds is well formed, which `use_type_invariant`
    /// makes available to callers.
    #[verifier::type_invariant]
    pub closed spec fn wf(self) -> bool {
        self.bits < 8
    }

    /// The stable bitmask encoding of this capability set at component
    /// boundaries: the union of the bits of its member kinds.
    pub fn bits(&self) -> (r: u8)
        ensures
            r < 8,
            forall|k: DataKind| self@.contains(k) == (r & kind_bit(k) != 0),
    {
        proof {
            use_type_invariant(*self);
        }
        self.bits
    }

    /// The empty capability set: no kind can be produced.
    pub fn empty() -> (r: Self)
        ensures
            r@ == Set::<DataKind>::empty(),
    {
        let r = DataKinds { bits: 0 };
        proof {
            assert forall|k: DataKind| !r@.contains(k) by {
                let m = kind_bit(k);
                assert(0u8 & m == 0) by (bit_vector);
            }
            assert(r@ =~= Set::<DataKind>::empty());
        }
        r
    }

    /// The capability set holding exactly `k`.
    pub fn from_kind(k: DataKind) -> (r: Self)
        ensures
            r@ == Set::<DataKind>::empty().insert(k),
    {
        let bits = k.bit();
        proof {
            assert(kind_bit(k) < 8);
        }
        let r = DataKinds { bits };
        proof {
            assert forall|j: DataKind| r@.contains(j) <==> j == k by {
                let mj = kind_bit(j);
                let mk = kind_bit(k);
                assert((mk & mj != 0) == (mj == mk)) by (bit_vector)
                    requires
                        mj == 1 || mj == 2 || mj == 4,
                        mk == 1 || mk == 2 || mk == 4,
                ;
            }
            assert(r@ =~= Set::<DataKind>::empty().insert(k));
        }
        r
    }

    /// Whether this capability set holds `k`.
    pub fn contains(&self, k: DataKind) -> (r: bool)
        ensures
            r == self@.contains(k),
    {
        self.bits & k.bit() != 0
    }

    /// The union of two capability sets.
    pub fn union(self, other: Self) -> (r: Self)
        ensures
            r@ == self@.union(other@),
    {
        proof {
            use_type_invariant(self);
            use_type_invariant(other);
        }
        let bits = self.bits | other.bits;
        proof {
            let a = self.bits;
            let b = other.bits;
            assert((a | b) < 8) by (bit_vector)
                requires
                    a < 8,
                    b < 8,
            ;
        }
        let r = DataKinds { bits };
        proof {
            let a = self.bits;
            let b = other.bits;
            assert forall|k: DataKind|
                r@.contains(k) == self@.union(other@).contains(k) by {
                let m = kind_bit(k);
                assert(((a | b) & m != 0) == ((a & m != 0) || (b & m != 0))) by (bit_vector);
            }
            assert(r@ =~= self@.union(other@));
        }
        r
    }

    /// The intersection of two capability sets.
    pub fn intersection(self, other: Self) -> (r: Self)
        ensures
            r@ == self@.intersect(other@),
    {
        proof {
            use_type_invariant(self);
        }
        let bits = self.bits & other.bits;
        proof {
            let a = self.bits;
            let b = other.bits;
            assert((a & b) < 8) by (bit_vector)
                requires
                    a < 8,
            ;
        }
        let r = DataKinds { bits };
        proof {
            let a = self.bits;
            let b = other.bits;
            assert forall|k: DataKind|
                r@.contains(k) == self@.intersect(other@).contains(k) by {
                let m = kind_bit(k);
                assert(((a & b) & m != 0) == ((a & m != 0) && (b & m != 0))) by (bit_vector)
                    requires
                        m == 1 || m == 2 || m == 4,
                ;
            }
            assert(r@ =~= self@.intersect(other@));
        }
        r
    }

    /// Builds the union of the listed kinds. Listing a kind twice changes
    /// nothing, and an empty list yields the empty set.
    pub fn from_slice(s: &[DataKind]) -> (r: Self)
        ensures
            r@ == s@.to_set(),
    {
        let mut res = DataKinds::empty();
        let mut i: usize = 0;
        while i < s.len()
            invariant
                i <= s@.len(),
                forall|k: DataKind|
                    res@.contains(k) <==> exists|j: int| 0 <= j < i && s@[j] == k,
            decreases s@.len() - i,
        {
            let item = DataKinds::from_kind(s[i]);
            res = res.union(item);
            i = i + 1;
        }
        proof {
            assert forall|k: DataKind| res@.contains(k) == s@.to_set().contains(k) by {
                if s@.to_set().contains(k) {
                    let j = choose|j: int| 0 <= j < s@.len() && s@[j] == k;
                    assert(res@.contains(k));
                }
            }
            assert(res@ =~= s@.to_set());
        }
        res
    }
}

/// Two well-formed capability sets with the same members are the same
/// value, so building a set from any two lists of the same kinds, in any
/// order and with any repetitions, gives equal results.
pub proof fn lemma_kinds_extensional(a: DataKinds, b: DataKinds)
    requires
        a.wf(),
        b.wf(),
        a@ == b@,
    ensures
        a == b,
{
    let x = a.bits;
    let y = b.bits;
    assert((x & 1 != 0) == (y & 1 != 0)) by {
        assert(a@.contains(DataKind::Bytes) == (x & 1 != 0));
        assert(b@.contains(DataKind::Bytes) == (y & 1 != 0));
    }
    assert((x & 2 != 0) == (y & 2 != 0)) by {
        assert(a@.contains(DataKind::Str) == (x & 2 != 0));
        assert(b@.contains(DataKind::Str) == (y & 2 != 0));
    }
    assert((x & 4 != 0) == (y & 4 != 0)) by {
        assert(a@.contains(DataKind::Parsed) == (x & 4 != 0));
        assert(b@.contains(DataKind::Parsed) == (y & 4 != 0));
    }
    assert(x == y) by (bit_vector)
        requires
            x < 8,
            y < 8,
            (x & 1 != 0) == (y & 1 != 0),
            (x & 2 != 0) == (y & 2 != 0),
            (x & 4 != 0) == (y & 4 != 0),
    ;
}

/// The deterministic resolution rule: the first kind of `prefs` (most
/// preferred first) that `available` contains, or `None` if no listed
/// kind is available.
pub open spec fn resolve(prefs: Seq<DataKind>, available: Set<DataKind>) -> Option<DataKind>
    decreases prefs.len(),
{
    if prefs.len() == 0 {
        None
    } else if available.contains(prefs[0]) {
        Some(prefs[0])
    } else {
        resolve(prefs.drop_first(), available)
    }
}

/// Resolution picks a kind listed in the preference and available in the
/// capability set whenever one exists, and it picks the earliest such
/// listing; it returns `None` exactly when no listed kind is available.
pub proof fn lemma_resolve_membership(prefs: Seq<DataKind>, available: Set<DataKind>)
    ensures
        resolve(prefs, available) matches Some(k) ==> exists|i: int|
            0 <= i < prefs.len() && prefs[i] == k && available.contains(k) && (forall|j: int|
                0 <= j < i ==> !available.contains(#[trigger] prefs[j])),
        resolve(prefs, available) is None <==> (forall|j: int|
            0 <= j < prefs.len() ==> !available.contains(#[trigger] prefs[j])),
    decreases prefs.len(),
{
    if prefs.len() > 0 {
        if available.contains(prefs[0]) {
            let i = 0int;
            assert(0 <= i < prefs.len() && prefs[i] == prefs[0] && available.contains(prefs[0])
                && (forall|j: int| 0 <= j < i ==> !available.contains(#[trigger] prefs[j])));
        } else {
            lemma_resolve_membership(prefs.drop_first(), available);
            let rest = prefs.drop_first();
            match resolve(prefs, available) {
                Some(k) => {
                    let i = choose|i: int|
                        0 <= i < rest.len() && rest[i] == k && available.contains(k)
                            && (forall|j: int|
                                0 <= j < i ==> !available.contains(#[trigger] rest[j]));
                    assert forall|j: int| 0 <= j < i + 1 implies !available.contains(
                        #[trigger] prefs[j],
                    ) by {
                        if j > 0 {
                            assert(prefs[j] == rest[j - 1]);
                        }
                    }
                    assert(prefs[i + 1] == rest[i]);
                },
                None => {
                    assert forall|j: int| 0 <= j < prefs.len() implies !available.contains(
                        #[trigger] prefs[j],
                    ) by {
                        if j > 0 {
                            assert(prefs[j] == rest[j - 1]);
                        }
                    }
                },
            }
        }
    }
}

/// A caller's priority order over representation kinds: up to three
/// distinct kinds, most preferred first.
///
/// The slots are filled left to right, with no filled slot after the
/// first empty one. Viewed through [`DataKindPreference::listed`] as the
/// sequence of kinds it lists.
pub struct DataKindPreference {
    ordering: [Option<DataKind>; 3],
}

impl DataKindPreference {
    #[verifier::type_invariant]
    spec fn inv(self) -> bool {
        &&& self.ordering@[1] is Some ==> self.ordering@[0] is Some
        &&& self.ordering@[2] is Some ==> self.ordering@[1] is Some
    }

    /// The kinds this preference lists, most preferred first.
    pub closed spec fn listed(self) -> Seq<DataKind> {
        let s = self.ordering@;
        if s[0] is None {
            seq![]
        } else if s[1] is None {
            seq![s[0]->0]
        } else if s[2] is None {
            seq![s[0]->0, s[1]->0]
        } else {
            seq![s[0]->0, s[1]->0, s[2]->0]
        }
    }

    /// Fills the slots left to right from `s`; entries beyond the
    /// capacity of three are ignored.
    pub fn from_slice(s: &[DataKind]) -> (r: Self)
        ensures
            r.listed() == s@.take(if s@.len() < 3 {
                s@.len() as int
            } else {
                3
            }),
    {
        let slot0 = if s.len() > 0 {
            Some(s[0])
        } else {
            None
        };
        let slot1 = if s.len() > 1 {
            Some(s[1])
        } else {
            None
        };
        let slot2 = if s.len() > 2 {
            Some(s[2])
        } else {
            None
        };
        let r = DataKindPreference { ordering: [slot0, slot1, slot2] };
        proof {
            assert(r.listed() =~= s@.take(if s@.len() < 3 {
                s@.len() as int
            } else {
                3
            }));
        }
        r
    }

    /// The preset that prefers raw bytes, then text, then parsed values.
    pub fn bytes_pref() -> (r: Self)
        ensures
            r.listed() == seq![DataKind::Bytes, DataKind::Str, DataKind::Parsed],
    {
        let r = DataKindPreference {
            ordering: [Some(DataKind::Bytes), Some(DataKind::Str), Some(DataKind::Parsed)],
        };
        proof {
            assert(r.listed() =~= seq![DataKind::Bytes, DataKind::Str, DataKind::Parsed]);
        }
        r
    }

    /// The preset that prefers text, then raw bytes, then parsed values.
    pub fn str_pref() -> (r: Self)
        ensures
            r.listed() == seq![DataKind::Str, DataKind::Bytes, DataKind::Parsed],
    {
        let r = DataKindPreference {
            ordering: [Some(DataKind::Str), Some(DataKind::Bytes), Some(DataKind::Parsed)],
        };
        proof {
            assert(r.listed() =~= seq![DataKind::Str, DataKind::Bytes, DataKind::Parsed]);
        }
        r
    }

    /// The preset that prefers parsed values, then text, then raw bytes.
    pub fn parsed_pref() -> (r: Self)
        ensures
            r.listed() == seq![DataKind::Parsed, DataKind::Str, DataKind::Bytes],
    {
        let r = DataKindPreference {
            ordering: [Some(DataKind::Parsed), Some(DataKind::Str), Some(DataKind::Bytes)],
        };
        proof {
            assert(r.listed() =~= seq![DataKind::Parsed, DataKind::Str, DataKind::Bytes]);
        }
        r
    }

    /// Returns the most preferred listed kind that `provided` contains,
    /// scanning strictly in priority order, or `None` if no listed kind
    /// is available.
    pub fn top(&self, provided: DataKinds) -> (r: Option<DataKind>)
        ensures
            r == resolve(self.listed(), provided@),
    {
        proof {
            use_type_invariant(&*self);
        }
        let mut i: usize = 0;
        while i < 3
            invariant
                i <= 3,
                self.inv(),
                forall|j: int|
                    0 <= j < i && j < self.listed().len() ==> !provided@.contains(
                        #[trigger] self.listed()[j],
                    ),
            decreases 3 - i,
        {
            if let Some(item) = self.ordering[i] {
                proof {
                    assert((i as int) < self.listed().len() && self.listed()[i as int] == item);
                }
                if provided.contains(item) {
                    proof {
                        lemma_resolve_first_match(self.listed(), provided@, i as int);
                    }
                    return Some(item);
                }
            } else {
                proof {
                    assert(self.listed().len() <= i as int);
                }
            }
            i = i + 1;
        }
        proof {
            lemma_resolve_no_match(self.listed(), provided@);
        }
        None
    }
}

/// When the kind at index `i` of `prefs` is available and no earlier one
/// is, resolution picks exactly that kind.
proof fn lemma_resolve_first_match(prefs: Seq<DataKind>, available: Set<DataKind>, i: int)
    requires
        0 <= i < prefs.len(),
        available.contains(prefs[i]),
        forall|j: int| 0 <= j < i ==> !available.contains(#[trigger] prefs[j]),
    ensures
        resolve(prefs, available) == Some(prefs[i]),
    decreases i,
{
    if i > 0 {
        let rest = prefs.drop_first();
        assert(rest[i - 1] == prefs[i]);
        assert forall|j: int| 0 <= j < i - 1 implies !available.contains(#[trigger] rest[j]) by {
            assert(rest[j] == prefs[j + 1]);
        }
        lemma_resolve_first_match(rest, available, i - 1);
    }
}

/// When no listed kind is available, resolution returns `None`.
proof fn lemma_resolve_no_match(prefs: Seq<DataKind>, available: Set<DataKind>)
    requires
        forall|j: int| 0 <= j < prefs.len() ==> !available.contains(#[trigger] prefs[j]),
    ensures
        resolve(prefs, available) is None,
    decreases prefs.len(),
{
    if prefs.len() > 0 {
        let rest = prefs.drop_first();
        assert forall|j: int| 0 <= j < rest.len() implies !available.contains(
            #[trigger] rest[j],
        ) by {
            assert(rest[j] == prefs[j + 1]);
        }
        lemma_resolve_no_match(rest, available);
    }
}

/// Against an empty capability set, resolution finds nothing, whatever
/// the preference says.
pub proof fn lemma_resolve_empty(prefs: Seq<DataKind>)
    ensures
        resolve(prefs, Set::empty()) is None,
{
    lemma_resolve_membership(prefs, Set::empty());
    if resolve(prefs, Set::empty()) is Some {
        let k = resolve(prefs, Set::empty())->0;
        assert(Set::<DataKind>::empty().contains(k));
    }
}

} // verus!
