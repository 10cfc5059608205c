//! What a source declares of itself: its capabilities, its content rating
//! and the details the host shows for it.

use std::ops::BitOr;
use vstd::prelude::*;
use vstd::std_specs::ops::BitOrSpecImpl;

use crate::base::badge::Badge;
use crate::base::lang::Language;

verus! {

/// Bit of [`Intent::MangaChapters`].
pub const MANGA_CHAPTERS: u32 = 0x1;

/// Bit of [`Intent::MangaTracking`].
pub const MANGA_TRACKING: u32 = 0x2;

/// Bit of [`Intent::HomepageSections`].
pub const HOMEPAGE_SECTIONS: u32 = 0x4;

/// Bit of [`Intent::CloudflareBypassRequired`].
pub const CLOADFARE_BYPASS_REQUIRED: u32 = 0x8;

/// The bits that name a capability.
pub const ALL_INTENTS: u32 = 0xF;

/// One capability that a source can declare.
#[derive(Debug, Clone, Copy, PartialEq, Eq, Structural)]
pub enum Intent {
    /// The source serves series and their chapters.
    MangaChapters,
    /// The source tracks reading progress.
    MangaTracking,
    /// The source serves sections for the home page.
    HomepageSections,
    /// Requests succeed only after an anti-bot check has been passed.
    CloudflareBypassRequired,
}

impl Intent {
    /// The bit that stands for the capability.
    pub open spec fn spec_bit(self) -> u32 {
        match self {
            Intent::MangaChapters => MANGA_CHAPTERS,
            Intent::MangaTracking => MANGA_TRACKING,
            Intent::HomepageSections => HOMEPAGE_SECTIONS,
            Intent::CloudflareBypassRequired => CLOADFARE_BYPASS_REQUIRED,
        }
    }

    /// The bit that stands for the capability.
    #[verifier::when_used_as_spec(spec_bit)]
    pub fn bit(self) -> (bit: u32)
        ensures
            bit == self.spec_bit(),
    {
        match self {
            Intent::MangaChapters => MANGA_CHAPTERS,
            Intent::MangaTracking => MANGA_TRACKING,
            Intent::HomepageSections => HOMEPAGE_SECTIONS,
            Intent::CloudflareBypassRequired => CLOADFARE_BYPASS_REQUIRED,
        }
    }
}

/// The capabilities a source declares: a set of [`Intent`]s, held as the
/// bits of an integer. No bit outside [`ALL_INTENTS`] is ever set.
#[derive(Debug, Clone, Copy, PartialEq, Eq)]
pub struct SourceIntents {
    bits: u32,
}

/// The capabilities whose bits are set in `bits`.
pub open spec fn intents_of_bits(bits: u32) -> Set<Intent> {
    Set::new(|intent: Intent| bits & intent.spec_bit() != 0)
}

impl View for SourceIntents {
    type V = Set<Intent>;

    closed spec fn view(&self) -> Set<Intent> {
        intents_of_bits(self.bits)
    }
}

impl SourceIntents {
    /// No bit outside [`ALL_INTENTS`] is set. This holds of every value that
    /// running code can hold.
    #[verifier::type_invariant]
    pub closed spec fn wf(self) -> bool {
        self.bits <= ALL_INTENTS
    }

    /// The set as the bits of an integer.
    pub closed spec fn spec_bits(self) -> u32 {
        self.bits
    }

    /// The set as the bits of an integer.
    #[verifier::when_used_as_spec(spec_bits)]
    pub fn bits(self) -> (bits: u32)
        ensures
            bits == self.spec_bits(),
            bits <= ALL_INTENTS,
            intents_of_bits(bits) == self@,
    {
        proof {
            use_type_invariant(self);
        }
        self.bits
    }

    /// No capability.
    pub fn empty() -> (intents: Self)
        ensures
            intents@ == Set::<Intent>::empty(),
            intents.spec_bits() == 0,
    {
        let intents = SourceIntents { bits: 0 };
        proof {
            assert forall|intent: Intent| !(#[trigger] intents@.contains(intent)) by {
                let bit = intent.spec_bit();
                assert(0u32 & bit == 0) by (bit_vector);
            }
            assert(intents@ =~= Set::<Intent>::empty());
        }
        intents
    }

    /// Every capability.
    pub fn all() -> (intents: Self)
        ensures
            intents@ == Set::<Intent>::full(),
            intents.spec_bits() == ALL_INTENTS,
    {
        let intents = SourceIntents { bits: ALL_INTENTS };
        proof {
            assert forall|intent: Intent| #[trigger] intents@.contains(intent) by {
                lemma_intent_bits();
                let bit = intent.spec_bit();
                assert(bit == 1 || bit == 2 || bit == 4 || bit == 8 ==> 0xFu32 & bit != 0)
                    by (bit_vector);
            }
            assert(intents@ =~= Set::<Intent>::full());
        }
        intents
    }

    /// The one capability `intent`.
    pub fn of(intent: Intent) -> (intents: Self)
        ensures
            intents@ == set![intent],
            intents.spec_bits() == intent.spec_bit(),
    {
        let intents = SourceIntents { bits: intent.bit() };
        proof {
            let bit = intent.spec_bit();
            assert forall|other: Intent| #[trigger]
                intents@.contains(other) == (other == intent) by {
                let m = other.spec_bit();
                assert((bit == 1 || bit == 2 || bit == 4 || bit == 8) && (m == 1 || m == 2 || m
                    == 4 || m == 8) ==> ((bit & m != 0) == (bit == m))) by (bit_vector);
            }
            assert(intents@ =~= set![intent]);
        }
        intents
    }

    /// The set with exactly the bits of `bits`, where all of them name a
    /// capability; `None` where one does not.
    pub fn from_bits(bits: u32) -> (intents: Option<Self>)
        ensures
            intents is Some <==> bits <= ALL_INTENTS,
            intents matches Some(found) ==> found.spec_bits() == bits && found@
                == intents_of_bits(bits),
    {
        if bits <= ALL_INTENTS {
            Some(SourceIntents { bits })
        } else {
            None
        }
    }

    /// The set with the bits of `bits` that name a capability; the others
    /// are dropped.
    pub fn from_bits_truncate(bits: u32) -> (intents: Self)
        ensures
            intents.spec_bits() == bits & ALL_INTENTS,
            intents@ == intents_of_bits(bits),
    {
        proof {
            assert(bits & 0xFu32 <= 0xFu32) by (bit_vector);
        }
        let intents = SourceIntents { bits: bits & ALL_INTENTS };
        proof {
            assert forall|intent: Intent| #[trigger]
                intents@.contains(intent) == intents_of_bits(bits).contains(intent) by {
                let m = intent.spec_bit();
                assert((m == 1 || m == 2 || m == 4 || m == 8) ==> (((bits & 0xFu32) & m != 0) == (
                bits & m != 0))) by (bit_vector);
            }
            assert(intents@ =~= intents_of_bits(bits));
        }
        intents
    }

    /// Whether no capability is declared.
    pub fn is_empty(self) -> (empty: bool)
        ensures
            empty == (self@ == Set::<Intent>::empty()),
    {
        proof {
            use_type_invariant(self);
            let bits = self.bits;
            if bits == 0 {
                assert forall|intent: Intent| !(#[trigger] self@.contains(intent)) by {
                    let m = intent.spec_bit();
                    assert(0u32 & m == 0) by (bit_vector);
                }
                assert(self@ =~= Set::<Intent>::empty());
            } else {
                assert(bits <= 0xF && bits != 0 ==> (bits & 1 != 0 || bits & 2 != 0 || bits & 4
                    != 0 || bits & 8 != 0)) by (bit_vector);
                assert(self@.contains(Intent::MangaChapters) || self@.contains(
                    Intent::MangaTracking,
                ) || self@.contains(Intent::HomepageSections) || self@.contains(
                    Intent::CloudflareBypassRequired,
                ));
            }
        }
        self.bits == 0
    }

    /// Whether the capability `intent` is declared.
    pub fn has(self, intent: Intent) -> (declared: bool)
        ensures
            declared == self@.contains(intent),
    {
        self.bits & intent.bit() != 0
    }

    /// Whether every capability of `other` is declared.
    pub fn contains(self, other: SourceIntents) -> (contained: bool)
        ensures
            contained == other@.subset_of(self@),
    {
        proof {
            use_type_invariant(self);
            use_type_invariant(other);
            lemma_subset_is_bit_containment(self, other);
        }
        self.bits & other.bits == other.bits
    }

    /// The capabilities declared in `self` or in `other`, as a value.
    pub closed spec fn spec_union(self, other: SourceIntents) -> SourceIntents {
        SourceIntents { bits: self.bits | other.bits }
    }

    /// The capabilities declared in `self` or in `other`.
    #[verifier::when_used_as_spec(spec_union)]
    pub fn union(self, other: SourceIntents) -> (intents: Self)
        ensures
            intents == self.spec_union(other),
            intents@ == self@.union(other@),
            intents.spec_bits() == self.spec_bits() | other.spec_bits(),
    {
        proof {
            use_type_invariant(self);
            use_type_invariant(other);
            let (a, b) = (self.bits, other.bits);
            assert(a <= 0xF && b <= 0xF ==> a | b <= 0xF) by (bit_vector);
        }
        let intents = SourceIntents { bits: self.bits | other.bits };
        proof {
            let (a, b) = (self.bits, other.bits);
            assert forall|intent: Intent| #[trigger]
                intents@.contains(intent) == self@.union(other@).contains(intent) by {
                let m = intent.spec_bit();
                assert(((a | b) & m != 0) == (a & m != 0 || b & m != 0)) by (bit_vector);
            }
            assert(intents@ =~= self@.union(other@));
        }
        intents
    }

    /// The capabilities declared in both `self` and `other`.
    pub fn intersection(self, other: SourceIntents) -> (intents: Self)
        ensures
            intents@ == self@.intersect(other@),
            intents.spec_bits() == self.spec_bits() & other.spec_bits(),
    {
        proof {
            use_type_invariant(self);
            let (a, b) = (self.bits, other.bits);
            assert(a <= 0xF ==> a & b <= 0xF) by (bit_vector);
        }
        let intents = SourceIntents { bits: self.bits & other.bits };
        proof {
            let (a, b) = (self.bits, other.bits);
            assert forall|intent: Intent| #[trigger]
                intents@.contains(intent) == self@.intersect(other@).contains(intent) by {
                let m = intent.spec_bit();
                assert((m == 1 || m == 2 || m == 4 || m == 8) ==> (((a & b) & m != 0) == (a & m
                    != 0 && b & m != 0))) by (bit_vector);
            }
            assert(intents@ =~= self@.intersect(other@));
        }
        intents
    }

    /// The capabilities declared in `self` and not in `other`.
    pub fn difference(self, other: SourceIntents) -> (intents: Self)
        ensures
            intents@ == self@.difference(other@),
            intents.spec_bits() == self.spec_bits() & !other.spec_bits(),
    {
        proof {
            use_type_invariant(self);
            let (a, b) = (self.bits, other.bits);
            assert(a <= 0xF ==> a & !b <= 0xF) by (bit_vector);
        }
        let intents = SourceIntents { bits: self.bits & !other.bits };
        proof {
            let (a, b) = (self.bits, other.bits);
            assert forall|intent: Intent| #[trigger]
                intents@.contains(intent) == self@.difference(other@).contains(intent) by {
                let m = intent.spec_bit();
                assert((m == 1 || m == 2 || m == 4 || m == 8) ==> (((a & !b) & m != 0) == (a & m
                    != 0 && !(b & m != 0)))) by (bit_vector);
            }
            assert(intents@ =~= self@.difference(other@));
        }
        intents
    }
}

/// Each capability has one of the four bits.
proof fn lemma_intent_bits()
    ensures
        forall|intent: Intent|
            #![trigger intent.spec_bit()]
            intent.spec_bit() == 1 || intent.spec_bit() == 2 || intent.spec_bit() == 4
                || intent.spec_bit() == 8,
{
}

/// Containment of bits is containment of the sets they stand for.
proof fn lemma_subset_is_bit_containment(whole: SourceIntents, part: SourceIntents)
    requires
        whole.wf(),
        part.wf(),
    ensures
        (whole.spec_bits() & part.spec_bits() == part.spec_bits()) == part@.subset_of(whole@),
{
    let (a, b) = (whole.bits, part.bits);
    assert(b <= 0xF ==> ((a & b == b) == ((b & 1 != 0 ==> a & 1 != 0) && (b & 2 != 0 ==> a & 2
        != 0) && (b & 4 != 0 ==> a & 4 != 0) && (b & 8 != 0 ==> a & 8 != 0)))) by (bit_vector);
    if part@.subset_of(whole@) {
        assert(part@.contains(Intent::MangaChapters) ==> whole@.contains(Intent::MangaChapters));
        assert(part@.contains(Intent::MangaTracking) ==> whole@.contains(Intent::MangaTracking));
        assert(part@.contains(Intent::HomepageSections) ==> whole@.contains(
            Intent::HomepageSections,
        ));
        assert(part@.contains(Intent::CloudflareBypassRequired) ==> whole@.contains(
            Intent::CloudflareBypassRequired,
        ));
    }
    if a & b == b {
        assert forall|intent: Intent| part@.contains(intent) implies whole@.contains(intent) by {
            match intent {
                Intent::MangaChapters => {},
                Intent::MangaTracking => {},
                Intent::HomepageSections => {},
                Intent::CloudflareBypassRequired => {},
            }
        }
    }
}

/// Two sets of capabilities with the same members are the same value.
pub proof fn lemma_intents_extensional(a: SourceIntents, b: SourceIntents)
    requires
        a.wf(),
        b.wf(),
        a@ == b@,
    ensures
        a == b,
{
    lemma_subset_is_bit_containment(a, b);
    lemma_subset_is_bit_containment(b, a);
    let (x, y) = (a.bits, b.bits);
    assert(x & y == y && y & x == x ==> x == y) by (bit_vector);
}

impl BitOr for SourceIntents {
    type Output = SourceIntents;

    /// The capabilities declared in `self` or in `other`.
    fn bitor(self, other: SourceIntents) -> (intents: SourceIntents)
        ensures
            intents@ == self@.union(other@),
    {
        self.union(other)
    }
}

impl BitOrSpecImpl for SourceIntents {
    open spec fn obeys_bitor_spec() -> bool {
        true
    }

    open spec fn bitor_req(self, other: SourceIntents) -> bool {
        true
    }

    open spec fn bitor_spec(self, other: SourceIntents) -> SourceIntents {
        SourceIntents::spec_union(self, other)
    }
}

/// How suitable a source's content is for a general audience.
#[derive(Debug, Clone, Copy, PartialEq, Eq, Structural)]
pub enum ContentRating {
    Everyone,
    Mature,
    Adult,
    Multi,
}

/// What the host shows of a source, and what the source declares it can do.
#[derive(Debug, Clone, PartialEq, Eq)]
pub struct SourceInfo {
    pub version: String,
    pub name: String,
    pub description: String,
    pub content_rating: ContentRating,
    pub icon_url: String,
    pub publisher: String,
    pub publisher_url: Option<String>,
    pub homepage_url: String,
    pub intents: Option<SourceIntents>,
    pub language: Language,
    pub badges: Option<Vec<Badge>>,
}

} // verus!
