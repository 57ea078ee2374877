//! The syllable rule for English.

use crate::phoneme::{
    Letter, LetterType, LetterTypeView, LetterView, Suprasegmental, SuprasegmentalView, Vowel,
    VowelBackness, VowelHeight, VowelRoundedness,
};
use crate::syllable::{scan_from, scan_start, syllabify, SyllableRule, SyllableView};
use vstd::prelude::*;

verus! {

/// English phonotactics: four diphthongs, and no consonant or
/// suprasegmental after a length mark within one syllable.
#[derive(Clone, Copy, Debug)]
pub struct EnglishSyllableRule;

/// The vowel with the given features.
pub open spec fn vowel_of(h: VowelHeight, b: VowelBackness, r: VowelRoundedness) -> Vowel {
    Vowel { height: h, backness: b, roundedness: r }
}

/// The vowel pairs that English reads as one nucleus, the first vowel
/// before the second: close-mid front + near-close front (/eɪ/), mid central
/// + close-mid back (/əo/), open front + near-close back (/aʊ/), and open-mid
/// front + mid central (/ɛə/). Every other pair is two nuclei.
pub open spec fn english_diphthong(first: Vowel, second: Vowel) -> bool {
    let mid_central = vowel_of(VowelHeight::Mid, VowelBackness::Central, VowelRoundedness::Unrounded);
    ||| first == vowel_of(VowelHeight::CloseMid, VowelBackness::Front, VowelRoundedness::Unrounded)
        && second == vowel_of(VowelHeight::NearClose, VowelBackness::Front, VowelRoundedness::Unrounded)
    ||| first == mid_central
        && second == vowel_of(VowelHeight::CloseMid, VowelBackness::Back, VowelRoundedness::Rounded)
    ||| first == vowel_of(VowelHeight::Open, VowelBackness::Front, VowelRoundedness::Unrounded)
        && second == vowel_of(VowelHeight::NearClose, VowelBackness::Back, VowelRoundedness::Rounded)
    ||| first == vowel_of(VowelHeight::OpenMid, VowelBackness::Front, VowelRoundedness::Unrounded)
        && second == mid_central
}

/// Whether `l` is the length mark.
pub open spec fn is_length_mark(l: LetterView) -> bool {
    l.ipa_type == LetterTypeView::Suprasegmental(SuprasegmentalView::Long)
}

impl SyllableRule for EnglishSyllableRule {
    open spec fn allows_neighbour(&self, first: LetterView, second: LetterView) -> bool {
        !is_length_mark(first)
    }

    /// Two bare vowels (no diacritics) of one of the English diphthongs.
    open spec fn joins_diphthong(&self, first: LetterView, second: LetterView) -> bool {
        &&& first.diacritics is None
        &&& second.diacritics is None
        &&& match (first.ipa_type, second.ipa_type) {
            (LetterTypeView::Vowel(a), LetterTypeView::Vowel(b)) => english_diphthong(a, b),
            _ => false,
        }
    }

    fn is_allowed_neighbour(&self, first: &Letter, second: &Letter) -> (r: bool) {
        !matches!(first.ipa_type, LetterType::Suprasegmental(Suprasegmental::Long))
    }

    fn is_diphthong(&self, first: &Letter, second: &Letter) -> (r: bool) {
        if first.diacritics.is_some() || second.diacritics.is_some() {
            return false;
        }
        match (&first.ipa_type, &second.ipa_type) {
            (LetterType::Vowel(a), LetterType::Vowel(b)) => {
                let close_mid_front = Vowel {
                    height: VowelHeight::CloseMid,
                    backness: VowelBackness::Front,
                    roundedness: VowelRoundedness::Unrounded,
                };
                let near_close_front = Vowel {
                    height: VowelHeight::NearClose,
                    backness: VowelBackness::Front,
                    roundedness: VowelRoundedness::Unrounded,
                };
                let mid_central = Vowel {
                    height: VowelHeight::Mid,
                    backness: VowelBackness::Central,
                    roundedness: VowelRoundedness::Unrounded,
                };
                let close_mid_back = Vowel {
                    height: VowelHeight::CloseMid,
                    backness: VowelBackness::Back,
                    roundedness: VowelRoundedness::Rounded,
                };
                let open_front = Vowel {
                    height: VowelHeight::Open,
                    backness: VowelBackness::Front,
                    roundedness: VowelRoundedness::Unrounded,
                };
                let near_close_back = Vowel {
                    height: VowelHeight::NearClose,
                    backness: VowelBackness::Back,
                    roundedness: VowelRoundedness::Rounded,
                };
                let open_mid_front = Vowel {
                    height: VowelHeight::OpenMid,
                    backness: VowelBackness::Front,
                    roundedness: VowelRoundedness::Unrounded,
                };
                (*a == close_mid_front && *b == near_close_front) || (*a == mid_central && *b
                    == close_mid_back) || (*a == open_front && *b == near_close_back) || (*a
                    == open_mid_front && *b == mid_central)
            },
            _ => false,
        }
    }
}

/// Two adjacent vowels make one syllable under the English rule exactly
/// when both are bare and form one of the English diphthongs; any other
/// pair of vowels is split into two syllables, one vowel each.
pub proof fn lemma_english_vowel_pairs(first: LetterView, second: LetterView)
    requires
        first.ipa_type.is_vowel(),
        second.ipa_type.is_vowel(),
    ensures
        ({
            let ss = syllabify(&EnglishSyllableRule, seq![first, second]);
            if first.diacritics is None && second.diacritics is None && english_diphthong(
                first.ipa_type->Vowel_0,
                second.ipa_type->Vowel_0,
            ) {
                ss == seq![
                    SyllableView {
                        onset: Seq::empty(),
                        nucleus: seq![first, second],
                        coda: Seq::empty(),
                    },
                ]
            } else {
                ss == seq![
                    SyllableView { onset: Seq::empty(), nucleus: seq![first], coda: Seq::empty() },
                    SyllableView { onset: Seq::empty(), nucleus: seq![second], coda: Seq::empty() },
                ]
            }
        }),
{
    let ls = seq![first, second];
    assert(ls.last() == second);
    assert(ls[0] == first);
    assert(ls[1] == second);
    let ss = syllabify(&EnglishSyllableRule, ls);
    assert(scan_from(&EnglishSyllableRule, ls, 1) == scan_start(second));
    let st = scan_from(&EnglishSyllableRule, ls, 0);
    if first.diacritics is None && second.diacritics is None && english_diphthong(
        first.ipa_type->Vowel_0,
        second.ipa_type->Vowel_0,
    ) {
        assert(st.nucleus =~= seq![first, second]);
        assert(ss =~~= seq![
            SyllableView {
                onset: Seq::empty(),
                nucleus: seq![first, second],
                coda: Seq::empty(),
            },
        ]);
    } else {
        assert(ss =~~= seq![
            SyllableView { onset: Seq::empty(), nucleus: seq![first], coda: Seq::empty() },
            SyllableView { onset: Seq::empty(), nucleus: seq![second], coda: Seq::empty() },
        ]);
    }
}

} // verus!
