//! The phonological units that a transcription is made of.

use vstd::prelude::*;

verus! {

/// Vertical tongue position of a vowel, from closest to most open.
#[derive(Clone, Copy, Debug, PartialEq, Eq, Structural)]
pub enum VowelHeight {
    Close,
    NearClose,
    CloseMid,
    Mid,
    OpenMid,
    NearOpen,
    Open,
}

/// Horizontal tongue position of a vowel.
#[derive(Clone, Copy, Debug, PartialEq, Eq, Structural)]
pub enum VowelBackness {
    Front,
    Central,
    Back,
}

/// Lip rounding of a vowel.
#[derive(Clone, Copy, Debug, PartialEq, Eq, Structural)]
pub enum VowelRoundedness {
    Unrounded,
    Rounded,
}

/// A vowel, described by its three articulatory features.
#[derive(Clone, Copy, Debug, PartialEq, Eq, Structural)]
pub struct Vowel {
    pub height: VowelHeight,
    pub backness: VowelBackness,
    pub roundedness: VowelRoundedness,
}

/// Manner of articulation of a pulmonic consonant.
#[derive(Clone, Copy, Debug, PartialEq, Eq, Structural)]
pub enum PulmonicConsonantManner {
    Nasal,
    Plosive,
    SibilantFricative,
    NonSibilantFricative,
    Approximant,
    Tap,
    Trill,
    LateralFricative,
    LateralApproximant,
    LateralTap,
}

/// Place of articulation of a consonant.
#[derive(Clone, Copy, Debug, PartialEq, Eq, Structural)]
pub enum ConsonantPlace {
    Bilabial,
    Labiodental,
    Linguolabial,
    Dental,
    Aveolar,
    Postalveolar,
    Retroflex,
    Palatal,
    Velar,
    Uvular,
    Pharyngeal,
    Glottal,
}

/// Whether the vocal folds vibrate.
#[derive(Clone, Copy, Debug, PartialEq, Eq, Structural)]
pub enum ConsonantVoicing {
    Voiced,
    Voiceless,
}

/// A pulmonic consonant. Voicing is a feature of its own because some
/// voiceless consonants have a symbol of their own rather than a diacritic.
#[derive(Clone, Copy, Debug, PartialEq, Eq, Structural)]
pub struct PulmonicConsonant {
    pub manner: PulmonicConsonantManner,
    pub place: ConsonantPlace,
    pub voicing: ConsonantVoicing,
}

/// A modifier attached to a letter.
#[derive(Clone, Copy, Debug, PartialEq, Eq, Structural)]
pub enum Diacritic {
    Syllabic,
    NonSyllabic,
    Aspirated,
    NoAudibleRelease,
    NasalRelease,
    LateralRelease,
    VoicelessDentalFricativeRelease,
    VoicelessVelarFricativeRelease,
    MidCentralVowelRelease,
    Voiceless,
    Voiced,
    BreathyVoiced,
    CreakyVoiced,
    Dental,
    Linguolabial,
    Apical,
    Laminal,
    Advanced,
    Retracted,
    Centralized,
    MidCentralized,
    Raised,
    Lowered,
    MoreRounded,
    LessRounded,
    Labialized,
    Palatalized,
    Velarized,
    VelarizedOrPharyngealized,
    Pharyngealized,
    AdvancedTongueRoot,
    RetractedTongueRoot,
    Nasalized,
    Rhoticity,
}

/// One level of a Chao tone letter.
#[derive(Clone, Copy, Debug, PartialEq, Eq, Structural)]
pub enum ChaoToneLetterHeight {
    ExtraHigh,
    High,
    Mid,
    Low,
    ExtraLow,
}

/// A tone written as a contour of levels.
#[derive(Clone, Debug, PartialEq)]
pub struct ChaoToneLetter {
    contour: Vec<ChaoToneLetterHeight>,
    reversed: bool,
}

/// A tone written as a diacritic over a letter.
#[derive(Clone, Copy, Debug, PartialEq, Eq, Structural)]
pub enum PitchDiacritic {
    ExtraHigh,
    High,
    Mid,
    Low,
    ExtraLow,
    Rising,
    Falling,
    Peaking,
    Dipping,
    MidRising,
    LowRising,
    HighFalling,
    MidFalling,
}

/// Stress, length, break and intonation markers.
#[derive(Clone, Debug, PartialEq)]
pub enum Suprasegmental {
    PrimaryStress,
    SecondaryStress,
    Long,
    HalfLong,
    ExtraShort,
    SyllableBreak,
    Linking,
    MinorBreak,
    MajorBreak,
    GlobalRise,
    GlobalFall,
    Upstep,
    Downstep,
    PitchDiacritic(PitchDiacritic),
    ChaoToneLetter(ChaoToneLetter),
}

/// The category of a letter, with its features.
/// Non-pulmonic consonants are not described yet and carry no features.
#[derive(Clone, Debug, PartialEq)]
pub enum LetterType {
    PulmonicConsonant(PulmonicConsonant),
    NonPulmonicConsonant,
    Vowel(Vowel),
    Suprasegmental(Suprasegmental),
}

/// One segment of a transcription: a unit and the diacritics written on it.
#[derive(Clone, Debug, PartialEq)]
pub struct Letter {
    pub ipa_type: LetterType,
    pub diacritics: Option<Vec<Diacritic>>,
}

/// Model of a `Suprasegmental`: the same variants, with a tone contour as a sequence.
pub enum SuprasegmentalView {
    PrimaryStress,
    SecondaryStress,
    Long,
    HalfLong,
    ExtraShort,
    SyllableBreak,
    Linking,
    MinorBreak,
    MajorBreak,
    GlobalRise,
    GlobalFall,
    Upstep,
    Downstep,
    PitchDiacritic(PitchDiacritic),
    ChaoToneLetter(Seq<ChaoToneLetterHeight>, bool),
}

/// Model of a `LetterType`.
pub enum LetterTypeView {
    PulmonicConsonant(PulmonicConsonant),
    NonPulmonicConsonant,
    Vowel(Vowel),
    Suprasegmental(SuprasegmentalView),
}

/// Model of a `Letter`.
pub struct LetterView {
    pub ipa_type: LetterTypeView,
    pub diacritics: Option<Seq<Diacritic>>,
}

impl View for Suprasegmental {
    type V = SuprasegmentalView;

    open spec fn view(&self) -> SuprasegmentalView {
        match self {
            Suprasegmental::PrimaryStress => SuprasegmentalView::PrimaryStress,
            Suprasegmental::SecondaryStress => SuprasegmentalView::SecondaryStress,
            Suprasegmental::Long => SuprasegmentalView::Long,
            Suprasegmental::HalfLong => SuprasegmentalView::HalfLong,
            Suprasegmental::ExtraShort => SuprasegmentalView::ExtraShort,
            Suprasegmental::SyllableBreak => SuprasegmentalView::SyllableBreak,
            Suprasegmental::Linking => SuprasegmentalView::Linking,
            Suprasegmental::MinorBreak => SuprasegmentalView::MinorBreak,
            Suprasegmental::MajorBreak => SuprasegmentalView::MajorBreak,
            Suprasegmental::GlobalRise => SuprasegmentalView::GlobalRise,
            Suprasegmental::GlobalFall => SuprasegmentalView::GlobalFall,
            Suprasegmental::Upstep => SuprasegmentalView::Upstep,
            Suprasegmental::Downstep => SuprasegmentalView::Downstep,
            Suprasegmental::PitchDiacritic(p) => SuprasegmentalView::PitchDiacritic(*p),
            Suprasegmental::ChaoToneLetter(c) => SuprasegmentalView::ChaoToneLetter(
                c.contour_view().0,
                c.contour_view().1,
            ),
        }
    }
}

impl View for LetterType {
    type V = LetterTypeView;

    open spec fn view(&self) -> LetterTypeView {
        match self {
            LetterType::PulmonicConsonant(c) => LetterTypeView::PulmonicConsonant(*c),
            LetterType::NonPulmonicConsonant => LetterTypeView::NonPulmonicConsonant,
            LetterType::Vowel(v) => LetterTypeView::Vowel(*v),
            LetterType::Suprasegmental(s) => LetterTypeView::Suprasegmental(s@),
        }
    }
}

impl View for Letter {
    type V = LetterView;

    open spec fn view(&self) -> LetterView {
        LetterView {
            ipa_type: self.ipa_type@,
            diacritics: match &self.diacritics {
                Some(d) => Some(d@),
                None => None,
            },
        }
    }
}

impl LetterTypeView {
    pub open spec fn is_vowel(self) -> bool {
        self is Vowel
    }

    /// The categories that the syllabifier weighs pairwise as neighbours.
    pub open spec fn is_consonant_or_suprasegmental(self) -> bool {
        self is PulmonicConsonant || self is Suprasegmental
    }
}

/// Copies a vector of plain values.
pub fn copy_vec<T: Copy>(v: &Vec<T>) -> (r: Vec<T>)
    ensures
        r@ == v@,
{
    let mut r: Vec<T> = Vec::new();
    let mut i: usize = 0;
    while i < v.len()
        invariant
            i <= v@.len(),
            r@ == v@.subrange(0, i as int),
        decreases v@.len() - i,
    {
        r.push(v[i]);
        i += 1;
        assert(r@ =~= v@.subrange(0, i as int));
    }
    assert(r@ =~= v@);
    r
}

impl ChaoToneLetter {
    /// Model of the tone: its contour and whether it is written reversed.
    pub closed spec fn contour_view(self) -> (Seq<ChaoToneLetterHeight>, bool) {
        (self.contour@, self.reversed)
    }

    /// Whether two tone contours are the same.
    pub fn same(&self, other: &ChaoToneLetter) -> (r: bool)
        ensures
            r == (self.contour_view() == other.contour_view()),
    {
        if self.reversed != other.reversed || self.contour.len() != other.contour.len() {
            return false;
        }
        let mut i: usize = 0;
        while i < self.contour.len()
            invariant
                self.contour@.len() == other.contour@.len(),
                i <= self.contour@.len(),
                forall|k: int| 0 <= k < i ==> self.contour@[k] == other.contour@[k],
            decreases self.contour@.len() - i,
        {
            if self.contour[i] != other.contour[i] {
                return false;
            }
            i += 1;
        }
        assert(self.contour@ =~= other.contour@);
        true
    }
}

impl Suprasegmental {
    /// An exact copy.
    pub fn duplicate(&self) -> (r: Suprasegmental)
        ensures
            r@ == self@,
    {
        match self {
            Suprasegmental::PrimaryStress => Suprasegmental::PrimaryStress,
            Suprasegmental::SecondaryStress => Suprasegmental::SecondaryStress,
            Suprasegmental::Long => Suprasegmental::Long,
            Suprasegmental::HalfLong => Suprasegmental::HalfLong,
            Suprasegmental::ExtraShort => Suprasegmental::ExtraShort,
            Suprasegmental::SyllableBreak => Suprasegmental::SyllableBreak,
            Suprasegmental::Linking => Suprasegmental::Linking,
            Suprasegmental::MinorBreak => Suprasegmental::MinorBreak,
            Suprasegmental::MajorBreak => Suprasegmental::MajorBreak,
            Suprasegmental::GlobalRise => Suprasegmental::GlobalRise,
            Suprasegmental::GlobalFall => Suprasegmental::GlobalFall,
            Suprasegmental::Upstep => Suprasegmental::Upstep,
            Suprasegmental::Downstep => Suprasegmental::Downstep,
            Suprasegmental::PitchDiacritic(p) => Suprasegmental::PitchDiacritic(*p),
            Suprasegmental::ChaoToneLetter(c) => Suprasegmental::ChaoToneLetter(
                ChaoToneLetter { contour: copy_vec(&c.contour), reversed: c.reversed },
            ),
        }
    }
}

impl LetterType {
    /// An exact copy.
    pub fn duplicate(&self) -> (r: LetterType)
        ensures
            r@ == self@,
    {
        match self {
            LetterType::PulmonicConsonant(c) => LetterType::PulmonicConsonant(*c),
            LetterType::NonPulmonicConsonant => LetterType::NonPulmonicConsonant,
            LetterType::Vowel(v) => LetterType::Vowel(*v),
            LetterType::Suprasegmental(s) => LetterType::Suprasegmental(s.duplicate()),
        }
    }
}

impl Letter {
    /// An exact copy.
    pub fn duplicate(&self) -> (r: Letter)
        ensures
            r@ == self@,
    {
        let diacritics = match &self.diacritics {
            Some(d) => Some(copy_vec(d)),
            None => None,
        };
        Letter { ipa_type: self.ipa_type.duplicate(), diacritics }
    }
}

} // verus!
