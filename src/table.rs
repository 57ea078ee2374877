//! The symbol table: which codepoints write which phonological unit.
//!
//! Each category is an ordered list of rows. A row of the vowel or consonant
//! list pairs a feature tuple with the codepoints that a grapheme must hold
//! to be read as it; the first row whose codepoints are all present wins, so
//! a row is listed before any row whose codepoints are a subset of its own.
//! Diacritics and suprasegmentals map one codepoint to one value.

use crate::phoneme::{
    ConsonantPlace, ConsonantVoicing, Diacritic, PulmonicConsonant, PulmonicConsonantManner,
    Suprasegmental, SuprasegmentalView, Vowel, VowelBackness, VowelHeight, VowelRoundedness,
};
use vstd::prelude::*;

verus! {

/// Number of rows in the vowel list.
pub const VOWEL_COUNT: usize = 33;

/// Number of rows in the pulmonic consonant list.
pub const CONSONANT_COUNT: usize = 109;

/// Number of rows in the diacritic map.
pub const DIACRITIC_COUNT: usize = 45;

/// Number of rows in the suprasegmental map.
pub const SUPRASEGMENTAL_COUNT: usize = 11;

/// Number of precomposed characters that are rewritten before lookup.
pub const REPLACEMENT_COUNT: usize = 3;

/// Row `i` of the vowel list: a vowel and the codepoints that write it.
pub open spec fn vowel_entry(i: usize) -> (Vowel, Seq<char>) {
    match i {
        0 => (
            Vowel { height: VowelHeight::Mid, backness: VowelBackness::Back, roundedness: VowelRoundedness::Rounded },
            seq!['\u{006F}', '\u{031E}'],
        ),
        1 => (
            Vowel { height: VowelHeight::Mid, backness: VowelBackness::Back, roundedness: VowelRoundedness::Unrounded },
            seq!['\u{0264}', '\u{031E}'],
        ),
        2 => (
            Vowel { height: VowelHeight::Mid, backness: VowelBackness::Front, roundedness: VowelRoundedness::Rounded },
            seq!['\u{00F8}', '\u{031E}'],
        ),
        3 => (
            Vowel { height: VowelHeight::Mid, backness: VowelBackness::Front, roundedness: VowelRoundedness::Unrounded },
            seq!['\u{0065}', '\u{031E}'],
        ),
        4 => (
            Vowel { height: VowelHeight::Open, backness: VowelBackness::Central, roundedness: VowelRoundedness::Unrounded },
            seq!['\u{0061}', '\u{0308}'],
        ),
        5 => (
            Vowel { height: VowelHeight::Close, backness: VowelBackness::Back, roundedness: VowelRoundedness::Rounded },
            seq!['\u{0075}'],
        ),
        6 => (
            Vowel { height: VowelHeight::Close, backness: VowelBackness::Back, roundedness: VowelRoundedness::Unrounded },
            seq!['\u{026F}'],
        ),
        7 => (
            Vowel { height: VowelHeight::Close, backness: VowelBackness::Central, roundedness: VowelRoundedness::Rounded },
            seq!['\u{0289}'],
        ),
        8 => (
            Vowel { height: VowelHeight::Close, backness: VowelBackness::Central, roundedness: VowelRoundedness::Unrounded },
            seq!['\u{0268}'],
        ),
        9 => (
            Vowel { height: VowelHeight::Close, backness: VowelBackness::Front, roundedness: VowelRoundedness::Rounded },
            seq!['\u{0079}'],
        ),
        10 => (
            Vowel { height: VowelHeight::Close, backness: VowelBackness::Front, roundedness: VowelRoundedness::Unrounded },
            seq!['\u{0069}'],
        ),
        11 => (
            Vowel { height: VowelHeight::NearClose, backness: VowelBackness::Back, roundedness: VowelRoundedness::Rounded },
            seq!['\u{028A}'],
        ),
        12 => (
            Vowel { height: VowelHeight::NearClose, backness: VowelBackness::Front, roundedness: VowelRoundedness::Rounded },
            seq!['\u{028F}'],
        ),
        13 => (
            Vowel { height: VowelHeight::NearClose, backness: VowelBackness::Front, roundedness: VowelRoundedness::Unrounded },
            seq!['\u{026A}'],
        ),
        14 => (
            Vowel { height: VowelHeight::CloseMid, backness: VowelBackness::Back, roundedness: VowelRoundedness::Rounded },
            seq!['\u{006F}'],
        ),
        15 => (
            Vowel { height: VowelHeight::CloseMid, backness: VowelBackness::Back, roundedness: VowelRoundedness::Unrounded },
            seq!['\u{0264}'],
        ),
        16 => (
            Vowel { height: VowelHeight::CloseMid, backness: VowelBackness::Central, roundedness: VowelRoundedness::Rounded },
            seq!['\u{0275}'],
        ),
        17 => (
            Vowel { height: VowelHeight::CloseMid, backness: VowelBackness::Central, roundedness: VowelRoundedness::Unrounded },
            seq!['\u{0258}'],
        ),
        18 => (
            Vowel { height: VowelHeight::CloseMid, backness: VowelBackness::Front, roundedness: VowelRoundedness::Rounded },
            seq!['\u{00F8}'],
        ),
        19 => (
            Vowel { height: VowelHeight::CloseMid, backness: VowelBackness::Front, roundedness: VowelRoundedness::Unrounded },
            seq!['\u{0065}'],
        ),
        20 => (
            Vowel { height: VowelHeight::OpenMid, backness: VowelBackness::Front, roundedness: VowelRoundedness::Rounded },
            seq!['\u{0153}'],
        ),
        21 => (
            Vowel { height: VowelHeight::OpenMid, backness: VowelBackness::Front, roundedness: VowelRoundedness::Unrounded },
            seq!['\u{025B}'],
        ),
        22 => (
            Vowel { height: VowelHeight::OpenMid, backness: VowelBackness::Central, roundedness: VowelRoundedness::Rounded },
            seq!['\u{025E}'],
        ),
        23 => (
            Vowel { height: VowelHeight::OpenMid, backness: VowelBackness::Central, roundedness: VowelRoundedness::Unrounded },
            seq!['\u{025C}'],
        ),
        24 => (
            Vowel { height: VowelHeight::OpenMid, backness: VowelBackness::Back, roundedness: VowelRoundedness::Rounded },
            seq!['\u{0254}'],
        ),
        25 => (
            Vowel { height: VowelHeight::OpenMid, backness: VowelBackness::Back, roundedness: VowelRoundedness::Unrounded },
            seq!['\u{028C}'],
        ),
        26 => (
            Vowel { height: VowelHeight::Mid, backness: VowelBackness::Central, roundedness: VowelRoundedness::Unrounded },
            seq!['\u{0259}'],
        ),
        27 => (
            Vowel { height: VowelHeight::NearOpen, backness: VowelBackness::Central, roundedness: VowelRoundedness::Unrounded },
            seq!['\u{0250}'],
        ),
        28 => (
            Vowel { height: VowelHeight::NearOpen, backness: VowelBackness::Front, roundedness: VowelRoundedness::Unrounded },
            seq!['\u{00E6}'],
        ),
        29 => (
            Vowel { height: VowelHeight::Open, backness: VowelBackness::Back, roundedness: VowelRoundedness::Rounded },
            seq!['\u{0252}'],
        ),
        30 => (
            Vowel { height: VowelHeight::Open, backness: VowelBackness::Back, roundedness: VowelRoundedness::Unrounded },
            seq!['\u{0251}'],
        ),
        31 => (
            Vowel { height: VowelHeight::Open, backness: VowelBackness::Front, roundedness: VowelRoundedness::Rounded },
            seq!['\u{0276}'],
        ),
        _ => (
            Vowel { height: VowelHeight::Open, backness: VowelBackness::Front, roundedness: VowelRoundedness::Unrounded },
            seq!['\u{0061}'],
        ),
    }
}

/// Row `i` of `vowel_entry`, built for lookup.
pub fn vowel_row(i: usize) -> (r: (Vowel, Vec<char>))
    requires
        i < VOWEL_COUNT,
    ensures
        r.0 == vowel_entry(i).0,
        r.1@ == vowel_entry(i).1,
{
    match i {
        0 => (
            Vowel { height: VowelHeight::Mid, backness: VowelBackness::Back, roundedness: VowelRoundedness::Rounded },
            vec!['\u{006F}', '\u{031E}'],
        ),
        1 => (
            Vowel { height: VowelHeight::Mid, backness: VowelBackness::Back, roundedness: VowelRoundedness::Unrounded },
            vec!['\u{0264}', '\u{031E}'],
        ),
        2 => (
            Vowel { height: VowelHeight::Mid, backness: VowelBackness::Front, roundedness: VowelRoundedness::Rounded },
            vec!['\u{00F8}', '\u{031E}'],
        ),
        3 => (
            Vowel { height: VowelHeight::Mid, backness: VowelBackness::Front, roundedness: VowelRoundedness::Unrounded },
            vec!['\u{0065}', '\u{031E}'],
        ),
        4 => (
            Vowel { height: VowelHeight::Open, backness: VowelBackness::Central, roundedness: VowelRoundedness::Unrounded },
            vec!['\u{0061}', '\u{0308}'],
        ),
        5 => (
            Vowel { height: VowelHeight::Close, backness: VowelBackness::Back, roundedness: VowelRoundedness::Rounded },
            vec!['\u{0075}'],
        ),
        6 => (
            Vowel { height: VowelHeight::Close, backness: VowelBackness::Back, roundedness: VowelRoundedness::Unrounded },
            vec!['\u{026F}'],
        ),
        7 => (
            Vowel { height: VowelHeight::Close, backness: VowelBackness::Central, roundedness: VowelRoundedness::Rounded },
            vec!['\u{0289}'],
        ),
        8 => (
            Vowel { height: VowelHeight::Close, backness: VowelBackness::Central, roundedness: VowelRoundedness::Unrounded },
            vec!['\u{0268}'],
        ),
        9 => (
            Vowel { height: VowelHeight::Close, backness: VowelBackness::Front, roundedness: VowelRoundedness::Rounded },
            vec!['\u{0079}'],
        ),
        10 => (
            Vowel { height: VowelHeight::Close, backness: VowelBackness::Front, roundedness: VowelRoundedness::Unrounded },
            vec!['\u{0069}'],
        ),
        11 => (
            Vowel { height: VowelHeight::NearClose, backness: VowelBackness::Back, roundedness: VowelRoundedness::Rounded },
            vec!['\u{028A}'],
        ),
        12 => (
            Vowel { height: VowelHeight::NearClose, backness: VowelBackness::Front, roundedness: VowelRoundedness::Rounded },
            vec!['\u{028F}'],
        ),
        13 => (
            Vowel { height: VowelHeight::NearClose, backness: VowelBackness::Front, roundedness: VowelRoundedness::Unrounded },
            vec!['\u{026A}'],
        ),
        14 => (
            Vowel { height: VowelHeight::CloseMid, backness: VowelBackness::Back, roundedness: VowelRoundedness::Rounded },
            vec!['\u{006F}'],
        ),
        15 => (
            Vowel { height: VowelHeight::CloseMid, backness: VowelBackness::Back, roundedness: VowelRoundedness::Unrounded },
            vec!['\u{0264}'],
        ),
        16 => (
            Vowel { height: VowelHeight::CloseMid, backness: VowelBackness::Central, roundedness: VowelRoundedness::Rounded },
            vec!['\u{0275}'],
        ),
        17 => (
            Vowel { height: VowelHeight::CloseMid, backness: VowelBackness::Central, roundedness: VowelRoundedness::Unrounded },
            vec!['\u{0258}'],
        ),
        18 => (
            Vowel { height: VowelHeight::CloseMid, backness: VowelBackness::Front, roundedness: VowelRoundedness::Rounded },
            vec!['\u{00F8}'],
        ),
        19 => (
            Vowel { height: VowelHeight::CloseMid, backness: VowelBackness::Front, roundedness: VowelRoundedness::Unrounded },
            vec!['\u{0065}'],
        ),
        20 => (
            Vowel { height: VowelHeight::OpenMid, backness: VowelBackness::Front, roundedness: VowelRoundedness::Rounded },
            vec!['\u{0153}'],
        ),
        21 => (
            Vowel { height: VowelHeight::OpenMid, backness: VowelBackness::Front, roundedness: VowelRoundedness::Unrounded },
            vec!['\u{025B}'],
        ),
        22 => (
            Vowel { height: VowelHeight::OpenMid, backness: VowelBackness::Central, roundedness: VowelRoundedness::Rounded },
            vec!['\u{025E}'],
        ),
        23 => (
            Vowel { height: VowelHeight::OpenMid, backness: VowelBackness::Central, roundedness: VowelRoundedness::Unrounded },
            vec!['\u{025C}'],
        ),
        24 => (
            Vowel { height: VowelHeight::OpenMid, backness: VowelBackness::Back, roundedness: VowelRoundedness::Rounded },
            vec!['\u{0254}'],
        ),
        25 => (
            Vowel { height: VowelHeight::OpenMid, backness: VowelBackness::Back, roundedness: VowelRoundedness::Unrounded },
            vec!['\u{028C}'],
        ),
        26 => (
            Vowel { height: VowelHeight::Mid, backness: VowelBackness::Central, roundedness: VowelRoundedness::Unrounded },
            vec!['\u{0259}'],
        ),
        27 => (
            Vowel { height: VowelHeight::NearOpen, backness: VowelBackness::Central, roundedness: VowelRoundedness::Unrounded },
            vec!['\u{0250}'],
        ),
        28 => (
            Vowel { height: VowelHeight::NearOpen, backness: VowelBackness::Front, roundedness: VowelRoundedness::Unrounded },
            vec!['\u{00E6}'],
        ),
        29 => (
            Vowel { height: VowelHeight::Open, backness: VowelBackness::Back, roundedness: VowelRoundedness::Rounded },
            vec!['\u{0252}'],
        ),
        30 => (
            Vowel { height: VowelHeight::Open, backness: VowelBackness::Back, roundedness: VowelRoundedness::Unrounded },
            vec!['\u{0251}'],
        ),
        31 => (
            Vowel { height: VowelHeight::Open, backness: VowelBackness::Front, roundedness: VowelRoundedness::Rounded },
            vec!['\u{0276}'],
        ),
        _ => (
            Vowel { height: VowelHeight::Open, backness: VowelBackness::Front, roundedness: VowelRoundedness::Unrounded },
            vec!['\u{0061}'],
        ),
    }
}

/// Row `i` of the pulmonic consonant list: a consonant and the codepoints that write it.
pub open spec fn consonant_entry(i: usize) -> (PulmonicConsonant, Seq<char>) {
    match i {
        0 => (
            PulmonicConsonant { manner: PulmonicConsonantManner::NonSibilantFricative, place: ConsonantPlace::Postalveolar, voicing: ConsonantVoicing::Voiceless },
            seq!['\u{030A}', '\u{0279}', '\u{0331}', '\u{02D4}'],
        ),
        1 => (
            PulmonicConsonant { manner: PulmonicConsonantManner::NonSibilantFricative, place: ConsonantPlace::Retroflex, voicing: ConsonantVoicing::Voiceless },
            seq!['\u{027B}', '\u{030A}', '\u{02D4}'],
        ),
        2 => (
            PulmonicConsonant { manner: PulmonicConsonantManner::NonSibilantFricative, place: ConsonantPlace::Postalveolar, voicing: ConsonantVoicing::Voiced },
            seq!['\u{0279}', '\u{0331}', '\u{02D4}'],
        ),
        3 => (
            PulmonicConsonant { manner: PulmonicConsonantManner::Nasal, place: ConsonantPlace::Bilabial, voicing: ConsonantVoicing::Voiceless },
            seq!['\u{006D}', '\u{0325}'],
        ),
        4 => (
            PulmonicConsonant { manner: PulmonicConsonantManner::Nasal, place: ConsonantPlace::Labiodental, voicing: ConsonantVoicing::Voiceless },
            seq!['\u{0271}', '\u{030A}'],
        ),
        5 => (
            PulmonicConsonant { manner: PulmonicConsonantManner::Nasal, place: ConsonantPlace::Linguolabial, voicing: ConsonantVoicing::Voiceless },
            seq!['\u{006E}', '\u{033C}'],
        ),
        6 => (
            PulmonicConsonant { manner: PulmonicConsonantManner::Nasal, place: ConsonantPlace::Aveolar, voicing: ConsonantVoicing::Voiceless },
            seq!['\u{006E}', '\u{0325}'],
        ),
        7 => (
            PulmonicConsonant { manner: PulmonicConsonantManner::Nasal, place: ConsonantPlace::Retroflex, voicing: ConsonantVoicing::Voiceless },
            seq!['\u{0273}', '\u{030A}'],
        ),
        8 => (
            PulmonicConsonant { manner: PulmonicConsonantManner::Nasal, place: ConsonantPlace::Palatal, voicing: ConsonantVoicing::Voiceless },
            seq!['\u{0272}', '\u{030A}'],
        ),
        9 => (
            PulmonicConsonant { manner: PulmonicConsonantManner::Nasal, place: ConsonantPlace::Velar, voicing: ConsonantVoicing::Voiceless },
            seq!['\u{014B}', '\u{030A}'],
        ),
        10 => (
            PulmonicConsonant { manner: PulmonicConsonantManner::Nasal, place: ConsonantPlace::Uvular, voicing: ConsonantVoicing::Voiceless },
            seq!['\u{0274}', '\u{0325}'],
        ),
        11 => (
            PulmonicConsonant { manner: PulmonicConsonantManner::Plosive, place: ConsonantPlace::Labiodental, voicing: ConsonantVoicing::Voiced },
            seq!['\u{0062}', '\u{032A}'],
        ),
        12 => (
            PulmonicConsonant { manner: PulmonicConsonantManner::Plosive, place: ConsonantPlace::Labiodental, voicing: ConsonantVoicing::Voiceless },
            seq!['\u{0070}', '\u{032A}'],
        ),
        13 => (
            PulmonicConsonant { manner: PulmonicConsonantManner::Plosive, place: ConsonantPlace::Linguolabial, voicing: ConsonantVoicing::Voiced },
            seq!['\u{0064}', '\u{033C}'],
        ),
        14 => (
            PulmonicConsonant { manner: PulmonicConsonantManner::Plosive, place: ConsonantPlace::Linguolabial, voicing: ConsonantVoicing::Voiceless },
            seq!['\u{0074}', '\u{033C}'],
        ),
        15 => (
            PulmonicConsonant { manner: PulmonicConsonantManner::NonSibilantFricative, place: ConsonantPlace::Linguolabial, voicing: ConsonantVoicing::Voiced },
            seq!['\u{00F0}', '\u{033C}'],
        ),
        16 => (
            PulmonicConsonant { manner: PulmonicConsonantManner::NonSibilantFricative, place: ConsonantPlace::Linguolabial, voicing: ConsonantVoicing::Voiceless },
            seq!['\u{033C}', '\u{03B8}'],
        ),
        17 => (
            PulmonicConsonant { manner: PulmonicConsonantManner::NonSibilantFricative, place: ConsonantPlace::Aveolar, voicing: ConsonantVoicing::Voiced },
            seq!['\u{00F0}', '\u{0331}'],
        ),
        18 => (
            PulmonicConsonant { manner: PulmonicConsonantManner::NonSibilantFricative, place: ConsonantPlace::Aveolar, voicing: ConsonantVoicing::Voiceless },
            seq!['\u{0331}', '\u{03B8}'],
        ),
        19 => (
            PulmonicConsonant { manner: PulmonicConsonantManner::NonSibilantFricative, place: ConsonantPlace::Retroflex, voicing: ConsonantVoicing::Voiced },
            seq!['\u{027B}', '\u{02D4}'],
        ),
        20 => (
            PulmonicConsonant { manner: PulmonicConsonantManner::Approximant, place: ConsonantPlace::Glottal, voicing: ConsonantVoicing::Voiced },
            seq!['\u{0294}', '\u{0330}'],
        ),
        21 => (
            PulmonicConsonant { manner: PulmonicConsonantManner::Nasal, place: ConsonantPlace::Bilabial, voicing: ConsonantVoicing::Voiced },
            seq!['\u{006D}'],
        ),
        22 => (
            PulmonicConsonant { manner: PulmonicConsonantManner::Nasal, place: ConsonantPlace::Labiodental, voicing: ConsonantVoicing::Voiced },
            seq!['\u{0271}'],
        ),
        23 => (
            PulmonicConsonant { manner: PulmonicConsonantManner::Nasal, place: ConsonantPlace::Aveolar, voicing: ConsonantVoicing::Voiced },
            seq!['\u{006E}'],
        ),
        24 => (
            PulmonicConsonant { manner: PulmonicConsonantManner::Nasal, place: ConsonantPlace::Retroflex, voicing: ConsonantVoicing::Voiced },
            seq!['\u{0273}'],
        ),
        25 => (
            PulmonicConsonant { manner: PulmonicConsonantManner::Nasal, place: ConsonantPlace::Palatal, voicing: ConsonantVoicing::Voiced },
            seq!['\u{0272}'],
        ),
        26 => (
            PulmonicConsonant { manner: PulmonicConsonantManner::Nasal, place: ConsonantPlace::Velar, voicing: ConsonantVoicing::Voiced },
            seq!['\u{014B}'],
        ),
        27 => (
            PulmonicConsonant { manner: PulmonicConsonantManner::Nasal, place: ConsonantPlace::Uvular, voicing: ConsonantVoicing::Voiced },
            seq!['\u{0274}'],
        ),
        28 => (
            PulmonicConsonant { manner: PulmonicConsonantManner::Plosive, place: ConsonantPlace::Bilabial, voicing: ConsonantVoicing::Voiced },
            seq!['\u{0062}'],
        ),
        29 => (
            PulmonicConsonant { manner: PulmonicConsonantManner::Plosive, place: ConsonantPlace::Bilabial, voicing: ConsonantVoicing::Voiceless },
            seq!['\u{0070}'],
        ),
        30 => (
            PulmonicConsonant { manner: PulmonicConsonantManner::Plosive, place: ConsonantPlace::Aveolar, voicing: ConsonantVoicing::Voiced },
            seq!['\u{0064}'],
        ),
        31 => (
            PulmonicConsonant { manner: PulmonicConsonantManner::Plosive, place: ConsonantPlace::Aveolar, voicing: ConsonantVoicing::Voiceless },
            seq!['\u{0074}'],
        ),
        32 => (
            PulmonicConsonant { manner: PulmonicConsonantManner::Plosive, place: ConsonantPlace::Retroflex, voicing: ConsonantVoicing::Voiced },
            seq!['\u{0256}'],
        ),
        33 => (
            PulmonicConsonant { manner: PulmonicConsonantManner::Plosive, place: ConsonantPlace::Retroflex, voicing: ConsonantVoicing::Voiceless },
            seq!['\u{0288}'],
        ),
        34 => (
            PulmonicConsonant { manner: PulmonicConsonantManner::Plosive, place: ConsonantPlace::Palatal, voicing: ConsonantVoicing::Voiced },
            seq!['\u{025F}'],
        ),
        35 => (
            PulmonicConsonant { manner: PulmonicConsonantManner::Plosive, place: ConsonantPlace::Palatal, voicing: ConsonantVoicing::Voiceless },
            seq!['\u{0063}'],
        ),
        36 => (
            PulmonicConsonant { manner: PulmonicConsonantManner::Plosive, place: ConsonantPlace::Velar, voicing: ConsonantVoicing::Voiced },
            seq!['\u{0261}'],
        ),
        37 => (
            PulmonicConsonant { manner: PulmonicConsonantManner::Plosive, place: ConsonantPlace::Velar, voicing: ConsonantVoicing::Voiceless },
            seq!['\u{006B}'],
        ),
        38 => (
            PulmonicConsonant { manner: PulmonicConsonantManner::Tap, place: ConsonantPlace::Uvular, voicing: ConsonantVoicing::Voiced },
            seq!['\u{0262}', '\u{0306}'],
        ),
        39 => (
            PulmonicConsonant { manner: PulmonicConsonantManner::Plosive, place: ConsonantPlace::Uvular, voicing: ConsonantVoicing::Voiced },
            seq!['\u{0262}'],
        ),
        40 => (
            PulmonicConsonant { manner: PulmonicConsonantManner::Plosive, place: ConsonantPlace::Uvular, voicing: ConsonantVoicing::Voiceless },
            seq!['\u{0071}'],
        ),
        41 => (
            PulmonicConsonant { manner: PulmonicConsonantManner::Tap, place: ConsonantPlace::Pharyngeal, voicing: ConsonantVoicing::Voiced },
            seq!['\u{02A1}', '\u{0306}'],
        ),
        42 => (
            PulmonicConsonant { manner: PulmonicConsonantManner::Plosive, place: ConsonantPlace::Pharyngeal, voicing: ConsonantVoicing::Voiceless },
            seq!['\u{02A1}'],
        ),
        43 => (
            PulmonicConsonant { manner: PulmonicConsonantManner::Plosive, place: ConsonantPlace::Glottal, voicing: ConsonantVoicing::Voiceless },
            seq!['\u{0294}'],
        ),
        44 => (
            PulmonicConsonant { manner: PulmonicConsonantManner::SibilantFricative, place: ConsonantPlace::Aveolar, voicing: ConsonantVoicing::Voiced },
            seq!['\u{007A}'],
        ),
        45 => (
            PulmonicConsonant { manner: PulmonicConsonantManner::SibilantFricative, place: ConsonantPlace::Aveolar, voicing: ConsonantVoicing::Voiceless },
            seq!['\u{0073}'],
        ),
        46 => (
            PulmonicConsonant { manner: PulmonicConsonantManner::SibilantFricative, place: ConsonantPlace::Postalveolar, voicing: ConsonantVoicing::Voiced },
            seq!['\u{0292}'],
        ),
        47 => (
            PulmonicConsonant { manner: PulmonicConsonantManner::SibilantFricative, place: ConsonantPlace::Postalveolar, voicing: ConsonantVoicing::Voiceless },
            seq!['\u{0283}'],
        ),
        48 => (
            PulmonicConsonant { manner: PulmonicConsonantManner::SibilantFricative, place: ConsonantPlace::Retroflex, voicing: ConsonantVoicing::Voiced },
            seq!['\u{0290}'],
        ),
        49 => (
            PulmonicConsonant { manner: PulmonicConsonantManner::SibilantFricative, place: ConsonantPlace::Retroflex, voicing: ConsonantVoicing::Voiceless },
            seq!['\u{0282}'],
        ),
        50 => (
            PulmonicConsonant { manner: PulmonicConsonantManner::SibilantFricative, place: ConsonantPlace::Palatal, voicing: ConsonantVoicing::Voiced },
            seq!['\u{0291}'],
        ),
        51 => (
            PulmonicConsonant { manner: PulmonicConsonantManner::SibilantFricative, place: ConsonantPlace::Palatal, voicing: ConsonantVoicing::Voiceless },
            seq!['\u{0255}'],
        ),
        52 => (
            PulmonicConsonant { manner: PulmonicConsonantManner::NonSibilantFricative, place: ConsonantPlace::Bilabial, voicing: ConsonantVoicing::Voiced },
            seq!['\u{03B2}'],
        ),
        53 => (
            PulmonicConsonant { manner: PulmonicConsonantManner::NonSibilantFricative, place: ConsonantPlace::Bilabial, voicing: ConsonantVoicing::Voiceless },
            seq!['\u{0278}'],
        ),
        54 => (
            PulmonicConsonant { manner: PulmonicConsonantManner::NonSibilantFricative, place: ConsonantPlace::Labiodental, voicing: ConsonantVoicing::Voiced },
            seq!['\u{0076}'],
        ),
        55 => (
            PulmonicConsonant { manner: PulmonicConsonantManner::NonSibilantFricative, place: ConsonantPlace::Labiodental, voicing: ConsonantVoicing::Voiceless },
            seq!['\u{0066}'],
        ),
        56 => (
            PulmonicConsonant { manner: PulmonicConsonantManner::NonSibilantFricative, place: ConsonantPlace::Dental, voicing: ConsonantVoicing::Voiced },
            seq!['\u{00F0}'],
        ),
        57 => (
            PulmonicConsonant { manner: PulmonicConsonantManner::NonSibilantFricative, place: ConsonantPlace::Dental, voicing: ConsonantVoicing::Voiceless },
            seq!['\u{03B8}'],
        ),
        58 => (
            PulmonicConsonant { manner: PulmonicConsonantManner::NonSibilantFricative, place: ConsonantPlace::Palatal, voicing: ConsonantVoicing::Voiced },
            seq!['\u{029D}'],
        ),
        59 => (
            PulmonicConsonant { manner: PulmonicConsonantManner::NonSibilantFricative, place: ConsonantPlace::Palatal, voicing: ConsonantVoicing::Voiceless },
            seq!['\u{00E7}'],
        ),
        60 => (
            PulmonicConsonant { manner: PulmonicConsonantManner::NonSibilantFricative, place: ConsonantPlace::Velar, voicing: ConsonantVoicing::Voiced },
            seq!['\u{0263}'],
        ),
        61 => (
            PulmonicConsonant { manner: PulmonicConsonantManner::NonSibilantFricative, place: ConsonantPlace::Velar, voicing: ConsonantVoicing::Voiceless },
            seq!['\u{0078}'],
        ),
        62 => (
            PulmonicConsonant { manner: PulmonicConsonantManner::NonSibilantFricative, place: ConsonantPlace::Uvular, voicing: ConsonantVoicing::Voiced },
            seq!['\u{0281}'],
        ),
        63 => (
            PulmonicConsonant { manner: PulmonicConsonantManner::NonSibilantFricative, place: ConsonantPlace::Uvular, voicing: ConsonantVoicing::Voiceless },
            seq!['\u{03C7}'],
        ),
        64 => (
            PulmonicConsonant { manner: PulmonicConsonantManner::NonSibilantFricative, place: ConsonantPlace::Pharyngeal, voicing: ConsonantVoicing::Voiced },
            seq!['\u{0295}'],
        ),
        65 => (
            PulmonicConsonant { manner: PulmonicConsonantManner::NonSibilantFricative, place: ConsonantPlace::Pharyngeal, voicing: ConsonantVoicing::Voiceless },
            seq!['\u{0127}'],
        ),
        66 => (
            PulmonicConsonant { manner: PulmonicConsonantManner::NonSibilantFricative, place: ConsonantPlace::Glottal, voicing: ConsonantVoicing::Voiced },
            seq!['\u{0266}'],
        ),
        67 => (
            PulmonicConsonant { manner: PulmonicConsonantManner::NonSibilantFricative, place: ConsonantPlace::Glottal, voicing: ConsonantVoicing::Voiceless },
            seq!['\u{0068}'],
        ),
        68 => (
            PulmonicConsonant { manner: PulmonicConsonantManner::Approximant, place: ConsonantPlace::Labiodental, voicing: ConsonantVoicing::Voiced },
            seq!['\u{028B}'],
        ),
        69 => (
            PulmonicConsonant { manner: PulmonicConsonantManner::Approximant, place: ConsonantPlace::Aveolar, voicing: ConsonantVoicing::Voiced },
            seq!['\u{0279}'],
        ),
        70 => (
            PulmonicConsonant { manner: PulmonicConsonantManner::Approximant, place: ConsonantPlace::Retroflex, voicing: ConsonantVoicing::Voiced },
            seq!['\u{027B}'],
        ),
        71 => (
            PulmonicConsonant { manner: PulmonicConsonantManner::Approximant, place: ConsonantPlace::Palatal, voicing: ConsonantVoicing::Voiced },
            seq!['\u{006A}'],
        ),
        72 => (
            PulmonicConsonant { manner: PulmonicConsonantManner::Approximant, place: ConsonantPlace::Velar, voicing: ConsonantVoicing::Voiced },
            seq!['\u{0270}'],
        ),
        73 => (
            PulmonicConsonant { manner: PulmonicConsonantManner::Tap, place: ConsonantPlace::Bilabial, voicing: ConsonantVoicing::Voiced },
            seq!['\u{2C71}', '\u{031F}'],
        ),
        74 => (
            PulmonicConsonant { manner: PulmonicConsonantManner::Tap, place: ConsonantPlace::Labiodental, voicing: ConsonantVoicing::Voiced },
            seq!['\u{2C71}'],
        ),
        75 => (
            PulmonicConsonant { manner: PulmonicConsonantManner::Tap, place: ConsonantPlace::Linguolabial, voicing: ConsonantVoicing::Voiced },
            seq!['\u{027E}', '\u{033C}'],
        ),
        76 => (
            PulmonicConsonant { manner: PulmonicConsonantManner::Tap, place: ConsonantPlace::Aveolar, voicing: ConsonantVoicing::Voiceless },
            seq!['\u{027E}', '\u{0325}'],
        ),
        77 => (
            PulmonicConsonant { manner: PulmonicConsonantManner::Tap, place: ConsonantPlace::Aveolar, voicing: ConsonantVoicing::Voiced },
            seq!['\u{027E}'],
        ),
        78 => (
            PulmonicConsonant { manner: PulmonicConsonantManner::Trill, place: ConsonantPlace::Retroflex, voicing: ConsonantVoicing::Voiceless },
            seq!['\u{027D}', '\u{030A}', '\u{0072}', '\u{0325}'],
        ),
        79 => (
            PulmonicConsonant { manner: PulmonicConsonantManner::Tap, place: ConsonantPlace::Retroflex, voicing: ConsonantVoicing::Voiceless },
            seq!['\u{027D}', '\u{030A}'],
        ),
        80 => (
            PulmonicConsonant { manner: PulmonicConsonantManner::Trill, place: ConsonantPlace::Retroflex, voicing: ConsonantVoicing::Voiced },
            seq!['\u{027D}', '\u{0072}'],
        ),
        81 => (
            PulmonicConsonant { manner: PulmonicConsonantManner::Tap, place: ConsonantPlace::Retroflex, voicing: ConsonantVoicing::Voiced },
            seq!['\u{027D}'],
        ),
        82 => (
            PulmonicConsonant { manner: PulmonicConsonantManner::Trill, place: ConsonantPlace::Bilabial, voicing: ConsonantVoicing::Voiceless },
            seq!['\u{0299}', '\u{0325}'],
        ),
        83 => (
            PulmonicConsonant { manner: PulmonicConsonantManner::Trill, place: ConsonantPlace::Bilabial, voicing: ConsonantVoicing::Voiced },
            seq!['\u{0299}'],
        ),
        84 => (
            PulmonicConsonant { manner: PulmonicConsonantManner::Trill, place: ConsonantPlace::Aveolar, voicing: ConsonantVoicing::Voiceless },
            seq!['\u{0072}', '\u{0325}'],
        ),
        85 => (
            PulmonicConsonant { manner: PulmonicConsonantManner::Trill, place: ConsonantPlace::Aveolar, voicing: ConsonantVoicing::Voiced },
            seq!['\u{0072}'],
        ),
        86 => (
            PulmonicConsonant { manner: PulmonicConsonantManner::Trill, place: ConsonantPlace::Uvular, voicing: ConsonantVoicing::Voiceless },
            seq!['\u{0280}', '\u{0325}'],
        ),
        87 => (
            PulmonicConsonant { manner: PulmonicConsonantManner::Trill, place: ConsonantPlace::Uvular, voicing: ConsonantVoicing::Voiced },
            seq!['\u{0280}'],
        ),
        88 => (
            PulmonicConsonant { manner: PulmonicConsonantManner::Trill, place: ConsonantPlace::Pharyngeal, voicing: ConsonantVoicing::Voiced },
            seq!['\u{02A2}'],
        ),
        89 => (
            PulmonicConsonant { manner: PulmonicConsonantManner::Trill, place: ConsonantPlace::Pharyngeal, voicing: ConsonantVoicing::Voiceless },
            seq!['\u{029C}'],
        ),
        90 => (
            PulmonicConsonant { manner: PulmonicConsonantManner::LateralFricative, place: ConsonantPlace::Aveolar, voicing: ConsonantVoicing::Voiced },
            seq!['\u{026E}'],
        ),
        91 => (
            PulmonicConsonant { manner: PulmonicConsonantManner::LateralFricative, place: ConsonantPlace::Aveolar, voicing: ConsonantVoicing::Voiceless },
            seq!['\u{026C}'],
        ),
        92 => (
            PulmonicConsonant { manner: PulmonicConsonantManner::LateralFricative, place: ConsonantPlace::Retroflex, voicing: ConsonantVoicing::Voiced },
            seq!['\u{1DF05}'],
        ),
        93 => (
            PulmonicConsonant { manner: PulmonicConsonantManner::LateralFricative, place: ConsonantPlace::Retroflex, voicing: ConsonantVoicing::Voiceless },
            seq!['\u{A78E}'],
        ),
        94 => (
            PulmonicConsonant { manner: PulmonicConsonantManner::LateralFricative, place: ConsonantPlace::Palatal, voicing: ConsonantVoicing::Voiced },
            seq!['\u{028E}', '\u{031D}'],
        ),
        95 => (
            PulmonicConsonant { manner: PulmonicConsonantManner::LateralFricative, place: ConsonantPlace::Palatal, voicing: ConsonantVoicing::Voiceless },
            seq!['\u{1DF06}'],
        ),
        96 => (
            PulmonicConsonant { manner: PulmonicConsonantManner::LateralFricative, place: ConsonantPlace::Velar, voicing: ConsonantVoicing::Voiced },
            seq!['\u{029F}', '\u{031D}'],
        ),
        97 => (
            PulmonicConsonant { manner: PulmonicConsonantManner::LateralFricative, place: ConsonantPlace::Velar, voicing: ConsonantVoicing::Voiceless },
            seq!['\u{1DF04}'],
        ),
        98 => (
            PulmonicConsonant { manner: PulmonicConsonantManner::LateralApproximant, place: ConsonantPlace::Aveolar, voicing: ConsonantVoicing::Voiced },
            seq!['\u{006C}'],
        ),
        99 => (
            PulmonicConsonant { manner: PulmonicConsonantManner::LateralApproximant, place: ConsonantPlace::Retroflex, voicing: ConsonantVoicing::Voiced },
            seq!['\u{026D}'],
        ),
        100 => (
            PulmonicConsonant { manner: PulmonicConsonantManner::LateralTap, place: ConsonantPlace::Palatal, voicing: ConsonantVoicing::Voiced },
            seq!['\u{028E}', '\u{0306}'],
        ),
        101 => (
            PulmonicConsonant { manner: PulmonicConsonantManner::LateralApproximant, place: ConsonantPlace::Palatal, voicing: ConsonantVoicing::Voiced },
            seq!['\u{028E}'],
        ),
        102 => (
            PulmonicConsonant { manner: PulmonicConsonantManner::LateralApproximant, place: ConsonantPlace::Uvular, voicing: ConsonantVoicing::Voiced },
            seq!['\u{029F}', '\u{0320}'],
        ),
        103 => (
            PulmonicConsonant { manner: PulmonicConsonantManner::LateralTap, place: ConsonantPlace::Velar, voicing: ConsonantVoicing::Voiced },
            seq!['\u{029F}', '\u{0306}'],
        ),
        104 => (
            PulmonicConsonant { manner: PulmonicConsonantManner::LateralApproximant, place: ConsonantPlace::Velar, voicing: ConsonantVoicing::Voiced },
            seq!['\u{029F}'],
        ),
        105 => (
            PulmonicConsonant { manner: PulmonicConsonantManner::LateralTap, place: ConsonantPlace::Aveolar, voicing: ConsonantVoicing::Voiceless },
            seq!['\u{027A}', '\u{0325}'],
        ),
        106 => (
            PulmonicConsonant { manner: PulmonicConsonantManner::LateralTap, place: ConsonantPlace::Aveolar, voicing: ConsonantVoicing::Voiced },
            seq!['\u{027A}'],
        ),
        107 => (
            PulmonicConsonant { manner: PulmonicConsonantManner::LateralTap, place: ConsonantPlace::Retroflex, voicing: ConsonantVoicing::Voiceless },
            seq!['\u{1DF08}', '\u{0325}'],
        ),
        _ => (
            PulmonicConsonant { manner: PulmonicConsonantManner::LateralTap, place: ConsonantPlace::Retroflex, voicing: ConsonantVoicing::Voiced },
            seq!['\u{1DF08}'],
        ),
    }
}

/// Row `i` of `consonant_entry`, built for lookup.
pub fn consonant_row(i: usize) -> (r: (PulmonicConsonant, Vec<char>))
    requires
        i < CONSONANT_COUNT,
    ensures
        r.0 == consonant_entry(i).0,
        r.1@ == consonant_entry(i).1,
{
    match i {
        0 => (
            PulmonicConsonant { manner: PulmonicConsonantManner::NonSibilantFricative, place: ConsonantPlace::Postalveolar, voicing: ConsonantVoicing::Voiceless },
            vec!['\u{030A}', '\u{0279}', '\u{0331}', '\u{02D4}'],
        ),
        1 => (
            PulmonicConsonant { manner: PulmonicConsonantManner::NonSibilantFricative, place: ConsonantPlace::Retroflex, voicing: ConsonantVoicing::Voiceless },
            vec!['\u{027B}', '\u{030A}', '\u{02D4}'],
        ),
        2 => (
            PulmonicConsonant { manner: PulmonicConsonantManner::NonSibilantFricative, place: ConsonantPlace::Postalveolar, voicing: ConsonantVoicing::Voiced },
            vec!['\u{0279}', '\u{0331}', '\u{02D4}'],
        ),
        3 => (
            PulmonicConsonant { manner: PulmonicConsonantManner::Nasal, place: ConsonantPlace::Bilabial, voicing: ConsonantVoicing::Voiceless },
            vec!['\u{006D}', '\u{0325}'],
        ),
        4 => (
            PulmonicConsonant { manner: PulmonicConsonantManner::Nasal, place: ConsonantPlace::Labiodental, voicing: ConsonantVoicing::Voiceless },
            vec!['\u{0271}', '\u{030A}'],
        ),
        5 => (
            PulmonicConsonant { manner: PulmonicConsonantManner::Nasal, place: ConsonantPlace::Linguolabial, voicing: ConsonantVoicing::Voiceless },
            vec!['\u{006E}', '\u{033C}'],
        ),
        6 => (
            PulmonicConsonant { manner: PulmonicConsonantManner::Nasal, place: ConsonantPlace::Aveolar, voicing: ConsonantVoicing::Voiceless },
            vec!['\u{006E}', '\u{0325}'],
        ),
        7 => (
            PulmonicConsonant { manner: PulmonicConsonantManner::Nasal, place: ConsonantPlace::Retroflex, voicing: ConsonantVoicing::Voiceless },
            vec!['\u{0273}', '\u{030A}'],
        ),
        8 => (
            PulmonicConsonant { manner: PulmonicConsonantManner::Nasal, place: ConsonantPlace::Palatal, voicing: ConsonantVoicing::Voiceless },
            vec!['\u{0272}', '\u{030A}'],
        ),
        9 => (
            PulmonicConsonant { manner: PulmonicConsonantManner::Nasal, place: ConsonantPlace::Velar, voicing: ConsonantVoicing::Voiceless },
            vec!['\u{014B}', '\u{030A}'],
        ),
        10 => (
            PulmonicConsonant { manner: PulmonicConsonantManner::Nasal, place: ConsonantPlace::Uvular, voicing: ConsonantVoicing::Voiceless },
            vec!['\u{0274}', '\u{0325}'],
        ),
        11 => (
            PulmonicConsonant { manner: PulmonicConsonantManner::Plosive, place: ConsonantPlace::Labiodental, voicing: ConsonantVoicing::Voiced },
            vec!['\u{0062}', '\u{032A}'],
        ),
        12 => (
            PulmonicConsonant { manner: PulmonicConsonantManner::Plosive, place: ConsonantPlace::Labiodental, voicing: ConsonantVoicing::Voiceless },
            vec!['\u{0070}', '\u{032A}'],
        ),
        13 => (
            PulmonicConsonant { manner: PulmonicConsonantManner::Plosive, place: ConsonantPlace::Linguolabial, voicing: ConsonantVoicing::Voiced },
            vec!['\u{0064}', '\u{033C}'],
        ),
        14 => (
            PulmonicConsonant { manner: PulmonicConsonantManner::Plosive, place: ConsonantPlace::Linguolabial, voicing: ConsonantVoicing::Voiceless },
            vec!['\u{0074}', '\u{033C}'],
        ),
        15 => (
            PulmonicConsonant { manner: PulmonicConsonantManner::NonSibilantFricative, place: ConsonantPlace::Linguolabial, voicing: ConsonantVoicing::Voiced },
            vec!['\u{00F0}', '\u{033C}'],
        ),
        16 => (
            PulmonicConsonant { manner: PulmonicConsonantManner::NonSibilantFricative, place: ConsonantPlace::Linguolabial, voicing: ConsonantVoicing::Voiceless },
            vec!['\u{033C}', '\u{03B8}'],
        ),
        17 => (
            PulmonicConsonant { manner: PulmonicConsonantManner::NonSibilantFricative, place: ConsonantPlace::Aveolar, voicing: ConsonantVoicing::Voiced },
            vec!['\u{00F0}', '\u{0331}'],
        ),
        18 => (
            PulmonicConsonant { manner: PulmonicConsonantManner::NonSibilantFricative, place: ConsonantPlace::Aveolar, voicing: ConsonantVoicing::Voiceless },
            vec!['\u{0331}', '\u{03B8}'],
        ),
        19 => (
            PulmonicConsonant { manner: PulmonicConsonantManner::NonSibilantFricative, place: ConsonantPlace::Retroflex, voicing: ConsonantVoicing::Voiced },
            vec!['\u{027B}', '\u{02D4}'],
        ),
        20 => (
            PulmonicConsonant { manner: PulmonicConsonantManner::Approximant, place: ConsonantPlace::Glottal, voicing: ConsonantVoicing::Voiced },
            vec!['\u{0294}', '\u{0330}'],
        ),
        21 => (
            PulmonicConsonant { manner: PulmonicConsonantManner::Nasal, place: ConsonantPlace::Bilabial, voicing: ConsonantVoicing::Voiced },
            vec!['\u{006D}'],
        ),
        22 => (
            PulmonicConsonant { manner: PulmonicConsonantManner::Nasal, place: ConsonantPlace::Labiodental, voicing: ConsonantVoicing::Voiced },
            vec!['\u{0271}'],
        ),
        23 => (
            PulmonicConsonant { manner: PulmonicConsonantManner::Nasal, place: ConsonantPlace::Aveolar, voicing: ConsonantVoicing::Voiced },
            vec!['\u{006E}'],
        ),
        24 => (
            PulmonicConsonant { manner: PulmonicConsonantManner::Nasal, place: ConsonantPlace::Retroflex, voicing: ConsonantVoicing::Voiced },
            vec!['\u{0273}'],
        ),
        25 => (
            PulmonicConsonant { manner: PulmonicConsonantManner::Nasal, place: ConsonantPlace::Palatal, voicing: ConsonantVoicing::Voiced },
            vec!['\u{0272}'],
        ),
        26 => (
            PulmonicConsonant { manner: PulmonicConsonantManner::Nasal, place: ConsonantPlace::Velar, voicing: ConsonantVoicing::Voiced },
            vec!['\u{014B}'],
        ),
        27 => (
            PulmonicConsonant { manner: PulmonicConsonantManner::Nasal, place: ConsonantPlace::Uvular, voicing: ConsonantVoicing::Voiced },
            vec!['\u{0274}'],
        ),
        28 => (
            PulmonicConsonant { manner: PulmonicConsonantManner::Plosive, place: ConsonantPlace::Bilabial, voicing: ConsonantVoicing::Voiced },
            vec!['\u{0062}'],
        ),
        29 => (
            PulmonicConsonant { manner: PulmonicConsonantManner::Plosive, place: ConsonantPlace::Bilabial, voicing: ConsonantVoicing::Voiceless },
            vec!['\u{0070}'],
        ),
        30 => (
            PulmonicConsonant { manner: PulmonicConsonantManner::Plosive, place: ConsonantPlace::Aveolar, voicing: ConsonantVoicing::Voiced },
            vec!['\u{0064}'],
        ),
        31 => (
            PulmonicConsonant { manner: PulmonicConsonantManner::Plosive, place: ConsonantPlace::Aveolar, voicing: ConsonantVoicing::Voiceless },
            vec!['\u{0074}'],
        ),
        32 => (
            PulmonicConsonant { manner: PulmonicConsonantManner::Plosive, place: ConsonantPlace::Retroflex, voicing: ConsonantVoicing::Voiced },
            vec!['\u{0256}'],
        ),
        33 => (
            PulmonicConsonant { manner: PulmonicConsonantManner::Plosive, place: ConsonantPlace::Retroflex, voicing: ConsonantVoicing::Voiceless },
            vec!['\u{0288}'],
        ),
        34 => (
            PulmonicConsonant { manner: PulmonicConsonantManner::Plosive, place: ConsonantPlace::Palatal, voicing: ConsonantVoicing::Voiced },
            vec!['\u{025F}'],
        ),
        35 => (
            PulmonicConsonant { manner: PulmonicConsonantManner::Plosive, place: ConsonantPlace::Palatal, voicing: ConsonantVoicing::Voiceless },
            vec!['\u{0063}'],
        ),
        36 => (
            PulmonicConsonant { manner: PulmonicConsonantManner::Plosive, place: ConsonantPlace::Velar, voicing: ConsonantVoicing::Voiced },
            vec!['\u{0261}'],
        ),
        37 => (
            PulmonicConsonant { manner: PulmonicConsonantManner::Plosive, place: ConsonantPlace::Velar, voicing: ConsonantVoicing::Voiceless },
            vec!['\u{006B}'],
        ),
        38 => (
            PulmonicConsonant { manner: PulmonicConsonantManner::Tap, place: ConsonantPlace::Uvular, voicing: ConsonantVoicing::Voiced },
            vec!['\u{0262}', '\u{0306}'],
        ),
        39 => (
            PulmonicConsonant { manner: PulmonicConsonantManner::Plosive, place: ConsonantPlace::Uvular, voicing: ConsonantVoicing::Voiced },
            vec!['\u{0262}'],
        ),
        40 => (
            PulmonicConsonant { manner: PulmonicConsonantManner::Plosive, place: ConsonantPlace::Uvular, voicing: ConsonantVoicing::Voiceless },
            vec!['\u{0071}'],
        ),
        41 => (
            PulmonicConsonant { manner: PulmonicConsonantManner::Tap, place: ConsonantPlace::Pharyngeal, voicing: ConsonantVoicing::Voiced },
            vec!['\u{02A1}', '\u{0306}'],
        ),
        42 => (
            PulmonicConsonant { manner: PulmonicConsonantManner::Plosive, place: ConsonantPlace::Pharyngeal, voicing: ConsonantVoicing::Voiceless },
            vec!['\u{02A1}'],
        ),
        43 => (
            PulmonicConsonant { manner: PulmonicConsonantManner::Plosive, place: ConsonantPlace::Glottal, voicing: ConsonantVoicing::Voiceless },
            vec!['\u{0294}'],
        ),
        44 => (
            PulmonicConsonant { manner: PulmonicConsonantManner::SibilantFricative, place: ConsonantPlace::Aveolar, voicing: ConsonantVoicing::Voiced },
            vec!['\u{007A}'],
        ),
        45 => (
            PulmonicConsonant { manner: PulmonicConsonantManner::SibilantFricative, place: ConsonantPlace::Aveolar, voicing: ConsonantVoicing::Voiceless },
            vec!['\u{0073}'],
        ),
        46 => (
            PulmonicConsonant { manner: PulmonicConsonantManner::SibilantFricative, place: ConsonantPlace::Postalveolar, voicing: ConsonantVoicing::Voiced },
            vec!['\u{0292}'],
        ),
        47 => (
            PulmonicConsonant { manner: PulmonicConsonantManner::SibilantFricative, place: ConsonantPlace::Postalveolar, voicing: ConsonantVoicing::Voiceless },
            vec!['\u{0283}'],
        ),
        48 => (
            PulmonicConsonant { manner: PulmonicConsonantManner::SibilantFricative, place: ConsonantPlace::Retroflex, voicing: ConsonantVoicing::Voiced },
            vec!['\u{0290}'],
        ),
        49 => (
            PulmonicConsonant { manner: PulmonicConsonantManner::SibilantFricative, place: ConsonantPlace::Retroflex, voicing: ConsonantVoicing::Voiceless },
            vec!['\u{0282}'],
        ),
        50 => (
            PulmonicConsonant { manner: PulmonicConsonantManner::SibilantFricative, place: ConsonantPlace::Palatal, voicing: ConsonantVoicing::Voiced },
            vec!['\u{0291}'],
        ),
        51 => (
            PulmonicConsonant { manner: PulmonicConsonantManner::SibilantFricative, place: ConsonantPlace::Palatal, voicing: ConsonantVoicing::Voiceless },
            vec!['\u{0255}'],
        ),
        52 => (
            PulmonicConsonant { manner: PulmonicConsonantManner::NonSibilantFricative, place: ConsonantPlace::Bilabial, voicing: ConsonantVoicing::Voiced },
            vec!['\u{03B2}'],
        ),
        53 => (
            PulmonicConsonant { manner: PulmonicConsonantManner::NonSibilantFricative, place: ConsonantPlace::Bilabial, voicing: ConsonantVoicing::Voiceless },
            vec!['\u{0278}'],
        ),
        54 => (
            PulmonicConsonant { manner: PulmonicConsonantManner::NonSibilantFricative, place: ConsonantPlace::Labiodental, voicing: ConsonantVoicing::Voiced },
            vec!['\u{0076}'],
        ),
        55 => (
            PulmonicConsonant { manner: PulmonicConsonantManner::NonSibilantFricative, place: ConsonantPlace::Labiodental, voicing: ConsonantVoicing::Voiceless },
            vec!['\u{0066}'],
        ),
        56 => (
            PulmonicConsonant { manner: PulmonicConsonantManner::NonSibilantFricative, place: ConsonantPlace::Dental, voicing: ConsonantVoicing::Voiced },
            vec!['\u{00F0}'],
        ),
        57 => (
            PulmonicConsonant { manner: PulmonicConsonantManner::NonSibilantFricative, place: ConsonantPlace::Dental, voicing: ConsonantVoicing::Voiceless },
            vec!['\u{03B8}'],
        ),
        58 => (
            PulmonicConsonant { manner: PulmonicConsonantManner::NonSibilantFricative, place: ConsonantPlace::Palatal, voicing: ConsonantVoicing::Voiced },
            vec!['\u{029D}'],
        ),
        59 => (
            PulmonicConsonant { manner: PulmonicConsonantManner::NonSibilantFricative, place: ConsonantPlace::Palatal, voicing: ConsonantVoicing::Voiceless },
            vec!['\u{00E7}'],
        ),
        60 => (
            PulmonicConsonant { manner: PulmonicConsonantManner::NonSibilantFricative, place: ConsonantPlace::Velar, voicing: ConsonantVoicing::Voiced },
            vec!['\u{0263}'],
        ),
        61 => (
            PulmonicConsonant { manner: PulmonicConsonantManner::NonSibilantFricative, place: ConsonantPlace::Velar, voicing: ConsonantVoicing::Voiceless },
            vec!['\u{0078}'],
        ),
        62 => (
            PulmonicConsonant { manner: PulmonicConsonantManner::NonSibilantFricative, place: ConsonantPlace::Uvular, voicing: ConsonantVoicing::Voiced },
            vec!['\u{0281}'],
        ),
        63 => (
            PulmonicConsonant { manner: PulmonicConsonantManner::NonSibilantFricative, place: ConsonantPlace::Uvular, voicing: ConsonantVoicing::Voiceless },
            vec!['\u{03C7}'],
        ),
        64 => (
            PulmonicConsonant { manner: PulmonicConsonantManner::NonSibilantFricative, place: ConsonantPlace::Pharyngeal, voicing: ConsonantVoicing::Voiced },
            vec!['\u{0295}'],
        ),
        65 => (
            PulmonicConsonant { manner: PulmonicConsonantManner::NonSibilantFricative, place: ConsonantPlace::Pharyngeal, voicing: ConsonantVoicing::Voiceless },
            vec!['\u{0127}'],
        ),
        66 => (
            PulmonicConsonant { manner: PulmonicConsonantManner::NonSibilantFricative, place: ConsonantPlace::Glottal, voicing: ConsonantVoicing::Voiced },
            vec!['\u{0266}'],
        ),
        67 => (
            PulmonicConsonant { manner: PulmonicConsonantManner::NonSibilantFricative, place: ConsonantPlace::Glottal, voicing: ConsonantVoicing::Voiceless },
            vec!['\u{0068}'],
        ),
        68 => (
            PulmonicConsonant { manner: PulmonicConsonantManner::Approximant, place: ConsonantPlace::Labiodental, voicing: ConsonantVoicing::Voiced },
            vec!['\u{028B}'],
        ),
        69 => (
            PulmonicConsonant { manner: PulmonicConsonantManner::Approximant, place: ConsonantPlace::Aveolar, voicing: ConsonantVoicing::Voiced },
            vec!['\u{0279}'],
        ),
        70 => (
            PulmonicConsonant { manner: PulmonicConsonantManner::Approximant, place: ConsonantPlace::Retroflex, voicing: ConsonantVoicing::Voiced },
            vec!['\u{027B}'],
        ),
        71 => (
            PulmonicConsonant { manner: PulmonicConsonantManner::Approximant, place: ConsonantPlace::Palatal, voicing: ConsonantVoicing::Voiced },
            vec!['\u{006A}'],
        ),
        72 => (
            PulmonicConsonant { manner: PulmonicConsonantManner::Approximant, place: ConsonantPlace::Velar, voicing: ConsonantVoicing::Voiced },
            vec!['\u{0270}'],
        ),
        73 => (
            PulmonicConsonant { manner: PulmonicConsonantManner::Tap, place: ConsonantPlace::Bilabial, voicing: ConsonantVoicing::Voiced },
            vec!['\u{2C71}', '\u{031F}'],
        ),
        74 => (
            PulmonicConsonant { manner: PulmonicConsonantManner::Tap, place: ConsonantPlace::Labiodental, voicing: ConsonantVoicing::Voiced },
            vec!['\u{2C71}'],
        ),
        75 => (
            PulmonicConsonant { manner: PulmonicConsonantManner::Tap, place: ConsonantPlace::Linguolabial, voicing: ConsonantVoicing::Voiced },
            vec!['\u{027E}', '\u{033C}'],
        ),
        76 => (
            PulmonicConsonant { manner: PulmonicConsonantManner::Tap, place: ConsonantPlace::Aveolar, voicing: ConsonantVoicing::Voiceless },
            vec!['\u{027E}', '\u{0325}'],
        ),
        77 => (
            PulmonicConsonant { manner: PulmonicConsonantManner::Tap, place: ConsonantPlace::Aveolar, voicing: ConsonantVoicing::Voiced },
            vec!['\u{027E}'],
        ),
        78 => (
            PulmonicConsonant { manner: PulmonicConsonantManner::Trill, place: ConsonantPlace::Retroflex, voicing: ConsonantVoicing::Voiceless },
            vec!['\u{027D}', '\u{030A}', '\u{0072}', '\u{0325}'],
        ),
        79 => (
            PulmonicConsonant { manner: PulmonicConsonantManner::Tap, place: ConsonantPlace::Retroflex, voicing: ConsonantVoicing::Voiceless },
            vec!['\u{027D}', '\u{030A}'],
        ),
        80 => (
            PulmonicConsonant { manner: PulmonicConsonantManner::Trill, place: ConsonantPlace::Retroflex, voicing: ConsonantVoicing::Voiced },
            vec!['\u{027D}', '\u{0072}'],
        ),
        81 => (
            PulmonicConsonant { manner: PulmonicConsonantManner::Tap, place: ConsonantPlace::Retroflex, voicing: ConsonantVoicing::Voiced },
            vec!['\u{027D}'],
        ),
        82 => (
            PulmonicConsonant { manner: PulmonicConsonantManner::Trill, place: ConsonantPlace::Bilabial, voicing: ConsonantVoicing::Voiceless },
            vec!['\u{0299}', '\u{0325}'],
        ),
        83 => (
            PulmonicConsonant { manner: PulmonicConsonantManner::Trill, place: ConsonantPlace::Bilabial, voicing: ConsonantVoicing::Voiced },
            vec!['\u{0299}'],
        ),
        84 => (
            PulmonicConsonant { manner: PulmonicConsonantManner::Trill, place: ConsonantPlace::Aveolar, voicing: ConsonantVoicing::Voiceless },
            vec!['\u{0072}', '\u{0325}'],
        ),
        85 => (
            PulmonicConsonant { manner: PulmonicConsonantManner::Trill, place: ConsonantPlace::Aveolar, voicing: ConsonantVoicing::Voiced },
            vec!['\u{0072}'],
        ),
        86 => (
            PulmonicConsonant { manner: PulmonicConsonantManner::Trill, place: ConsonantPlace::Uvular, voicing: ConsonantVoicing::Voiceless },
            vec!['\u{0280}', '\u{0325}'],
        ),
        87 => (
            PulmonicConsonant { manner: PulmonicConsonantManner::Trill, place: ConsonantPlace::Uvular, voicing: ConsonantVoicing::Voiced },
            vec!['\u{0280}'],
        ),
        88 => (
            PulmonicConsonant { manner: PulmonicConsonantManner::Trill, place: ConsonantPlace::Pharyngeal, voicing: ConsonantVoicing::Voiced },
            vec!['\u{02A2}'],
        ),
        89 => (
            PulmonicConsonant { manner: PulmonicConsonantManner::Trill, place: ConsonantPlace::Pharyngeal, voicing: ConsonantVoicing::Voiceless },
            vec!['\u{029C}'],
        ),
        90 => (
            PulmonicConsonant { manner: PulmonicConsonantManner::LateralFricative, place: ConsonantPlace::Aveolar, voicing: ConsonantVoicing::Voiced },
            vec!['\u{026E}'],
        ),
        91 => (
            PulmonicConsonant { manner: PulmonicConsonantManner::LateralFricative, place: ConsonantPlace::Aveolar, voicing: ConsonantVoicing::Voiceless },
            vec!['\u{026C}'],
        ),
        92 => (
            PulmonicConsonant { manner: PulmonicConsonantManner::LateralFricative, place: ConsonantPlace::Retroflex, voicing: ConsonantVoicing::Voiced },
            vec!['\u{1DF05}'],
        ),
        93 => (
            PulmonicConsonant { manner: PulmonicConsonantManner::LateralFricative, place: ConsonantPlace::Retroflex, voicing: ConsonantVoicing::Voiceless },
            vec!['\u{A78E}'],
        ),
        94 => (
            PulmonicConsonant { manner: PulmonicConsonantManner::LateralFricative, place: ConsonantPlace::Palatal, voicing: ConsonantVoicing::Voiced },
            vec!['\u{028E}', '\u{031D}'],
        ),
        95 => (
            PulmonicConsonant { manner: PulmonicConsonantManner::LateralFricative, place: ConsonantPlace::Palatal, voicing: ConsonantVoicing::Voiceless },
            vec!['\u{1DF06}'],
        ),
        96 => (
            PulmonicConsonant { manner: PulmonicConsonantManner::LateralFricative, place: ConsonantPlace::Velar, voicing: ConsonantVoicing::Voiced },
            vec!['\u{029F}', '\u{031D}'],
        ),
        97 => (
            PulmonicConsonant { manner: PulmonicConsonantManner::LateralFricative, place: ConsonantPlace::Velar, voicing: ConsonantVoicing::Voiceless },
            vec!['\u{1DF04}'],
        ),
        98 => (
            PulmonicConsonant { manner: PulmonicConsonantManner::LateralApproximant, place: ConsonantPlace::Aveolar, voicing: ConsonantVoicing::Voiced },
            vec!['\u{006C}'],
        ),
        99 => (
            PulmonicConsonant { manner: PulmonicConsonantManner::LateralApproximant, place: ConsonantPlace::Retroflex, voicing: ConsonantVoicing::Voiced },
            vec!['\u{026D}'],
        ),
        100 => (
            PulmonicConsonant { manner: PulmonicConsonantManner::LateralTap, place: ConsonantPlace::Palatal, voicing: ConsonantVoicing::Voiced },
            vec!['\u{028E}', '\u{0306}'],
        ),
        101 => (
            PulmonicConsonant { manner: PulmonicConsonantManner::LateralApproximant, place: ConsonantPlace::Palatal, voicing: ConsonantVoicing::Voiced },
            vec!['\u{028E}'],
        ),
        102 => (
            PulmonicConsonant { manner: PulmonicConsonantManner::LateralApproximant, place: ConsonantPlace::Uvular, voicing: ConsonantVoicing::Voiced },
            vec!['\u{029F}', '\u{0320}'],
        ),
        103 => (
            PulmonicConsonant { manner: PulmonicConsonantManner::LateralTap, place: ConsonantPlace::Velar, voicing: ConsonantVoicing::Voiced },
            vec!['\u{029F}', '\u{0306}'],
        ),
        104 => (
            PulmonicConsonant { manner: PulmonicConsonantManner::LateralApproximant, place: ConsonantPlace::Velar, voicing: ConsonantVoicing::Voiced },
            vec!['\u{029F}'],
        ),
        105 => (
            PulmonicConsonant { manner: PulmonicConsonantManner::LateralTap, place: ConsonantPlace::Aveolar, voicing: ConsonantVoicing::Voiceless },
            vec!['\u{027A}', '\u{0325}'],
        ),
        106 => (
            PulmonicConsonant { manner: PulmonicConsonantManner::LateralTap, place: ConsonantPlace::Aveolar, voicing: ConsonantVoicing::Voiced },
            vec!['\u{027A}'],
        ),
        107 => (
            PulmonicConsonant { manner: PulmonicConsonantManner::LateralTap, place: ConsonantPlace::Retroflex, voicing: ConsonantVoicing::Voiceless },
            vec!['\u{1DF08}', '\u{0325}'],
        ),
        _ => (
            PulmonicConsonant { manner: PulmonicConsonantManner::LateralTap, place: ConsonantPlace::Retroflex, voicing: ConsonantVoicing::Voiced },
            vec!['\u{1DF08}'],
        ),
    }
}

/// Row `i` of the diacritic map: a codepoint and the diacritic it writes.
pub open spec fn diacritic_entry(i: usize) -> (char, Diacritic) {
    match i {
        0 => ('\u{0329}', Diacritic::Syllabic),
        1 => ('\u{030D}', Diacritic::Syllabic),
        2 => ('\u{032F}', Diacritic::NonSyllabic),
        3 => ('\u{0311}', Diacritic::NonSyllabic),
        4 => ('\u{02B0}', Diacritic::Aspirated),
        5 => ('\u{031A}', Diacritic::NoAudibleRelease),
        6 => ('\u{207F}', Diacritic::NasalRelease),
        7 => ('\u{02E1}', Diacritic::LateralRelease),
        8 => ('\u{1DBF}', Diacritic::VoicelessDentalFricativeRelease),
        9 => ('\u{02E3}', Diacritic::VoicelessVelarFricativeRelease),
        10 => ('\u{1D4A}', Diacritic::MidCentralVowelRelease),
        11 => ('\u{0325}', Diacritic::Voiceless),
        12 => ('\u{030A}', Diacritic::Voiceless),
        13 => ('\u{032C}', Diacritic::Voiced),
        14 => ('\u{0324}', Diacritic::BreathyVoiced),
        15 => ('\u{0330}', Diacritic::CreakyVoiced),
        16 => ('\u{032A}', Diacritic::Dental),
        17 => ('\u{0346}', Diacritic::Dental),
        18 => ('\u{033C}', Diacritic::Linguolabial),
        19 => ('\u{033A}', Diacritic::Apical),
        20 => ('\u{033B}', Diacritic::Laminal),
        21 => ('\u{031F}', Diacritic::Advanced),
        22 => ('\u{0320}', Diacritic::Retracted),
        23 => ('\u{0304}', Diacritic::Retracted),
        24 => ('\u{0308}', Diacritic::Centralized),
        25 => ('\u{033D}', Diacritic::MidCentralized),
        26 => ('\u{031D}', Diacritic::Raised),
        27 => ('\u{02D4}', Diacritic::Raised),
        28 => ('\u{031E}', Diacritic::Lowered),
        29 => ('\u{02D5}', Diacritic::Lowered),
        30 => ('\u{0339}', Diacritic::MoreRounded),
        31 => ('\u{0357}', Diacritic::MoreRounded),
        32 => ('\u{031C}', Diacritic::LessRounded),
        33 => ('\u{0351}', Diacritic::LessRounded),
        34 => ('\u{02B7}', Diacritic::Labialized),
        35 => ('\u{02B2}', Diacritic::Palatalized),
        36 => ('\u{02E0}', Diacritic::Velarized),
        37 => ('\u{0334}', Diacritic::VelarizedOrPharyngealized),
        38 => ('\u{02E4}', Diacritic::Pharyngealized),
        39 => ('\u{0318}', Diacritic::AdvancedTongueRoot),
        40 => ('\u{AB6A}', Diacritic::AdvancedTongueRoot),
        41 => ('\u{0319}', Diacritic::RetractedTongueRoot),
        42 => ('\u{AB6B}', Diacritic::RetractedTongueRoot),
        43 => ('\u{0303}', Diacritic::Nasalized),
        _ => ('\u{02DE}', Diacritic::Rhoticity),
    }
}

/// Row `i` of `diacritic_entry`, built for lookup.
pub fn diacritic_row(i: usize) -> (r: (char, Diacritic))
    requires
        i < DIACRITIC_COUNT,
    ensures
        r == diacritic_entry(i),
{
    match i {
        0 => ('\u{0329}', Diacritic::Syllabic),
        1 => ('\u{030D}', Diacritic::Syllabic),
        2 => ('\u{032F}', Diacritic::NonSyllabic),
        3 => ('\u{0311}', Diacritic::NonSyllabic),
        4 => ('\u{02B0}', Diacritic::Aspirated),
        5 => ('\u{031A}', Diacritic::NoAudibleRelease),
        6 => ('\u{207F}', Diacritic::NasalRelease),
        7 => ('\u{02E1}', Diacritic::LateralRelease),
        8 => ('\u{1DBF}', Diacritic::VoicelessDentalFricativeRelease),
        9 => ('\u{02E3}', Diacritic::VoicelessVelarFricativeRelease),
        10 => ('\u{1D4A}', Diacritic::MidCentralVowelRelease),
        11 => ('\u{0325}', Diacritic::Voiceless),
        12 => ('\u{030A}', Diacritic::Voiceless),
        13 => ('\u{032C}', Diacritic::Voiced),
        14 => ('\u{0324}', Diacritic::BreathyVoiced),
        15 => ('\u{0330}', Diacritic::CreakyVoiced),
        16 => ('\u{032A}', Diacritic::Dental),
        17 => ('\u{0346}', Diacritic::Dental),
        18 => ('\u{033C}', Diacritic::Linguolabial),
        19 => ('\u{033A}', Diacritic::Apical),
        20 => ('\u{033B}', Diacritic::Laminal),
        21 => ('\u{031F}', Diacritic::Advanced),
        22 => ('\u{0320}', Diacritic::Retracted),
        23 => ('\u{0304}', Diacritic::Retracted),
        24 => ('\u{0308}', Diacritic::Centralized),
        25 => ('\u{033D}', Diacritic::MidCentralized),
        26 => ('\u{031D}', Diacritic::Raised),
        27 => ('\u{02D4}', Diacritic::Raised),
        28 => ('\u{031E}', Diacritic::Lowered),
        29 => ('\u{02D5}', Diacritic::Lowered),
        30 => ('\u{0339}', Diacritic::MoreRounded),
        31 => ('\u{0357}', Diacritic::MoreRounded),
        32 => ('\u{031C}', Diacritic::LessRounded),
        33 => ('\u{0351}', Diacritic::LessRounded),
        34 => ('\u{02B7}', Diacritic::Labialized),
        35 => ('\u{02B2}', Diacritic::Palatalized),
        36 => ('\u{02E0}', Diacritic::Velarized),
        37 => ('\u{0334}', Diacritic::VelarizedOrPharyngealized),
        38 => ('\u{02E4}', Diacritic::Pharyngealized),
        39 => ('\u{0318}', Diacritic::AdvancedTongueRoot),
        40 => ('\u{AB6A}', Diacritic::AdvancedTongueRoot),
        41 => ('\u{0319}', Diacritic::RetractedTongueRoot),
        42 => ('\u{AB6B}', Diacritic::RetractedTongueRoot),
        43 => ('\u{0303}', Diacritic::Nasalized),
        _ => ('\u{02DE}', Diacritic::Rhoticity),
    }
}

/// Row `i` of the suprasegmental map: a codepoint and the marker it writes.
pub open spec fn suprasegmental_entry(i: usize) -> (char, SuprasegmentalView) {
    match i {
        0 => ('\u{02C8}', SuprasegmentalView::PrimaryStress),
        1 => ('\u{02CC}', SuprasegmentalView::SecondaryStress),
        2 => ('\u{02D0}', SuprasegmentalView::Long),
        3 => ('\u{02D1}', SuprasegmentalView::HalfLong),
        4 => ('\u{0306}', SuprasegmentalView::ExtraShort),
        5 => ('\u{002E}', SuprasegmentalView::SyllableBreak),
        6 => ('\u{203F}', SuprasegmentalView::Linking),
        7 => ('\u{007C}', SuprasegmentalView::MinorBreak),
        8 => ('\u{2016}', SuprasegmentalView::MajorBreak),
        9 => ('\u{2197}', SuprasegmentalView::GlobalRise),
        _ => ('\u{2198}', SuprasegmentalView::GlobalFall),
    }
}

/// Row `i` of `suprasegmental_entry`, built for lookup.
pub fn suprasegmental_row(i: usize) -> (r: (char, Suprasegmental))
    requires
        i < SUPRASEGMENTAL_COUNT,
    ensures
        r.0 == suprasegmental_entry(i).0,
        r.1@ == suprasegmental_entry(i).1,
{
    match i {
        0 => ('\u{02C8}', Suprasegmental::PrimaryStress),
        1 => ('\u{02CC}', Suprasegmental::SecondaryStress),
        2 => ('\u{02D0}', Suprasegmental::Long),
        3 => ('\u{02D1}', Suprasegmental::HalfLong),
        4 => ('\u{0306}', Suprasegmental::ExtraShort),
        5 => ('\u{002E}', Suprasegmental::SyllableBreak),
        6 => ('\u{203F}', Suprasegmental::Linking),
        7 => ('\u{007C}', Suprasegmental::MinorBreak),
        8 => ('\u{2016}', Suprasegmental::MajorBreak),
        9 => ('\u{2197}', Suprasegmental::GlobalRise),
        _ => ('\u{2198}', Suprasegmental::GlobalFall),
    }
}

/// Row `i` of the rewrites applied before lookup: a precomposed character
/// and the decomposed codepoints that stand for it.
pub open spec fn replacement_entry(i: usize) -> (char, Seq<char>) {
    match i {
        0 => ('\u{026B}', seq!['\u{006C}', '\u{02E0}']),
        1 => ('\u{025A}', seq!['\u{0259}', '\u{02DE}']),
        _ => ('\u{025D}', seq!['\u{025C}', '\u{02DE}']),
    }
}

/// Row `i` of `replacement_entry`, built for lookup.
pub fn replacement_row(i: usize) -> (r: (char, Vec<char>))
    requires
        i < REPLACEMENT_COUNT,
    ensures
        r.0 == replacement_entry(i).0,
        r.1@ == replacement_entry(i).1,
{
    match i {
        0 => ('\u{026B}', vec!['\u{006C}', '\u{02E0}']),
        1 => ('\u{025A}', vec!['\u{0259}', '\u{02DE}']),
        _ => ('\u{025D}', vec!['\u{025C}', '\u{02DE}']),
    }
}

} // verus!
