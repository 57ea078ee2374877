//! Phonetic transcriptions in the International Phonetic Alphabet: a symbol
//! table, a parser from text to typed letters, a syllabifier driven by a
//! language rule, and a matcher that groups syllables by their vowel nucleus.

pub mod convert;
pub mod english;
pub mod letter;
pub mod phoneme;
pub mod rhyme;
pub mod round_trip;
pub mod syllable;
pub mod symbols;
pub mod table;
pub mod text;
pub mod word;

pub use phoneme::{
    ChaoToneLetter, ChaoToneLetterHeight, ConsonantPlace, ConsonantVoicing, Diacritic, Letter,
    LetterType, PitchDiacritic, PulmonicConsonant, PulmonicConsonantManner, Suprasegmental, Vowel,
    VowelBackness, VowelHeight, VowelRoundedness,
};
pub use convert::{words_from_candidates, IpaConverter, IpaError};
pub use english::EnglishSyllableRule;
pub use letter::ParseError;
pub use rhyme::{calc_rhyme, RhymeGroup, RhymeMember};
pub use syllable::{syls_from_word, Syllable, SyllableRule};
pub use symbols::RenderError;
pub use word::Word;
