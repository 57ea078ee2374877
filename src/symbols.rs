//! Reading and writing single units through the symbol table.

use crate::phoneme::{
    Diacritic, PulmonicConsonant, Suprasegmental, SuprasegmentalView, Vowel,
};
use crate::table::{
    consonant_entry, consonant_row, diacritic_entry, diacritic_row, suprasegmental_entry,
    suprasegmental_row, vowel_entry, vowel_row, CONSONANT_COUNT, DIACRITIC_COUNT,
    SUPRASEGMENTAL_COUNT, VOWEL_COUNT,
};
use crate::text::{covers, has_all};
use vstd::prelude::*;

verus! {

/// A unit that is valid in memory but has no row in the symbol table.
#[derive(Clone, Copy, Debug, PartialEq, Eq, Structural)]
pub struct RenderError;

// ---- vowels ----

/// The first vowel row at or after `i` whose codepoints all occur in `g`.
pub open spec fn vowel_match_from(g: Seq<char>, i: usize) -> Option<usize>
    decreases VOWEL_COUNT - i,
{
    if i >= VOWEL_COUNT {
        None
    } else if covers(g, vowel_entry(i).1) {
        Some(i)
    } else {
        vowel_match_from(g, (i + 1) as usize)
    }
}

/// The vowel that the grapheme `g` writes, if any.
pub open spec fn parse_vowel(g: Seq<char>) -> Option<Vowel> {
    match vowel_match_from(g, 0) {
        Some(i) => Some(vowel_entry(i).0),
        None => None,
    }
}

/// The first vowel row at or after `i` that holds `v`.
pub open spec fn vowel_row_from(v: Vowel, i: usize) -> Option<usize>
    decreases VOWEL_COUNT - i,
{
    if i >= VOWEL_COUNT {
        None
    } else if vowel_entry(i).0 == v {
        Some(i)
    } else {
        vowel_row_from(v, (i + 1) as usize)
    }
}

/// The codepoints that write `v`, if the table has it.
pub open spec fn render_vowel(v: Vowel) -> Option<Seq<char>> {
    match vowel_row_from(v, 0) {
        Some(i) => Some(vowel_entry(i).1),
        None => None,
    }
}

impl Vowel {
    /// The row of the vowel list that reads the grapheme `g`: the first
    /// whose codepoints all occur in it.
    pub fn match_row(g: &Vec<char>) -> (r: Option<usize>)
        ensures
            r == vowel_match_from(g@, 0),
            r matches Some(i) ==> i < VOWEL_COUNT,
    {
        let mut i: usize = 0;
        while i < VOWEL_COUNT
            invariant
                vowel_match_from(g@, 0) == vowel_match_from(g@, i),
            decreases VOWEL_COUNT - i,
        {
            let row = vowel_row(i);
            if has_all(g, &row.1) {
                return Some(i);
            }
            i += 1;
        }
        None
    }

    /// Reads the vowel that the grapheme `g` writes.
    pub fn parse_chars(g: &Vec<char>) -> (r: Option<Vowel>)
        ensures
            r == parse_vowel(g@),
    {
        match Vowel::match_row(g) {
            Some(i) => Some(vowel_row(i).0),
            None => None,
        }
    }

    /// The codepoints that write this vowel.
    pub fn symbol(&self) -> (r: Option<Vec<char>>)
        ensures
            match r {
                Some(cs) => render_vowel(*self) == Some(cs@),
                None => render_vowel(*self) is None,
            },
    {
        let mut i: usize = 0;
        while i < VOWEL_COUNT
            invariant
                vowel_row_from(*self, 0) == vowel_row_from(*self, i),
            decreases VOWEL_COUNT - i,
        {
            let row = vowel_row(i);
            if row.0 == *self {
                return Some(row.1);
            }
            i += 1;
        }
        None
    }
}

// ---- pulmonic consonants ----

/// The first consonant row at or after `i` whose codepoints all occur in `g`.
pub open spec fn consonant_match_from(g: Seq<char>, i: usize) -> Option<usize>
    decreases CONSONANT_COUNT - i,
{
    if i >= CONSONANT_COUNT {
        None
    } else if covers(g, consonant_entry(i).1) {
        Some(i)
    } else {
        consonant_match_from(g, (i + 1) as usize)
    }
}

/// The pulmonic consonant that the grapheme `g` writes, if any.
pub open spec fn parse_consonant(g: Seq<char>) -> Option<PulmonicConsonant> {
    match consonant_match_from(g, 0) {
        Some(i) => Some(consonant_entry(i).0),
        None => None,
    }
}

/// The first consonant row at or after `i` that holds `c`.
pub open spec fn consonant_row_from(c: PulmonicConsonant, i: usize) -> Option<usize>
    decreases CONSONANT_COUNT - i,
{
    if i >= CONSONANT_COUNT {
        None
    } else if consonant_entry(i).0 == c {
        Some(i)
    } else {
        consonant_row_from(c, (i + 1) as usize)
    }
}

/// The codepoints that write `c`, if the table has it.
pub open spec fn render_consonant(c: PulmonicConsonant) -> Option<Seq<char>> {
    match consonant_row_from(c, 0) {
        Some(i) => Some(consonant_entry(i).1),
        None => None,
    }
}

impl PulmonicConsonant {
    /// The row of the pulmonic consonant list that reads the grapheme `g`: the first
    /// whose codepoints all occur in it.
    pub fn match_row(g: &Vec<char>) -> (r: Option<usize>)
        ensures
            r == consonant_match_from(g@, 0),
            r matches Some(i) ==> i < CONSONANT_COUNT,
    {
        let mut i: usize = 0;
        while i < CONSONANT_COUNT
            invariant
                consonant_match_from(g@, 0) == consonant_match_from(g@, i),
            decreases CONSONANT_COUNT - i,
        {
            let row = consonant_row(i);
            if has_all(g, &row.1) {
                return Some(i);
            }
            i += 1;
        }
        None
    }

    /// Reads the pulmonic consonant that the grapheme `g` writes.
    pub fn parse_chars(g: &Vec<char>) -> (r: Option<PulmonicConsonant>)
        ensures
            r == parse_consonant(g@),
    {
        match PulmonicConsonant::match_row(g) {
            Some(i) => Some(consonant_row(i).0),
            None => None,
        }
    }

    /// The codepoints that write this consonant.
    pub fn symbol(&self) -> (r: Option<Vec<char>>)
        ensures
            match r {
                Some(cs) => render_consonant(*self) == Some(cs@),
                None => render_consonant(*self) is None,
            },
    {
        let mut i: usize = 0;
        while i < CONSONANT_COUNT
            invariant
                consonant_row_from(*self, 0) == consonant_row_from(*self, i),
            decreases CONSONANT_COUNT - i,
        {
            let row = consonant_row(i);
            if row.0 == *self {
                return Some(row.1);
            }
            i += 1;
        }
        None
    }
}

// ---- suprasegmentals ----

/// The first suprasegmental row at or after `i` keyed by `c`.
pub open spec fn suprasegmental_row_of(c: char, i: usize) -> Option<usize>
    decreases SUPRASEGMENTAL_COUNT - i,
{
    if i >= SUPRASEGMENTAL_COUNT {
        None
    } else if suprasegmental_entry(i).0 == c {
        Some(i)
    } else {
        suprasegmental_row_of(c, (i + 1) as usize)
    }
}

/// The position of the first character of `g`, at or after `k`, that
/// keys a row of the suprasegmental map.
pub open spec fn suprasegmental_position(g: Seq<char>, k: int) -> Option<int>
    decreases g.len() - k,
{
    if k < 0 || k >= g.len() {
        None
    } else if suprasegmental_row_of(g[k], 0) is Some {
        Some(k)
    } else {
        suprasegmental_position(g, k + 1)
    }
}

/// The position that `suprasegmental_position` finds keys a row.
pub proof fn lemma_position_keyed(g: Seq<char>, k: int)
    ensures
        suprasegmental_position(g, k) matches Some(p) ==> 0 <= p < g.len()
            && suprasegmental_row_of(g[p], 0) is Some,
    decreases g.len() - k,
{
    if 0 <= k < g.len() && suprasegmental_row_of(g[k], 0) is None {
        lemma_position_keyed(g, k + 1);
    }
}

/// The suprasegmental that the grapheme `g` writes, if any: the marker
/// keyed by the first of its characters, in text order, that the map knows.
pub open spec fn parse_suprasegmental(g: Seq<char>) -> Option<SuprasegmentalView> {
    match suprasegmental_position(g, 0) {
        Some(k) => Some(suprasegmental_entry(suprasegmental_row_of(g[k], 0)->0).1),
        None => None,
    }
}

/// The first suprasegmental row at or after `i` that holds `s`.
pub open spec fn suprasegmental_row_from(s: SuprasegmentalView, i: usize) -> Option<usize>
    decreases SUPRASEGMENTAL_COUNT - i,
{
    if i >= SUPRASEGMENTAL_COUNT {
        None
    } else if suprasegmental_entry(i).1 == s {
        Some(i)
    } else {
        suprasegmental_row_from(s, (i + 1) as usize)
    }
}

/// The codepoints that write `s`, if the table has it.
pub open spec fn render_suprasegmental(s: SuprasegmentalView) -> Option<Seq<char>> {
    match suprasegmental_row_from(s, 0) {
        Some(i) => Some(seq![suprasegmental_entry(i).0]),
        None => None,
    }
}

impl Suprasegmental {
    /// Whether two markers are the same.
    pub fn same(&self, other: &Suprasegmental) -> (r: bool)
        ensures
            r == (self@ == other@),
    {
        match (self, other) {
            (Suprasegmental::PrimaryStress, Suprasegmental::PrimaryStress) => true,
            (Suprasegmental::SecondaryStress, Suprasegmental::SecondaryStress) => true,
            (Suprasegmental::Long, Suprasegmental::Long) => true,
            (Suprasegmental::HalfLong, Suprasegmental::HalfLong) => true,
            (Suprasegmental::ExtraShort, Suprasegmental::ExtraShort) => true,
            (Suprasegmental::SyllableBreak, Suprasegmental::SyllableBreak) => true,
            (Suprasegmental::Linking, Suprasegmental::Linking) => true,
            (Suprasegmental::MinorBreak, Suprasegmental::MinorBreak) => true,
            (Suprasegmental::MajorBreak, Suprasegmental::MajorBreak) => true,
            (Suprasegmental::GlobalRise, Suprasegmental::GlobalRise) => true,
            (Suprasegmental::GlobalFall, Suprasegmental::GlobalFall) => true,
            (Suprasegmental::Upstep, Suprasegmental::Upstep) => true,
            (Suprasegmental::Downstep, Suprasegmental::Downstep) => true,
            (Suprasegmental::PitchDiacritic(a), Suprasegmental::PitchDiacritic(b)) => *a == *b,
            (Suprasegmental::ChaoToneLetter(a), Suprasegmental::ChaoToneLetter(b)) => a.same(b),
            _ => false,
        }
    }

    /// The row of the suprasegmental map keyed by `c`, if any.
    fn key_row(c: char) -> (r: Option<usize>)
        ensures
            r == suprasegmental_row_of(c, 0),
            r matches Some(i) ==> i < SUPRASEGMENTAL_COUNT,
    {
        let mut i: usize = 0;
        while i < SUPRASEGMENTAL_COUNT
            invariant
                suprasegmental_row_of(c, 0) == suprasegmental_row_of(c, i),
            decreases SUPRASEGMENTAL_COUNT - i,
        {
            if suprasegmental_row(i).0 == c {
                return Some(i);
            }
            i += 1;
        }
        None
    }

    /// The position of the first character of the grapheme `g` that keys a
    /// row of the suprasegmental map.
    pub fn key_position(g: &Vec<char>) -> (r: Option<usize>)
        ensures
            match r {
                Some(k) => suprasegmental_position(g@, 0) == Some(k as int) && k < g@.len(),
                None => suprasegmental_position(g@, 0) is None,
            },
    {
        let mut k: usize = 0;
        while k < g.len()
            invariant
                k <= g@.len(),
                suprasegmental_position(g@, 0) == suprasegmental_position(g@, k as int),
            decreases g@.len() - k,
        {
            if Suprasegmental::key_row(g[k]).is_some() {
                return Some(k);
            }
            k += 1;
        }
        None
    }

    /// Reads the suprasegmental that the grapheme `g` writes: the marker
    /// keyed by the first of its characters that the map knows.
    pub fn parse_chars(g: &Vec<char>) -> (r: Option<Suprasegmental>)
        ensures
            match r {
                Some(s) => parse_suprasegmental(g@) == Some(s@),
                None => parse_suprasegmental(g@) is None,
            },
    {
        proof {
            lemma_position_keyed(g@, 0);
        }
        match Suprasegmental::key_position(g) {
            Some(k) => match Suprasegmental::key_row(g[k]) {
                Some(i) => Some(suprasegmental_row(i).1),
                None => None,
            },
            None => None,
        }
    }

    /// The codepoints that write this marker.
    pub fn symbol(&self) -> (r: Option<Vec<char>>)
        ensures
            match r {
                Some(cs) => render_suprasegmental(self@) == Some(cs@),
                None => render_suprasegmental(self@) is None,
            },
    {
        let mut i: usize = 0;
        while i < SUPRASEGMENTAL_COUNT
            invariant
                suprasegmental_row_from(self@, 0) == suprasegmental_row_from(self@, i),
            decreases SUPRASEGMENTAL_COUNT - i,
        {
            let row = suprasegmental_row(i);
            if row.1.same(self) {
                let mut cs: Vec<char> = Vec::new();
                cs.push(row.0);
                return Some(cs);
            }
            i += 1;
        }
        None
    }
}

// ---- diacritics ----

/// How many times `c` occurs in `s`.
pub open spec fn occurrences(s: Seq<char>, c: char) -> nat
    decreases s.len(),
{
    if s.len() == 0 {
        0
    } else {
        occurrences(s.drop_last(), c) + if s.last() == c {
            1nat
        } else {
            0nat
        }
    }
}

/// How many times `c` occurs in `s`.
pub fn count_char(s: &Vec<char>, c: char) -> (r: usize)
    ensures
        r == occurrences(s@, c),
{
    let mut n: usize = 0;
    let mut i: usize = 0;
    assert(s@.subrange(0, 0) =~= Seq::<char>::empty());
    while i < s.len()
        invariant
            i <= s@.len(),
            n == occurrences(s@.subrange(0, i as int), c),
            n <= i,
        decreases s@.len() - i,
    {
        assert(s@.subrange(0, i + 1 as int).drop_last() =~= s@.subrange(0, i as int));
        if s[i] == c {
            n += 1;
        }
        i += 1;
    }
    assert(s@.subrange(0, s@.len() as int) =~= s@);
    n
}

/// The diacritics whose codepoints occur in `g` more often than in `base`,
/// the codepoints of the row that reads its unit, in the order of the
/// diacritic map from row `i` on.
pub open spec fn diacritics_from(g: Seq<char>, base: Seq<char>, i: usize) -> Seq<Diacritic>
    decreases DIACRITIC_COUNT - i,
{
    if i >= DIACRITIC_COUNT {
        Seq::empty()
    } else {
        let rest = diacritics_from(g, base, (i + 1) as usize);
        let c = diacritic_entry(i).0;
        if occurrences(g, c) > occurrences(base, c) {
            seq![diacritic_entry(i).1] + rest
        } else {
            rest
        }
    }
}

/// The diacritics written in the grapheme `g` beside the codepoints `base`
/// of its unit, in the order of the map.
pub open spec fn parse_diacritics(g: Seq<char>, base: Seq<char>) -> Seq<Diacritic> {
    diacritics_from(g, base, 0)
}

/// Collects the diacritics written in the grapheme `g`, in the order of the
/// diacritic map: those whose codepoint occurs in `g` more often than in the
/// codepoints `base` that write its unit.
pub fn get_diacritics(g: &Vec<char>, base: &Vec<char>) -> (r: Vec<Diacritic>)
    ensures
        r@ == parse_diacritics(g@, base@),
{
    let mut out: Vec<Diacritic> = Vec::new();
    let mut i: usize = 0;
    while i < DIACRITIC_COUNT
        invariant
            i <= DIACRITIC_COUNT,
            out@ + diacritics_from(g@, base@, i) == diacritics_from(g@, base@, 0),
        decreases DIACRITIC_COUNT - i,
    {
        let row = diacritic_row(i);
        if count_char(g, row.0) > count_char(base, row.0) {
            out.push(row.1);
            assert(out@ + diacritics_from(g@, base@, (i + 1) as usize) =~= diacritics_from(
                g@,
                base@,
                0,
            ));
        }
        i += 1;
    }
    assert(out@ =~= out@ + diacritics_from(g@, base@, i));
    out
}

/// The first diacritic row at or after `i` that holds `d`.
pub open spec fn diacritic_row_from(d: Diacritic, i: usize) -> Option<usize>
    decreases DIACRITIC_COUNT - i,
{
    if i >= DIACRITIC_COUNT {
        None
    } else if diacritic_entry(i).1 == d {
        Some(i)
    } else {
        diacritic_row_from(d, (i + 1) as usize)
    }
}

/// The codepoint that writes `d`, if the map has it.
pub open spec fn render_diacritic(d: Diacritic) -> Option<char> {
    match diacritic_row_from(d, 0) {
        Some(i) => Some(diacritic_entry(i).0),
        None => None,
    }
}

impl Diacritic {
    /// The codepoint that writes this diacritic: that of its first row.
    pub fn symbol(&self) -> (r: Option<char>)
        ensures
            r == render_diacritic(*self),
    {
        let mut i: usize = 0;
        while i < DIACRITIC_COUNT
            invariant
                diacritic_row_from(*self, 0) == diacritic_row_from(*self, i),
            decreases DIACRITIC_COUNT - i,
        {
            let row = diacritic_row(i);
            if row.1 == *self {
                return Some(row.0);
            }
            i += 1;
        }
        None
    }
}

} // verus!
