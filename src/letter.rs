//! Letters: one grapheme cluster read as a unit and its diacritics.

use crate::phoneme::{
    Diacritic, Letter, LetterType, LetterTypeView, LetterView, PulmonicConsonant, Suprasegmental,
    Vowel,
};
use crate::symbols::{
    consonant_match_from, get_diacritics, parse_consonant, parse_diacritics,
    parse_suprasegmental, parse_vowel, render_consonant, render_diacritic, render_suprasegmental,
    render_vowel, suprasegmental_position, vowel_match_from, RenderError,
};
use crate::table::{
    consonant_entry, consonant_row, replacement_entry, replacement_row, vowel_entry, vowel_row,
    REPLACEMENT_COUNT,
};
use crate::text::{chars_of, push_char, string_of};
use vstd::prelude::*;

verus! {

/// A grapheme cluster that no row of the symbol table reads.
#[derive(Clone, Debug, PartialEq)]
pub struct ParseError {
    /// The offending grapheme cluster.
    pub text: String,
    /// Its index among the clusters of the transcription; 0 when a single
    /// cluster was read.
    pub position: usize,
}

impl View for ParseError {
    type V = (int, Seq<char>);

    open spec fn view(&self) -> (int, Seq<char>) {
        (self.position as int, self.text@)
    }
}

/// The unit that the grapheme `g` writes, with the codepoints of the table
/// row that reads it: vowels are tried first, then suprasegmentals, then
/// pulmonic consonants.
pub open spec fn parse_keyed_letter_type(g: Seq<char>) -> Option<(LetterTypeView, Seq<char>)> {
    match vowel_match_from(g, 0) {
        Some(i) => Some((LetterTypeView::Vowel(vowel_entry(i).0), vowel_entry(i).1)),
        None => match parse_suprasegmental(g) {
            Some(s) => Some(
                (LetterTypeView::Suprasegmental(s), seq![g[suprasegmental_position(g, 0)->0]]),
            ),
            None => match consonant_match_from(g, 0) {
                Some(i) => Some(
                    (LetterTypeView::PulmonicConsonant(consonant_entry(i).0), consonant_entry(i).1),
                ),
                None => None,
            },
        },
    }
}

/// The unit that the grapheme `g` writes: vowels are tried first, then
/// suprasegmentals, then pulmonic consonants.
pub open spec fn parse_letter_type(g: Seq<char>) -> Option<LetterTypeView> {
    match parse_keyed_letter_type(g) {
        Some(p) => Some(p.0),
        None => None,
    }
}

/// A list of diacritics as a letter holds it: absent when empty.
pub open spec fn diacritic_option(ds: Seq<Diacritic>) -> Option<Seq<Diacritic>> {
    if ds.len() == 0 {
        None
    } else {
        Some(ds)
    }
}

/// The letter that the grapheme `g` writes, with no rewrite applied: its
/// unit, and the diacritics among the codepoints that do not write the unit.
pub open spec fn parse_plain_letter(g: Seq<char>) -> Option<LetterView> {
    match parse_keyed_letter_type(g) {
        Some(p) => Some(
            LetterView { ipa_type: p.0, diacritics: diacritic_option(parse_diacritics(g, p.1)) },
        ),
        None => None,
    }
}

/// The first rewrite at or after row `i` of the precomposed character `c`.
pub open spec fn replacement_of(c: char, i: usize) -> Option<usize>
    decreases REPLACEMENT_COUNT - i,
{
    if i >= REPLACEMENT_COUNT {
        None
    } else if replacement_entry(i).0 == c {
        Some(i)
    } else {
        replacement_of(c, (i + 1) as usize)
    }
}

/// The decomposed form of `c` where the rewrite list has one, else `c`.
pub open spec fn rewrite_char(c: char) -> Seq<char> {
    match replacement_of(c, 0) {
        Some(i) => replacement_entry(i).1,
        None => seq![c],
    }
}

/// The grapheme `g` with each precomposed character of the rewrite list
/// replaced in place by its decomposed form.
pub open spec fn rewritten(g: Seq<char>) -> Seq<char>
    decreases g.len(),
{
    if g.len() == 0 {
        Seq::empty()
    } else {
        rewritten(g.drop_last()) + rewrite_char(g.last())
    }
}

/// The letter that the grapheme `g` writes, read once its precomposed
/// characters are rewritten.
pub open spec fn parse_letter(g: Seq<char>) -> Option<LetterView> {
    parse_plain_letter(rewritten(g))
}

/// The rewrite row of the precomposed character `c`, if any.
fn replacement_index(c: char) -> (r: Option<usize>)
    ensures
        r == replacement_of(c, 0),
        r matches Some(i) ==> i < REPLACEMENT_COUNT,
{
    let mut i: usize = 0;
    while i < REPLACEMENT_COUNT
        invariant
            replacement_of(c, 0) == replacement_of(c, i),
        decreases REPLACEMENT_COUNT - i,
    {
        if replacement_row(i).0 == c {
            return Some(i);
        }
        i += 1;
    }
    None
}

/// Rewrites the precomposed characters of the grapheme `g` in place.
pub fn rewrite(g: &Vec<char>) -> (r: Vec<char>)
    ensures
        r@ == rewritten(g@),
{
    let mut out: Vec<char> = Vec::new();
    let mut k: usize = 0;
    assert(g@.subrange(0, 0) =~= Seq::<char>::empty());
    while k < g.len()
        invariant
            k <= g@.len(),
            out@ == rewritten(g@.subrange(0, k as int)),
        decreases g@.len() - k,
    {
        let c = g[k];
        assert(g@.subrange(0, k + 1 as int).drop_last() =~= g@.subrange(0, k as int));
        assert(g@.subrange(0, k + 1 as int).last() == c);
        let ghost before = out@;
        match replacement_index(c) {
            Some(i) => {
                let row = replacement_row(i);
                let mut j: usize = 0;
                while j < row.1.len()
                    invariant
                        j <= row.1@.len(),
                        out@ == before + row.1@.subrange(0, j as int),
                    decreases row.1@.len() - j,
                {
                    out.push(row.1[j]);
                    j += 1;
                    assert(out@ =~= before + row.1@.subrange(0, j as int));
                }
                assert(row.1@.subrange(0, row.1@.len() as int) =~= row.1@);
            },
            None => {
                out.push(c);
                assert(out@ =~= before + seq![c]);
            },
        }
        k += 1;
    }
    assert(g@.subrange(0, g@.len() as int) =~= g@);
    out
}

/// The codepoints that write the unit `t`, if the table has it.
pub open spec fn render_letter_type(t: LetterTypeView) -> Option<Seq<char>> {
    match t {
        LetterTypeView::Vowel(v) => render_vowel(v),
        LetterTypeView::PulmonicConsonant(c) => render_consonant(c),
        LetterTypeView::Suprasegmental(s) => render_suprasegmental(s),
        LetterTypeView::NonPulmonicConsonant => None,
    }
}

/// The codepoints that write the diacritics `ds`, in their order.
pub open spec fn render_diacritics(ds: Seq<Diacritic>) -> Option<Seq<char>>
    decreases ds.len(),
{
    if ds.len() == 0 {
        Some(Seq::empty())
    } else {
        match (render_diacritics(ds.drop_last()), render_diacritic(ds.last())) {
            (Some(front), Some(c)) => Some(front.push(c)),
            _ => None,
        }
    }
}

/// The text of the letter `l`: its unit, then its diacritics in order.
pub open spec fn render_letter(l: LetterView) -> Option<Seq<char>> {
    match render_letter_type(l.ipa_type) {
        Some(base) => match l.diacritics {
            Some(ds) => match render_diacritics(ds) {
                Some(marks) => Some(base + marks),
                None => None,
            },
            None => Some(base),
        },
        None => None,
    }
}

/// The text of `cs`, or a render failure where there is none.
fn text_or_error(cs: Option<Vec<char>>) -> (r: Result<String, RenderError>)
    ensures
        match cs {
            Some(v) => r matches Ok(s) && s@ == v@,
            None => r is Err,
        },
{
    match cs {
        Some(v) => Ok(string_of(&v)),
        None => Err(RenderError),
    }
}

impl Vowel {
    /// Reads the vowel that the grapheme `value` writes.
    pub fn parse(value: &str) -> (r: Result<Vowel, ()>)
        ensures
            r == match parse_vowel(value@) {
                Some(x) => Ok(x),
                None => Err(()),
            },
    {
        match Vowel::parse_chars(&chars_of(value)) {
            Some(v) => Ok(v),
            None => Err(()),
        }
    }

    /// The text of this vowel, or an error where the table has no row for it.
    pub fn render(&self) -> (r: Result<String, RenderError>)
        ensures
            match r {
                Ok(s) => render_vowel(*self) == Some(s@),
                Err(_) => render_vowel(*self) is None,
            },
    {
        text_or_error(self.symbol())
    }

    /// The text of this vowel.
    pub fn to_string(&self) -> (r: String)
        requires
            render_vowel(*self) is Some,
        ensures
            render_vowel(*self) == Some(r@),
    {
        match self.render() {
            Ok(s) => s,
            Err(_) => String::new(),
        }
    }
}

impl PulmonicConsonant {
    /// Reads the pulmonic consonant that the grapheme `value` writes.
    pub fn parse(value: &str) -> (r: Result<PulmonicConsonant, ()>)
        ensures
            r == match parse_consonant(value@) {
                Some(x) => Ok(x),
                None => Err(()),
            },
    {
        match PulmonicConsonant::parse_chars(&chars_of(value)) {
            Some(c) => Ok(c),
            None => Err(()),
        }
    }

    /// The text of this consonant, or an error where the table has no row for it.
    pub fn render(&self) -> (r: Result<String, RenderError>)
        ensures
            match r {
                Ok(s) => render_consonant(*self) == Some(s@),
                Err(_) => render_consonant(*self) is None,
            },
    {
        text_or_error(self.symbol())
    }

    /// The text of this consonant.
    pub fn to_string(&self) -> (r: String)
        requires
            render_consonant(*self) is Some,
        ensures
            render_consonant(*self) == Some(r@),
    {
        match self.render() {
            Ok(s) => s,
            Err(_) => String::new(),
        }
    }
}

impl Suprasegmental {
    /// Reads the suprasegmental that the grapheme `value` writes.
    pub fn parse(value: &str) -> (r: Result<Suprasegmental, ()>)
        ensures
            match r {
                Ok(s) => parse_suprasegmental(value@) == Some(s@),
                Err(_) => parse_suprasegmental(value@) is None,
            },
    {
        match Suprasegmental::parse_chars(&chars_of(value)) {
            Some(s) => Ok(s),
            None => Err(()),
        }
    }

    /// The text of this marker, or an error where the map has no row for it.
    pub fn render(&self) -> (r: Result<String, RenderError>)
        ensures
            match r {
                Ok(s) => render_suprasegmental(self@) == Some(s@),
                Err(_) => render_suprasegmental(self@) is None,
            },
    {
        text_or_error(self.symbol())
    }
}

impl Diacritic {
    /// The text of this diacritic, or an error where the map has no row for it.
    pub fn render(&self) -> (r: Result<String, RenderError>)
        ensures
            match r {
                Ok(s) => render_diacritic(*self) matches Some(c) && s@ == seq![c],
                Err(_) => render_diacritic(*self) is None,
            },
    {
        match self.symbol() {
            Some(c) => {
                let mut s = String::new();
                push_char(&mut s, c);
                assert(s@ =~= seq![c]);
                Ok(s)
            },
            None => Err(RenderError),
        }
    }
}

/// Appends the text of the diacritics `ds` to `out`; false where one has no row.
fn push_diacritics(out: &mut Vec<char>, ds: &Vec<Diacritic>) -> (ok: bool)
    ensures
        match render_diacritics(ds@) {
            Some(marks) => ok && final(out)@ == old(out)@ + marks,
            None => !ok,
        },
{
    let ghost start = out@;
    let mut i: usize = 0;
    while i < ds.len()
        invariant
            i <= ds@.len(),
            render_diacritics(ds@.subrange(0, i as int)) == Some(out@.subrange(start.len() as int, out@.len() as int)),
            out@.len() >= start.len(),
            out@.subrange(0, start.len() as int) == start,
        decreases ds@.len() - i,
    {
        let ghost pre = ds@.subrange(0, i as int);
        assert(ds@.subrange(0, i + 1 as int).drop_last() =~= pre);
        match ds[i].symbol() {
            Some(c) => {
                let ghost marks = out@.subrange(start.len() as int, out@.len() as int);
                out.push(c);
                assert(out@.subrange(start.len() as int, out@.len() as int) =~= marks.push(c));
                assert(out@.subrange(0, start.len() as int) =~= start);
            },
            None => {
                proof {
                    lemma_render_diacritics_prefix(ds@, i as int + 1);
                }
                return false;
            },
        }
        i += 1;
    }
    assert(ds@.subrange(0, ds@.len() as int) =~= ds@);
    assert(out@ =~= start + out@.subrange(start.len() as int, out@.len() as int));
    true
}

/// Rendering fails for a list whenever it fails for one of its prefixes.
proof fn lemma_render_diacritics_prefix(ds: Seq<Diacritic>, n: int)
    requires
        0 <= n <= ds.len(),
        render_diacritics(ds.subrange(0, n)) is None,
    ensures
        render_diacritics(ds) is None,
    decreases ds.len() - n,
{
    if n < ds.len() {
        assert(ds.subrange(0, n + 1).drop_last() =~= ds.subrange(0, n));
        lemma_render_diacritics_prefix(ds, n + 1);
    } else {
        assert(ds.subrange(0, n) =~= ds);
    }
}

impl LetterType {
    /// Reads the unit that the grapheme `g` writes, with the codepoints of
    /// the table row that reads it.
    pub fn parse_keyed(g: &Vec<char>) -> (r: Option<(LetterType, Vec<char>)>)
        ensures
            match r {
                Some((t, key)) => parse_keyed_letter_type(g@) == Some((t@, key@)),
                None => parse_keyed_letter_type(g@) is None,
            },
    {
        if let Some(i) = Vowel::match_row(g) {
            let row = vowel_row(i);
            return Some((LetterType::Vowel(row.0), row.1));
        }
        if let Some(s) = Suprasegmental::parse_chars(g) {
            let k = Suprasegmental::key_position(g).unwrap();
            let mut key: Vec<char> = Vec::new();
            key.push(g[k]);
            assert(key@ =~= seq![g@[k as int]]);
            return Some((LetterType::Suprasegmental(s), key));
        }
        if let Some(i) = PulmonicConsonant::match_row(g) {
            let row = consonant_row(i);
            return Some((LetterType::PulmonicConsonant(row.0), row.1));
        }
        None
    }

    /// Reads the unit that the grapheme `g` writes: vowels are tried first,
    /// then suprasegmentals, then pulmonic consonants.
    pub fn parse_chars(g: &Vec<char>) -> (r: Option<LetterType>)
        ensures
            match r {
                Some(t) => parse_letter_type(g@) == Some(t@),
                None => parse_letter_type(g@) is None,
            },
    {
        match LetterType::parse_keyed(g) {
            Some((t, _)) => Some(t),
            None => None,
        }
    }

    /// Reads the unit that the grapheme `value` writes.
    pub fn parse(value: &str) -> (r: Result<LetterType, ParseError>)
        ensures
            match r {
                Ok(t) => parse_letter_type(value@) == Some(t@),
                Err(e) => parse_letter_type(value@) is None && e@ == (0int, value@),
            },
    {
        match LetterType::parse_chars(&chars_of(value)) {
            Some(t) => Ok(t),
            None => Err(ParseError { text: value.to_owned(), position: 0 }),
        }
    }

    /// The codepoints that write this unit.
    pub fn symbol(&self) -> (r: Option<Vec<char>>)
        ensures
            match r {
                Some(cs) => render_letter_type(self@) == Some(cs@),
                None => render_letter_type(self@) is None,
            },
    {
        match self {
            LetterType::Vowel(v) => v.symbol(),
            LetterType::PulmonicConsonant(c) => c.symbol(),
            LetterType::Suprasegmental(s) => s.symbol(),
            LetterType::NonPulmonicConsonant => None,
        }
    }

    /// The text of this unit, or an error where the table has no row for it.
    pub fn render(&self) -> (r: Result<String, RenderError>)
        ensures
            match r {
                Ok(s) => render_letter_type(self@) == Some(s@),
                Err(_) => render_letter_type(self@) is None,
            },
    {
        text_or_error(self.symbol())
    }
}

impl Letter {
    /// Reads the letter that the grapheme `g` writes, with no rewrite applied.
    fn parse_plain(g: &Vec<char>) -> (r: Option<Letter>)
        ensures
            match r {
                Some(l) => parse_plain_letter(g@) == Some(l@),
                None => parse_plain_letter(g@) is None,
            },
    {
        match LetterType::parse_keyed(g) {
            Some((ipa_type, key)) => {
                let diacritics = get_diacritics(g, &key);
                let diacritics = if diacritics.len() == 0 {
                    None
                } else {
                    Some(diacritics)
                };
                Some(Letter { ipa_type, diacritics })
            },
            None => None,
        }
    }

    /// Reads the letter that the grapheme `g` writes, once its precomposed
    /// characters are rewritten in place.
    pub fn parse_chars(g: &Vec<char>) -> (r: Option<Letter>)
        ensures
            match r {
                Some(l) => parse_letter(g@) == Some(l@),
                None => parse_letter(g@) is None,
            },
    {
        Letter::parse_plain(&rewrite(g))
    }

    /// Reads the letter that the grapheme cluster `value` writes.
    pub fn parse(value: &str) -> (r: Result<Letter, ParseError>)
        ensures
            match r {
                Ok(l) => parse_letter(value@) == Some(l@),
                Err(e) => parse_letter(value@) is None && e@ == (0int, value@),
            },
    {
        match Letter::parse_chars(&chars_of(value)) {
            Some(l) => Ok(l),
            None => Err(ParseError { text: value.to_owned(), position: 0 }),
        }
    }

    /// Appends the text of this letter to `out`; false where some part of it
    /// has no row in the table.
    pub fn push_symbol(&self, out: &mut Vec<char>) -> (ok: bool)
        ensures
            match render_letter(self@) {
                Some(t) => ok && final(out)@ == old(out)@ + t,
                None => !ok,
            },
    {
        match self.ipa_type.symbol() {
            Some(base) => {
                let ghost start = out@;
                let mut i: usize = 0;
                while i < base.len()
                    invariant
                        i <= base@.len(),
                        out@ == start + base@.subrange(0, i as int),
                    decreases base@.len() - i,
                {
                    out.push(base[i]);
                    i += 1;
                    assert(out@ =~= start + base@.subrange(0, i as int));
                }
                assert(base@.subrange(0, base@.len() as int) =~= base@);
                match &self.diacritics {
                    Some(ds) => {
                        let ok = push_diacritics(out, ds);
                        proof {
                            if ok {
                                assert(out@ =~= start + (base@ + render_diacritics(ds@)->0));
                            }
                        }
                        ok
                    },
                    None => true,
                }
            },
            None => false,
        }
    }

    /// The text of this letter: its unit, then its diacritics in order; an
    /// error where some part of it has no row in the table.
    pub fn render(&self) -> (r: Result<String, RenderError>)
        ensures
            match r {
                Ok(s) => render_letter(self@) == Some(s@),
                Err(_) => render_letter(self@) is None,
            },
    {
        let mut cs: Vec<char> = Vec::new();
        if self.push_symbol(&mut cs) {
            assert(cs@ =~= Seq::<char>::empty() + cs@);
            Ok(string_of(&cs))
        } else {
            Err(RenderError)
        }
    }

    /// The text of this letter.
    pub fn to_string(&self) -> (r: String)
        requires
            render_letter(self@) is Some,
        ensures
            render_letter(self@) == Some(r@),
    {
        match self.render() {
            Ok(s) => s,
            Err(_) => String::new(),
        }
    }
}

impl<'a> vstd::std_specs::convert::TryFromSpecImpl<&'a str> for Vowel {
    open spec fn obeys_try_from_spec() -> bool {
        true
    }

    open spec fn try_from_spec(value: &'a str) -> Result<Vowel, ()> {
        match parse_vowel(value@) {
            Some(x) => Ok(x),
            None => Err(()),
        }
    }
}

impl<'a> TryFrom<&'a str> for Vowel {
    type Error = ();

    fn try_from(value: &'a str) -> Result<Vowel, ()> {
        Vowel::parse(value)
    }
}

impl<'a> vstd::std_specs::convert::TryFromSpecImpl<&'a str> for PulmonicConsonant {
    open spec fn obeys_try_from_spec() -> bool {
        true
    }

    open spec fn try_from_spec(value: &'a str) -> Result<PulmonicConsonant, ()> {
        match parse_consonant(value@) {
            Some(x) => Ok(x),
            None => Err(()),
        }
    }
}

impl<'a> TryFrom<&'a str> for PulmonicConsonant {
    type Error = ();

    fn try_from(value: &'a str) -> Result<PulmonicConsonant, ()> {
        PulmonicConsonant::parse(value)
    }
}

impl<'a> vstd::std_specs::convert::TryFromSpecImpl<&'a str> for Suprasegmental {
    open spec fn obeys_try_from_spec() -> bool {
        false
    }

    open spec fn try_from_spec(value: &'a str) -> Result<Suprasegmental, ()> {
        arbitrary()
    }
}

impl<'a> TryFrom<&'a str> for Suprasegmental {
    type Error = ();

    fn try_from(value: &'a str) -> Result<Suprasegmental, ()> {
        Suprasegmental::parse(value)
    }
}

impl<'a> vstd::std_specs::convert::TryFromSpecImpl<&'a str> for LetterType {
    open spec fn obeys_try_from_spec() -> bool {
        false
    }

    open spec fn try_from_spec(value: &'a str) -> Result<LetterType, ParseError> {
        arbitrary()
    }
}

impl<'a> TryFrom<&'a str> for LetterType {
    type Error = ParseError;

    fn try_from(value: &'a str) -> Result<LetterType, ParseError> {
        LetterType::parse(value)
    }
}

impl<'a> vstd::std_specs::convert::TryFromSpecImpl<&'a str> for Letter {
    open spec fn obeys_try_from_spec() -> bool {
        false
    }

    open spec fn try_from_spec(value: &'a str) -> Result<Letter, ParseError> {
        arbitrary()
    }
}

impl<'a> TryFrom<&'a str> for Letter {
    type Error = ParseError;

    fn try_from(value: &'a str) -> Result<Letter, ParseError> {
        Letter::parse(value)
    }
}

} // verus!
