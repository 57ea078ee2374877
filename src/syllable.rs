//! Splitting a word into syllables under a language rule.

use crate::phoneme::{Letter, LetterType, LetterView};
use crate::symbols::RenderError;
use crate::text::string_of;
use crate::word::{push_letters, render_word};
use crate::word::Word;
use vstd::prelude::*;

verus! {

/// Phonotactic knowledge of one language, as two predicates over adjacent
/// letters of a word (`first` comes before `second` in the text).
pub trait SyllableRule {
    /// Whether two adjacent consonants or suprasegmentals may stand in one syllable.
    spec fn allows_neighbour(&self, first: LetterView, second: LetterView) -> bool;

    /// Whether two adjacent vowels form one nucleus.
    spec fn joins_diphthong(&self, first: LetterView, second: LetterView) -> bool;

    /// Whether two adjacent consonants or suprasegmentals may stand in one syllable.
    fn is_allowed_neighbour(&self, first: &Letter, second: &Letter) -> (r: bool)
        ensures
            r == self.allows_neighbour(first@, second@),
    ;

    /// Whether two adjacent vowels form one nucleus.
    fn is_diphthong(&self, first: &Letter, second: &Letter) -> (r: bool)
        ensures
            r == self.joins_diphthong(first@, second@),
    ;
}

/// One syllable: the letters before its nucleus, the nucleus, and the
/// letters after it.
#[derive(Clone, Debug)]
pub struct Syllable {
    pub onset: Vec<Letter>,
    pub nucleus: Vec<Letter>,
    pub coda: Vec<Letter>,
}

/// Model of a `Syllable`.
pub struct SyllableView {
    pub onset: Seq<LetterView>,
    pub nucleus: Seq<LetterView>,
    pub coda: Seq<LetterView>,
}

/// The models of a vector of letters.
pub open spec fn letters_view(v: Vec<Letter>) -> Seq<LetterView> {
    v@.map_values(|l: Letter| l@)
}

impl View for Syllable {
    type V = SyllableView;

    open spec fn view(&self) -> SyllableView {
        SyllableView {
            onset: letters_view(self.onset),
            nucleus: letters_view(self.nucleus),
            coda: letters_view(self.coda),
        }
    }
}

impl SyllableView {
    /// Onset, nucleus and coda, one after the other.
    pub open spec fn letters(self) -> Seq<LetterView> {
        self.onset + self.nucleus + self.coda
    }
}

/// The models of a vector of syllables.
pub open spec fn syllables_view(v: Vec<Syllable>) -> Seq<SyllableView> {
    v@.map_values(|s: Syllable| s@)
}

/// The letters of the syllables `ss`, one syllable after the other.
pub open spec fn flatten_syllables(ss: Seq<SyllableView>) -> Seq<LetterView>
    decreases ss.len(),
{
    if ss.len() == 0 {
        Seq::empty()
    } else {
        ss[0].letters() + flatten_syllables(ss.drop_first())
    }
}

/// The syllable being built by the backward scan, and those already
/// finished to its right.
pub struct ScanState {
    pub done: Seq<SyllableView>,
    pub onset: Seq<LetterView>,
    pub nucleus: Seq<LetterView>,
    pub coda: Seq<LetterView>,
    pub found: bool,
}

impl ScanState {
    /// The syllables once the one being built is finished.
    pub open spec fn closed(self) -> Seq<SyllableView> {
        seq![SyllableView { onset: self.onset, nucleus: self.nucleus, coda: self.coda }]
            + self.done
    }
}

/// The state after the last letter of a word.
pub open spec fn scan_start(last: LetterView) -> ScanState {
    if last.ipa_type.is_vowel() {
        ScanState {
            done: Seq::empty(),
            onset: Seq::empty(),
            nucleus: seq![last],
            coda: Seq::empty(),
            found: true,
        }
    } else {
        ScanState {
            done: Seq::empty(),
            onset: Seq::empty(),
            nucleus: Seq::empty(),
            coda: seq![last],
            found: false,
        }
    }
}

/// Adds a letter to the onset once the nucleus is found, else to the coda.
pub open spec fn scan_attach(st: ScanState, letter: LetterView) -> ScanState {
    if st.found {
        ScanState { onset: seq![letter] + st.onset, ..st }
    } else {
        ScanState { coda: seq![letter] + st.coda, ..st }
    }
}

/// One step of the backward scan: `letter` stands just before `last`.
pub open spec fn scan_step<R: SyllableRule>(
    rule: &R,
    st: ScanState,
    letter: LetterView,
    last: LetterView,
) -> ScanState {
    if letter.ipa_type.is_vowel() && last.ipa_type.is_vowel() {
        if rule.joins_diphthong(letter, last) {
            ScanState { nucleus: seq![letter] + st.nucleus, ..st }
        } else {
            ScanState {
                done: st.closed(),
                onset: Seq::empty(),
                nucleus: seq![letter],
                coda: Seq::empty(),
                found: true,
            }
        }
    } else if letter.ipa_type.is_consonant_or_suprasegmental()
        && last.ipa_type.is_consonant_or_suprasegmental() {
        if rule.allows_neighbour(letter, last) {
            scan_attach(st, letter)
        } else {
            ScanState {
                done: st.closed(),
                onset: Seq::empty(),
                nucleus: Seq::empty(),
                coda: seq![letter],
                found: false,
            }
        }
    } else if letter.ipa_type.is_vowel() {
        if st.found {
            ScanState {
                done: st.closed(),
                onset: Seq::empty(),
                nucleus: seq![letter],
                coda: Seq::empty(),
                found: true,
            }
        } else {
            ScanState { nucleus: seq![letter] + st.nucleus, found: true, ..st }
        }
    } else {
        scan_attach(st, letter)
    }
}

/// The state of the backward scan once the letters from position `i` to
/// the end of `ls` have been read.
pub open spec fn scan_from<R: SyllableRule>(rule: &R, ls: Seq<LetterView>, i: int) -> ScanState
    decreases ls.len() - i,
{
    if i < 0 || i >= ls.len() - 1 {
        scan_start(ls.last())
    } else {
        scan_step(rule, scan_from(rule, ls, i + 1), ls[i], ls[i + 1])
    }
}

/// The syllables of the letters `ls` under `rule`, in text order. The
/// syllable being built when the scan reaches the first letter is kept even
/// when it has no nucleus, so no letter is lost: a word without vowels gives
/// syllables made of a coda alone (one, unless the rule splits a forbidden
/// pair of neighbours), and an empty word has no syllables.
pub open spec fn syllabify<R: SyllableRule>(rule: &R, ls: Seq<LetterView>) -> Seq<SyllableView> {
    if ls.len() == 0 {
        Seq::empty()
    } else {
        scan_from(rule, ls, 0).closed()
    }
}

/// The text of a syllable: onset, nucleus and coda, one after the other.
pub open spec fn render_syllable(s: SyllableView) -> Option<Seq<char>> {
    render_word(s.letters())
}

impl Syllable {
    /// The text of this syllable, or an error where a letter has no row in
    /// the table.
    pub fn render(&self) -> (r: Result<String, RenderError>)
        ensures
            match r {
                Ok(t) => render_syllable(self@) == Some(t@),
                Err(_) => render_syllable(self@) is None,
            },
    {
        let mut letters: Vec<Letter> = Vec::new();
        append_copies(&mut letters, &self.onset);
        append_copies(&mut letters, &self.nucleus);
        append_copies(&mut letters, &self.coda);
        assert(letters_view(letters) =~= self@.letters());
        let mut cs: Vec<char> = Vec::new();
        if push_letters(&mut cs, &letters) {
            assert(cs@ =~= Seq::<char>::empty() + cs@);
            Ok(string_of(&cs))
        } else {
            Err(RenderError)
        }
    }

    /// The text of this syllable.
    pub fn to_string(&self) -> (r: String)
        requires
            render_syllable(self@) is Some,
        ensures
            render_syllable(self@) == Some(r@),
    {
        match self.render() {
            Ok(s) => s,
            Err(_) => String::new(),
        }
    }
}

/// Appends copies of the letters `ls` to `out`.
fn append_copies(out: &mut Vec<Letter>, ls: &Vec<Letter>)
    ensures
        letters_view(*final(out)) == letters_view(*old(out)) + letters_view(*ls),
{
    let ghost start = letters_view(*out);
    let mut i: usize = 0;
    while i < ls.len()
        invariant
            i <= ls@.len(),
            letters_view(*out) == start + letters_view(*ls).subrange(0, i as int),
        decreases ls@.len() - i,
    {
        let ghost before = letters_view(*out);
        let c = ls[i].duplicate();
        out.push(c);
        assert(letters_view(*out) =~= before.push(c@));
        i += 1;
        assert(letters_view(*out) =~= start + letters_view(*ls).subrange(0, i as int));
    }
    assert(letters_view(*ls).subrange(0, ls@.len() as int) =~= letters_view(*ls));
}

impl LetterType {
    /// Whether this is a vowel.
    pub fn is_vowel(&self) -> (r: bool)
        ensures
            r == self@.is_vowel(),
    {
        matches!(self, LetterType::Vowel(_))
    }

    /// Whether this is a pulmonic consonant or a suprasegmental.
    pub fn is_consonant_or_suprasegmental(&self) -> (r: bool)
        ensures
            r == self@.is_consonant_or_suprasegmental(),
    {
        matches!(self, LetterType::PulmonicConsonant(_) | LetterType::Suprasegmental(_))
    }
}

/// Puts `l` in front of `v`.
fn prepend(v: &mut Vec<Letter>, l: &Letter)
    ensures
        letters_view(*final(v)) == seq![l@] + letters_view(*old(v)),
{
    v.insert(0, l.duplicate());
    assert(letters_view(*v) =~= seq![l@] + letters_view(*old(v)));
}

/// A vector holding a copy of `l` alone.
fn single(l: &Letter) -> (r: Vec<Letter>)
    ensures
        letters_view(r) == seq![l@],
{
    let mut v: Vec<Letter> = Vec::new();
    v.push(l.duplicate());
    assert(letters_view(v) =~= seq![l@]);
    v
}

/// Splits a word into syllables under `options`, scanning it once from its
/// last letter to its first (see `syllabify`).
pub fn syls_from_word<R: SyllableRule>(input: &Word, options: &R) -> (r: Vec<Syllable>)
    ensures
        syllables_view(r) == syllabify(options, input@),
{
    let letters = input.letters();
    let ghost ls = input@;
    let n = letters.len();
    let mut out: Vec<Syllable> = Vec::new();
    if n == 0 {
        assert(syllables_view(out) =~= Seq::<SyllableView>::empty());
        return out;
    }
    let mut onset: Vec<Letter> = Vec::new();
    let mut nucleus: Vec<Letter> = Vec::new();
    let mut coda: Vec<Letter> = Vec::new();
    let last_letter = &letters[n - 1];
    let mut found = last_letter.ipa_type.is_vowel();
    if found {
        nucleus.push(last_letter.duplicate());
    } else {
        coda.push(last_letter.duplicate());
    }
    assert(ls.last() == ls[n - 1]);
    assert(letters_view(nucleus) =~= scan_start(ls.last()).nucleus);
    assert(letters_view(coda) =~= scan_start(ls.last()).coda);
    assert(letters_view(onset) =~= Seq::<LetterView>::empty());
    assert(syllables_view(out) =~= Seq::<SyllableView>::empty());
    let mut j: usize = n - 1;
    while j > 0
        invariant
            n == letters@.len(),
            ls == letters@.map_values(|l: Letter| l@),
            j < n,
            syllables_view(out) == scan_from(options, ls, j as int).done,
            letters_view(onset) == scan_from(options, ls, j as int).onset,
            letters_view(nucleus) == scan_from(options, ls, j as int).nucleus,
            letters_view(coda) == scan_from(options, ls, j as int).coda,
            found == scan_from(options, ls, j as int).found,
        decreases j,
    {
        let letter = &letters[j - 1];
        let last = &letters[j];
        let ghost st = scan_from(options, ls, j as int);
        let letter_vowel = letter.ipa_type.is_vowel();
        let last_vowel = last.ipa_type.is_vowel();
        let mut close = false;
        if letter_vowel && last_vowel {
            if options.is_diphthong(letter, last) {
                prepend(&mut nucleus, letter);
            } else {
                close = true;
            }
        } else if letter.ipa_type.is_consonant_or_suprasegmental()
            && last.ipa_type.is_consonant_or_suprasegmental() {
            if !options.is_allowed_neighbour(letter, last) {
                close = true;
            } else if found {
                prepend(&mut onset, letter);
            } else {
                prepend(&mut coda, letter);
            }
        } else if letter_vowel {
            if found {
                close = true;
            } else {
                prepend(&mut nucleus, letter);
                found = true;
            }
        } else if found {
            prepend(&mut onset, letter);
        } else {
            prepend(&mut coda, letter);
        }
        if close {
            let syl = Syllable { onset, nucleus, coda };
            out.insert(0, syl);
            assert(syllables_view(out) =~= st.closed());
            onset = Vec::new();
            nucleus = Vec::new();
            coda = Vec::new();
            found = letter_vowel;
            if letter_vowel {
                nucleus.push(letter.duplicate());
            } else {
                coda.push(letter.duplicate());
            }
            assert(letters_view(onset) =~= Seq::<LetterView>::empty());
            assert(letters_view(nucleus) =~= scan_from(options, ls, j - 1 as int).nucleus);
            assert(letters_view(coda) =~= scan_from(options, ls, j - 1 as int).coda);
        }
        j -= 1;
    }
    let syl = Syllable { onset, nucleus, coda };
    out.insert(0, syl);
    assert(syllables_view(out) =~= scan_from(options, ls, 0).closed());
    out
}

/// The letters of a syllable list that starts with `s`.
proof fn lemma_flatten_cons(s: SyllableView, rest: Seq<SyllableView>)
    ensures
        flatten_syllables(seq![s] + rest) == s.letters() + flatten_syllables(rest),
{
    let ss = seq![s] + rest;
    assert(ss[0] == s);
    assert(ss.drop_first() =~= rest);
}

/// What the backward scan has read is all in its state, in order.
proof fn lemma_scan_conserves<R: SyllableRule>(rule: &R, ls: Seq<LetterView>, i: int)
    requires
        0 <= i < ls.len(),
    ensures
        ({
            let st = scan_from(rule, ls, i);
            st.onset + st.nucleus + st.coda + flatten_syllables(st.done) == ls.subrange(i, ls.len() as int)
        }),
    decreases ls.len() - i,
{
    let st = scan_from(rule, ls, i);
    if i == ls.len() - 1 {
        assert(flatten_syllables(st.done) =~= Seq::<LetterView>::empty());
        assert(st.onset + st.nucleus + st.coda + flatten_syllables(st.done) =~= ls.subrange(i, ls.len() as int));
    } else {
        lemma_scan_conserves(rule, ls, i + 1);
        lemma_scan_well_formed(rule, ls, i + 1);
        let prev = scan_from(rule, ls, i + 1);
        let prev_syl = SyllableView { onset: prev.onset, nucleus: prev.nucleus, coda: prev.coda };
        lemma_flatten_cons(prev_syl, prev.done);
        assert(ls.subrange(i, ls.len() as int) =~= seq![ls[i]] + ls.subrange(i + 1, ls.len() as int));
        if st.done == prev.closed() {
            assert(flatten_syllables(st.done) == prev_syl.letters() + flatten_syllables(prev.done));
            assert(st.onset + st.nucleus + st.coda =~= seq![ls[i]]);
            assert(flatten_syllables(st.done) == ls.subrange(i + 1, ls.len() as int));
            assert(st.onset + st.nucleus + st.coda + flatten_syllables(st.done) == ls.subrange(i, ls.len() as int));
        } else {
            assert(st.done == prev.done);
            assert(st.onset + st.nucleus + st.coda =~= seq![ls[i]] + prev_syl.letters());
            assert(st.onset + st.nucleus + st.coda + flatten_syllables(st.done) =~= seq![ls[i]] + (
            prev_syl.letters() + flatten_syllables(prev.done)));
        }
    }
}

/// Letters are neither created nor dropped: the syllables of a word, read
/// one after the other, give back the word's letters exactly.
pub proof fn lemma_syllabify_conserves_letters<R: SyllableRule>(rule: &R, ls: Seq<LetterView>)
    ensures
        flatten_syllables(syllabify(rule, ls)) == ls,
{
    if ls.len() == 0 {
        assert(flatten_syllables(syllabify(rule, ls)) =~= ls);
    } else {
        lemma_scan_conserves(rule, ls, 0);
        let st = scan_from(rule, ls, 0);
        lemma_flatten_cons(
            SyllableView { onset: st.onset, nucleus: st.nucleus, coda: st.coda },
            st.done,
        );
        assert(ls.subrange(0, ls.len() as int) =~= ls);
        assert(flatten_syllables(syllabify(rule, ls)) =~= ls);
    }
}

/// A syllable whose nucleus holds vowels only and whose onset and coda hold
/// none. One without a nucleus is a coda alone, and is not empty.
pub open spec fn well_formed_syllable(s: SyllableView) -> bool {
    &&& forall|k: int| 0 <= k < s.nucleus.len() ==> (#[trigger] s.nucleus[k]).ipa_type.is_vowel()
    &&& forall|k: int| 0 <= k < s.onset.len() ==> !(#[trigger] s.onset[k]).ipa_type.is_vowel()
    &&& forall|k: int| 0 <= k < s.coda.len() ==> !(#[trigger] s.coda[k]).ipa_type.is_vowel()
    &&& s.nucleus.len() == 0 ==> s.onset.len() == 0 && s.coda.len() > 0
}

/// The scan keeps its syllable in progress and those it finished well formed.
spec fn scan_invariant(st: ScanState) -> bool {
    &&& well_formed_syllable(SyllableView { onset: st.onset, nucleus: st.nucleus, coda: st.coda })
    &&& st.found == (st.nucleus.len() > 0)
    &&& forall|k: int| 0 <= k < st.done.len() ==> well_formed_syllable(#[trigger] st.done[k])
}

proof fn lemma_scan_well_formed<R: SyllableRule>(rule: &R, ls: Seq<LetterView>, i: int)
    requires
        0 <= i < ls.len(),
    ensures
        scan_invariant(scan_from(rule, ls, i)),
        ls[i].ipa_type.is_vowel() ==> scan_from(rule, ls, i).found && scan_from(
            rule,
            ls,
            i,
        ).onset.len() == 0,
    decreases ls.len() - i,
{
    let st = scan_from(rule, ls, i);
    if i == ls.len() - 1 {
        assert(ls.last() == ls[i]);
    } else {
        lemma_scan_well_formed(rule, ls, i + 1);
        let prev = scan_from(rule, ls, i + 1);
        let prev_syl = SyllableView { onset: prev.onset, nucleus: prev.nucleus, coda: prev.coda };
        let closed = prev.closed();
        assert forall|k: int| 0 <= k < closed.len() implies well_formed_syllable(#[trigger] closed[k]) by {
            if k > 0 {
                assert(closed[k] == prev.done[k - 1]);
            }
        }
        let cur = SyllableView { onset: st.onset, nucleus: st.nucleus, coda: st.coda };
        assert forall|k: int| 0 <= k < cur.nucleus.len() implies (#[trigger] cur.nucleus[k]).ipa_type.is_vowel() by {
            if cur.nucleus.len() == prev.nucleus.len() + 1 && cur.nucleus[0] == ls[i] && k > 0 {
                assert(cur.nucleus[k] == prev.nucleus[k - 1]);
            }
        }
        assert forall|k: int| 0 <= k < cur.onset.len() implies !(#[trigger] cur.onset[k]).ipa_type.is_vowel() by {
            if cur.onset.len() == prev.onset.len() + 1 && k > 0 {
                assert(cur.onset[k] == prev.onset[k - 1]);
            }
        }
        assert forall|k: int| 0 <= k < cur.coda.len() implies !(#[trigger] cur.coda[k]).ipa_type.is_vowel() by {
            if cur.coda.len() == prev.coda.len() + 1 && k > 0 {
                assert(cur.coda[k] == prev.coda[k - 1]);
            }
        }
    }
}

/// Every syllable of a word has a nucleus of vowels and no vowel outside
/// it. The only syllable without a nucleus is a non-empty run of consonants
/// and suprasegmentals held as a coda: what is split off after a forbidden
/// neighbour pair, or a word (or its start) with no vowel.
pub proof fn lemma_syllabify_well_formed<R: SyllableRule>(rule: &R, ls: Seq<LetterView>)
    ensures
        forall|k: int|
            0 <= k < syllabify(rule, ls).len() ==> well_formed_syllable(
                #[trigger] syllabify(rule, ls)[k],
            ),
{
    if ls.len() > 0 {
        lemma_scan_well_formed(rule, ls, 0);
        let st = scan_from(rule, ls, 0);
        let ss = syllabify(rule, ls);
        assert forall|k: int| 0 <= k < ss.len() implies well_formed_syllable(#[trigger] ss[k]) by {
            if k > 0 {
                assert(ss[k] == st.done[k - 1]);
            }
        }
    }
}

} // verus!
