//! Words: a transcription read grapheme cluster by grapheme cluster.

use crate::letter::{parse_letter, render_letter, ParseError};
use crate::phoneme::{Letter, LetterView};
use crate::symbols::RenderError;
use crate::text::{concat_clusters, grapheme_clusters, graphemes, string_of};
use vstd::prelude::*;

verus! {

/// An ordered sequence of letters, read from one transcription.
#[derive(Debug, Default)]
pub struct Word(Vec<Letter>);

impl View for Word {
    type V = Seq<LetterView>;

    closed spec fn view(&self) -> Seq<LetterView> {
        self.0@.map_values(|l: Letter| l@)
    }
}

/// Whether a grapheme cluster is the slash that delimits a transcription.
pub open spec fn is_delimiter(c: Seq<char>) -> bool {
    c == seq!['/']
}

/// The letters written by the grapheme clusters `cs`, delimiters skipped;
/// or the index and text of the first cluster that no row of the table reads.
pub open spec fn parse_clusters(cs: Seq<Seq<char>>) -> Result<Seq<LetterView>, (int, Seq<char>)>
    decreases cs.len(),
{
    if cs.len() == 0 {
        Ok(Seq::empty())
    } else {
        match parse_clusters(cs.drop_last()) {
            Err(e) => Err(e),
            Ok(front) => {
                let c = cs.last();
                if is_delimiter(c) {
                    Ok(front)
                } else {
                    match parse_letter(c) {
                        Some(l) => Ok(front.push(l)),
                        None => Err((cs.len() - 1, c)),
                    }
                }
            },
        }
    }
}

/// The text of the letters `ls`, one after the other.
pub open spec fn render_word(ls: Seq<LetterView>) -> Option<Seq<char>>
    decreases ls.len(),
{
    if ls.len() == 0 {
        Some(Seq::empty())
    } else {
        match (render_word(ls.drop_last()), render_letter(ls.last())) {
            (Some(front), Some(t)) => Some(front + t),
            _ => None,
        }
    }
}

/// Appends the text of the letters `ls` to `out`; false where one has no
/// row in the table.
pub(crate) fn push_letters(out: &mut Vec<char>, ls: &Vec<Letter>) -> (ok: bool)
    ensures
        match render_word(ls@.map_values(|l: Letter| l@)) {
            Some(t) => ok && final(out)@ == old(out)@ + t,
            None => !ok,
        },
{
    let ghost v = ls@.map_values(|l: Letter| l@);
    let ghost start = out@;
    let mut i: usize = 0;
    assert(v.subrange(0, 0) =~= Seq::<LetterView>::empty());
    assert(out@ =~= start + Seq::<char>::empty());
    while i < ls.len()
        invariant
            i <= ls@.len(),
            v == ls@.map_values(|l: Letter| l@),
            render_word(v.subrange(0, i as int)) matches Some(t) && out@ == start + t,
        decreases ls@.len() - i,
    {
        assert(v.subrange(0, i + 1 as int).drop_last() =~= v.subrange(0, i as int));
        assert(v.subrange(0, i + 1 as int).last() == ls@[i as int]@);
        if !ls[i].push_symbol(out) {
            proof {
                lemma_render_word_prefix(v, i as int + 1);
            }
            return false;
        }
        assert(out@ =~= start + render_word(v.subrange(0, i + 1 as int))->0);
        i += 1;
    }
    assert(v.subrange(0, v.len() as int) =~= v);
    true
}

/// Rendering fails for letters whenever it fails for a prefix of them.
proof fn lemma_render_word_prefix(ls: Seq<LetterView>, n: int)
    requires
        0 <= n <= ls.len(),
        render_word(ls.subrange(0, n)) is None,
    ensures
        render_word(ls) is None,
    decreases ls.len() - n,
{
    if n < ls.len() {
        assert(ls.subrange(0, n + 1).drop_last() =~= ls.subrange(0, n));
        lemma_render_word_prefix(ls, n + 1);
    } else {
        assert(ls.subrange(0, n) =~= ls);
    }
}

impl Word {
    /// The letters of this word, in order.
    pub fn letters(&self) -> (r: &Vec<Letter>)
        ensures
            r@.map_values(|l: Letter| l@) == self@,
    {
        &self.0
    }

    /// The number of letters.
    pub fn len(&self) -> (r: usize)
        ensures
            r == self@.len(),
    {
        self.0.len()
    }

    /// Reads a word from its grapheme clusters, skipping slash delimiters;
    /// fails on the first cluster that no row of the table reads.
    pub fn parse_clusters(clusters: &Vec<String>) -> (r: Result<Word, ParseError>)
        ensures
            match r {
                Ok(w) => parse_clusters(clusters@.map_values(|c: String| c@)) == Ok::<
                    Seq<LetterView>,
                    (int, Seq<char>),
                >(w@),
                Err(e) => parse_clusters(clusters@.map_values(|c: String| c@)) == Err::<
                    Seq<LetterView>,
                    (int, Seq<char>),
                >(e@),
            },
    {
        let ghost cs = clusters@.map_values(|c: String| c@);
        let mut out: Vec<Letter> = Vec::new();
        let mut i: usize = 0;
        assert(cs.subrange(0, 0) =~= Seq::<Seq<char>>::empty());
        assert(out@.map_values(|l: Letter| l@) =~= Seq::<LetterView>::empty());
        while i < clusters.len()
            invariant
                i <= clusters@.len(),
                cs == clusters@.map_values(|c: String| c@),
                parse_clusters(cs.subrange(0, i as int)) == Ok::<Seq<LetterView>, (int, Seq<char>)>(
                    out@.map_values(|l: Letter| l@),
                ),
            decreases clusters@.len() - i,
        {
            assert(cs.subrange(0, i + 1 as int).drop_last() =~= cs.subrange(0, i as int));
            assert(cs.subrange(0, i + 1 as int).last() == clusters@[i as int]@);
            let cluster = clusters[i].as_str();
            let is_slash = cluster.unicode_len() == 1 && cluster.get_char(0) == '/';
            proof {
                if is_slash {
                    assert(cluster@ =~= seq!['/']);
                } else if cluster@.len() == 1 {
                    assert(cluster@ != seq!['/']);
                }
            }
            if !is_slash {
                match Letter::parse(cluster) {
                    Ok(l) => {
                        out.push(l);
                        assert(out@.map_values(|l: Letter| l@) =~= parse_clusters(
                            cs.subrange(0, i as int),
                        )->Ok_0.push(l@));
                    },
                    Err(e) => {
                        proof {
                            lemma_parse_clusters_error(cs, i as int + 1);
                        }
                        return Err(ParseError { text: e.text, position: i });
                    },
                }
            }
            i += 1;
        }
        assert(cs.subrange(0, cs.len() as int) =~= cs);
        Ok(Word(out))
    }

    /// Reads a transcription: splits it into extended grapheme clusters,
    /// skips slash delimiters and reads each cluster as a letter; fails on the
    /// first cluster that no row of the table reads.
    pub fn parse(value: &str) -> (r: Result<Word, ParseError>)
        ensures
            match r {
                Ok(w) => parse_clusters(grapheme_clusters(value@)) == Ok::<
                    Seq<LetterView>,
                    (int, Seq<char>),
                >(w@),
                Err(e) => parse_clusters(grapheme_clusters(value@)) == Err::<
                    Seq<LetterView>,
                    (int, Seq<char>),
                >(e@),
            },
            (forall|k: int|
                0 <= k < grapheme_clusters(value@).len() ==> reads_back(
                    #[trigger] grapheme_clusters(value@)[k],
                )) ==> (r matches Ok(w) && render_word(w@) == Some(value@)),
    {
        let clusters = graphemes(value);
        proof {
            let cs = grapheme_clusters(value@);
            if forall|k: int| 0 <= k < cs.len() ==> reads_back(#[trigger] cs[k]) {
                lemma_word_round_trip(cs);
            }
        }
        Word::parse_clusters(&clusters)
    }

    /// The text of this word, or an error where a letter has no row in the table.
    pub fn render(&self) -> (r: Result<String, RenderError>)
        ensures
            match r {
                Ok(s) => render_word(self@) == Some(s@),
                Err(_) => render_word(self@) is None,
            },
    {
        let mut cs: Vec<char> = Vec::new();
        if push_letters(&mut cs, &self.0) {
            assert(cs@ =~= Seq::<char>::empty() + cs@);
            Ok(string_of(&cs))
        } else {
            Err(RenderError)
        }
    }

    /// The text of this word.
    pub fn to_string(&self) -> (r: String)
        requires
            render_word(self@) is Some,
        ensures
            render_word(self@) == Some(r@),
    {
        match self.render() {
            Ok(s) => s,
            Err(_) => String::new(),
        }
    }
}

/// Reading fails for a list of clusters whenever it fails for a prefix.
proof fn lemma_parse_clusters_error(cs: Seq<Seq<char>>, n: int)
    requires
        0 <= n <= cs.len(),
        parse_clusters(cs.subrange(0, n)) is Err,
    ensures
        parse_clusters(cs) == parse_clusters(cs.subrange(0, n)),
    decreases cs.len() - n,
{
    if n < cs.len() {
        assert(cs.subrange(0, n + 1).drop_last() =~= cs.subrange(0, n));
        lemma_parse_clusters_error(cs, n + 1);
    } else {
        assert(cs.subrange(0, n) =~= cs);
    }
}

/// A cluster, other than a delimiter, that reads as a letter whose text is
/// the cluster itself.
pub open spec fn reads_back(c: Seq<char>) -> bool {
    &&& !is_delimiter(c)
    &&& match parse_letter(c) {
        Some(l) => render_letter(l) == Some(c),
        None => false,
    }
}

/// Text round trip: clusters that each read back as themselves (the text of
/// any vowel or pulmonic consonant row does, see `lemma_vowel_rows_read_back`
/// and `lemma_consonant_rows_read_back`) read as a word whose text is the
/// clusters one after the other.
pub proof fn lemma_word_round_trip(cs: Seq<Seq<char>>)
    requires
        forall|k: int| 0 <= k < cs.len() ==> reads_back(#[trigger] cs[k]),
    ensures
        parse_clusters(cs) is Ok,
        render_word(parse_clusters(cs)->Ok_0) == Some(concat_clusters(cs)),
    decreases cs.len(),
{
    if cs.len() > 0 {
        let front = cs.drop_last();
        assert forall|k: int| 0 <= k < front.len() implies reads_back(#[trigger] front[k]) by {
            assert(front[k] == cs[k]);
        }
        lemma_word_round_trip(front);
        assert(reads_back(cs[cs.len() - 1]));
        let ls = parse_clusters(cs)->Ok_0;
        assert(ls.drop_last() =~= parse_clusters(front)->Ok_0);
    }
}

impl<'a> vstd::std_specs::convert::TryFromSpecImpl<&'a str> for Word {
    open spec fn obeys_try_from_spec() -> bool {
        false
    }

    open spec fn try_from_spec(value: &'a str) -> Result<Word, ParseError> {
        arbitrary()
    }
}

impl<'a> TryFrom<&'a str> for Word {
    type Error = ParseError;

    fn try_from(value: &'a str) -> Result<Word, ParseError> {
        Word::parse(value)
    }
}

impl vstd::std_specs::convert::FromSpecImpl<Word> for Vec<Letter> {
    open spec fn obeys_from_spec() -> bool {
        true
    }

    closed spec fn from_spec(w: Word) -> Vec<Letter> {
        w.0
    }
}

impl From<Word> for Vec<Letter> {
    fn from(value: Word) -> Vec<Letter> {
        value.0
    }
}

} // verus!
