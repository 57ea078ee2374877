//! Turning the candidate transcriptions of a pronunciation source into words.

use crate::letter::ParseError;
use crate::phoneme::LetterView;
use crate::text::grapheme_clusters;
use crate::word::{parse_clusters, Word};
use vstd::prelude::*;

verus! {

/// Why no words came out for an orthographic word.
#[derive(Clone, Debug, PartialEq)]
pub enum IpaError {
    /// The pronunciation source had no transcription for it.
    Lookup(String),
    /// A transcription held a cluster that the symbol table does not read.
    Parse(ParseError),
}

/// The words read from the transcriptions `ts`, in order; or the first
/// offending cluster, with its index, of the first transcription that fails.
pub open spec fn parse_transcriptions(ts: Seq<Seq<char>>) -> Result<
    Seq<Seq<LetterView>>,
    (int, Seq<char>),
>
    decreases ts.len(),
{
    if ts.len() == 0 {
        Ok(Seq::empty())
    } else {
        match parse_transcriptions(ts.drop_last()) {
            Err(e) => Err(e),
            Ok(front) => match parse_clusters(grapheme_clusters(ts.last())) {
                Ok(w) => Ok(front.push(w)),
                Err(e) => Err(e),
            },
        }
    }
}

proof fn lemma_parse_transcriptions_error(ts: Seq<Seq<char>>, n: int)
    requires
        0 <= n <= ts.len(),
        parse_transcriptions(ts.subrange(0, n)) is Err,
    ensures
        parse_transcriptions(ts) == parse_transcriptions(ts.subrange(0, n)),
    decreases ts.len() - n,
{
    if n < ts.len() {
        assert(ts.subrange(0, n + 1).drop_last() =~= ts.subrange(0, n));
        lemma_parse_transcriptions_error(ts, n + 1);
    } else {
        assert(ts.subrange(0, n) =~= ts);
    }
}

/// Reads each candidate transcription as a word; fails on the first that
/// does not read.
pub fn words_from_candidates(candidates: &Vec<String>) -> (r: Result<Vec<Word>, ParseError>)
    ensures
        match r {
            Ok(ws) => parse_transcriptions(candidates@.map_values(|c: String| c@)) == Ok::<
                Seq<Seq<LetterView>>,
                (int, Seq<char>),
            >(ws@.map_values(|w: Word| w@)),
            Err(e) => parse_transcriptions(candidates@.map_values(|c: String| c@)) == Err::<
                Seq<Seq<LetterView>>,
                (int, Seq<char>),
            >(e@),
        },
{
    let ghost ts = candidates@.map_values(|c: String| c@);
    let mut out: Vec<Word> = Vec::new();
    let mut i: usize = 0;
    assert(ts.subrange(0, 0) =~= Seq::<Seq<char>>::empty());
    assert(out@.map_values(|w: Word| w@) =~= Seq::<Seq<LetterView>>::empty());
    while i < candidates.len()
        invariant
            i <= candidates@.len(),
            ts == candidates@.map_values(|c: String| c@),
            parse_transcriptions(ts.subrange(0, i as int)) == Ok::<
                Seq<Seq<LetterView>>,
                (int, Seq<char>),
            >(out@.map_values(|w: Word| w@)),
        decreases candidates@.len() - i,
    {
        assert(ts.subrange(0, i + 1 as int).drop_last() =~= ts.subrange(0, i as int));
        assert(ts.subrange(0, i + 1 as int).last() == candidates@[i as int]@);
        match Word::parse(candidates[i].as_str()) {
            Ok(w) => {
                let ghost before = out@.map_values(|w: Word| w@);
                out.push(w);
                assert(out@.map_values(|w: Word| w@) =~= before.push(w@));
            },
            Err(e) => {
                proof {
                    lemma_parse_transcriptions_error(ts, i as int + 1);
                }
                return Err(e);
            },
        }
        i += 1;
    }
    assert(ts.subrange(0, ts.len() as int) =~= ts);
    Ok(out)
}

/// What reading the candidates `c` that a source returned gives: the
/// source's error unchanged, or the words of the candidates, or the first
/// cluster among them that no row of the table reads.
pub open spec fn ipa_outcome(
    c: Result<Vec<String>, IpaError>,
    r: Result<Vec<Word>, IpaError>,
) -> bool {
    match c {
        Err(e) => r == Err::<Vec<Word>, IpaError>(e),
        Ok(cs) => match r {
            Ok(ws) => parse_transcriptions(cs@.map_values(|s: String| s@)) == Ok::<
                Seq<Seq<LetterView>>,
                (int, Seq<char>),
            >(ws@.map_values(|w: Word| w@)),
            Err(IpaError::Parse(e)) => parse_transcriptions(cs@.map_values(|s: String| s@))
                == Err::<Seq<Seq<LetterView>>, (int, Seq<char>)>(e@),
            Err(IpaError::Lookup(_)) => false,
        },
    }
}

/// Whether `r` is what reading the candidates of some result `c` of a
/// source can give, where `source(c)` says which results the source may give.
pub open spec fn read_from(
    source: spec_fn(Result<Vec<String>, IpaError>) -> bool,
    r: Result<Vec<Word>, IpaError>,
) -> bool {
    exists|c: Result<Vec<String>, IpaError>| #[trigger] source(c) && ipa_outcome(c, r)
}

/// A source of candidate transcriptions for orthographic words, such as a
/// pronunciation dictionary. Sources live outside the library.
pub trait IpaConverter {
    /// Whether `result` is what the source may give for the word `input`.
    /// A source that says nothing of its results admits any.
    open spec fn converts(&self, input: Seq<char>, result: Result<Vec<String>, IpaError>) -> bool {
        true
    }

    /// The candidate transcriptions of one word.
    fn convert_single(&self, input: &str) -> (r: Result<Vec<String>, IpaError>)
        ensures
            self.converts(input@, r),
    ;

    /// The candidate transcriptions of each word, in order.
    fn convert(&self, inputs: &Vec<&str>) -> (r: Vec<Result<Vec<String>, IpaError>>)
        ensures
            r@.len() == inputs@.len(),
            forall|i: int| 0 <= i < inputs@.len() ==> self.converts(inputs@[i]@, #[trigger] r@[i]),
    {
        let mut out: Vec<Result<Vec<String>, IpaError>> = Vec::new();
        let mut i: usize = 0;
        while i < inputs.len()
            invariant
                i <= inputs@.len(),
                out@.len() == i,
                forall|k: int| 0 <= k < i ==> self.converts(inputs@[k]@, #[trigger] out@[k]),
            decreases inputs@.len() - i,
        {
            out.push(self.convert_single(inputs[i]));
            i += 1;
        }
        out
    }

    /// The candidate transcriptions of one word, read as words: the source's
    /// error is passed on; else every candidate is read, in order, or the
    /// first that does not read is reported.
    fn get_ipa_single(&self, input: &str) -> (r: Result<Vec<Word>, IpaError>)
        ensures
            read_from(|c: Result<Vec<String>, IpaError>| self.converts(input@, c), r),
    {
        let c = self.convert_single(input);
        let ghost gc = c;
        let r = match c {
            Ok(candidates) => match words_from_candidates(&candidates) {
                Ok(words) => Ok(words),
                Err(e) => Err(IpaError::Parse(e)),
            },
            Err(e) => Err(e),
        };
        let ghost source = |c: Result<Vec<String>, IpaError>| self.converts(input@, c);
        assert(source(gc) && ipa_outcome(gc, r));
        r
    }

    /// The candidate transcriptions of each word, read as words, in order.
    fn get_ipa(&self, inputs: &Vec<&str>) -> (r: Vec<Result<Vec<Word>, IpaError>>)
        ensures
            r@.len() == inputs@.len(),
            forall|k: int|
                0 <= k < inputs@.len() ==> read_from(
                    |c: Result<Vec<String>, IpaError>| self.converts(inputs@[k]@, c),
                    #[trigger] r@[k],
                ),
    {
        let mut out: Vec<Result<Vec<Word>, IpaError>> = Vec::new();
        let mut i: usize = 0;
        while i < inputs.len()
            invariant
                i <= inputs@.len(),
                out@.len() == i,
                forall|k: int|
                    0 <= k < i ==> read_from(
                        |c: Result<Vec<String>, IpaError>| self.converts(inputs@[k]@, c),
                        #[trigger] out@[k],
                    ),
            decreases inputs@.len() - i,
        {
            out.push(self.get_ipa_single(inputs[i]));
            i += 1;
        }
        out
    }
}

} // verus!
