//! Rows of the symbol table read back what they write.

use crate::letter::{replacement_of, rewritten};
use crate::phoneme::{Diacritic, PulmonicConsonant};
use crate::symbols::{
    consonant_match_from, consonant_row_from, diacritic_row_from, diacritics_from,
    occurrences, parse_consonant, parse_diacritics, parse_suprasegmental, parse_vowel, render_consonant,
    render_diacritic, render_suprasegmental, render_vowel, suprasegmental_row_from,
    suprasegmental_position, suprasegmental_row_of, vowel_match_from, vowel_row_from,
};
use crate::table::{
    consonant_entry, diacritic_entry, suprasegmental_entry, vowel_entry, CONSONANT_COUNT,
    DIACRITIC_COUNT, SUPRASEGMENTAL_COUNT, VOWEL_COUNT,
};
use crate::text::covers;
use crate::word::{is_delimiter, reads_back};
use vstd::prelude::*;

verus! {

/// Whether `c` is among the first four characters of `g`.
spec fn holds4(g: Seq<char>, c: char) -> bool {
    ||| g.len() > 0 && g[0] == c
    ||| g.len() > 1 && g[1] == c
    ||| g.len() > 2 && g[2] == c
    ||| g.len() > 3 && g[3] == c
}

/// `covers` for a requirement of at most four characters.
spec fn covers4(g: Seq<char>, req: Seq<char>) -> bool {
    &&& req.len() > 0 ==> holds4(g, req[0])
    &&& req.len() > 1 ==> holds4(g, req[1])
    &&& req.len() > 2 ==> holds4(g, req[2])
    &&& req.len() > 3 ==> holds4(g, req[3])
}

/// On short sequences `covers4` is `covers`.
proof fn lemma_covers4(g: Seq<char>, req: Seq<char>)
    requires g.len() <= 4, req.len() <= 4,
    ensures covers4(g, req) == covers(g, req),
{
    assert forall|c: char| holds4(g, c) == g.contains(c) by {
        if g.contains(c) {
            let k = choose|k: int| 0 <= k < g.len() && g[k] == c;
            assert(k == 0 || k == 1 || k == 2 || k == 3);
        }
    }
    if covers(g, req) {
        assert(req.len() > 0 ==> g.contains(req[0]));
        assert(req.len() > 1 ==> g.contains(req[1]));
        assert(req.len() > 2 ==> g.contains(req[2]));
        assert(req.len() > 3 ==> g.contains(req[3]));
    }
    if covers4(g, req) {
        assert forall|k: int| 0 <= k < req.len() implies g.contains(#[trigger] req[k]) by {
            assert(k == 0 || k == 1 || k == 2 || k == 3);
        }
    }
}

/// `vowel_match_from` with `covers4` in place of `covers`.
spec fn vowel_first4(g: Seq<char>, i: usize) -> Option<usize>
    decreases VOWEL_COUNT - i,
{
    if i >= VOWEL_COUNT { None } else if covers4(g, vowel_entry(i).1) { Some(i) } else { vowel_first4(g, (i + 1) as usize) }
}

/// On a short grapheme `vowel_first4` is `vowel_match_from`.
proof fn lemma_first4(g: Seq<char>, i: usize)
    requires g.len() <= 4,
    ensures vowel_first4(g, i) == vowel_match_from(g, i),
    decreases VOWEL_COUNT - i,
{
    if i < VOWEL_COUNT {
        assert(vowel_entry(i).1.len() <= 4);
        lemma_covers4(g, vowel_entry(i).1);
        lemma_first4(g, (i + 1) as usize);
    }
}

/// The round trip for one band of rows.
proof fn lemma_rows_0(i: usize)
    requires
        0 <= i < 7,
    ensures
        vowel_match_from(vowel_entry(i).1, 0) == Some(i),
        render_vowel(vowel_entry(i).0) == Some(vowel_entry(i).1),
{
    let g = vowel_entry(i).1;
    assert(g.len() <= 4);
    lemma_first4(g, 0);
    reveal_with_fuel(vowel_first4, 8);
    reveal_with_fuel(vowel_row_from, 8);
    assert(i == 0 || i == 1 || i == 2 || i == 3 || i == 4 || i == 5 || i == 6);
}

/// The round trip for one band of rows.
proof fn lemma_rows_1(i: usize)
    requires
        7 <= i < 13,
    ensures
        vowel_match_from(vowel_entry(i).1, 0) == Some(i),
        render_vowel(vowel_entry(i).0) == Some(vowel_entry(i).1),
{
    let g = vowel_entry(i).1;
    assert(g.len() <= 4);
    lemma_first4(g, 0);
    reveal_with_fuel(vowel_first4, 14);
    reveal_with_fuel(vowel_row_from, 14);
    assert(i == 7 || i == 8 || i == 9 || i == 10 || i == 11 || i == 12);
}

/// The round trip for one band of rows.
proof fn lemma_rows_2(i: usize)
    requires
        13 <= i < 18,
    ensures
        vowel_match_from(vowel_entry(i).1, 0) == Some(i),
        render_vowel(vowel_entry(i).0) == Some(vowel_entry(i).1),
{
    let g = vowel_entry(i).1;
    assert(g.len() <= 4);
    lemma_first4(g, 0);
    reveal_with_fuel(vowel_first4, 19);
    reveal_with_fuel(vowel_row_from, 19);
    assert(i == 13 || i == 14 || i == 15 || i == 16 || i == 17);
}

/// The round trip for one band of rows.
proof fn lemma_rows_3(i: usize)
    requires
        18 <= i < 23,
    ensures
        vowel_match_from(vowel_entry(i).1, 0) == Some(i),
        render_vowel(vowel_entry(i).0) == Some(vowel_entry(i).1),
{
    let g = vowel_entry(i).1;
    assert(g.len() <= 4);
    lemma_first4(g, 0);
    reveal_with_fuel(vowel_first4, 24);
    reveal_with_fuel(vowel_row_from, 24);
    assert(i == 18 || i == 19 || i == 20 || i == 21 || i == 22);
}

/// The round trip for one band of rows.
proof fn lemma_rows_4(i: usize)
    requires
        23 <= i < 27,
    ensures
        vowel_match_from(vowel_entry(i).1, 0) == Some(i),
        render_vowel(vowel_entry(i).0) == Some(vowel_entry(i).1),
{
    let g = vowel_entry(i).1;
    assert(g.len() <= 4);
    lemma_first4(g, 0);
    reveal_with_fuel(vowel_first4, 28);
    reveal_with_fuel(vowel_row_from, 28);
    assert(i == 23 || i == 24 || i == 25 || i == 26);
}

/// The round trip for one band of rows.
#[verifier::rlimit(40)]
proof fn lemma_rows_5(i: usize)
    requires
        27 <= i < 30,
    ensures
        vowel_match_from(vowel_entry(i).1, 0) == Some(i),
        render_vowel(vowel_entry(i).0) == Some(vowel_entry(i).1),
{
    let g = vowel_entry(i).1;
    assert(g.len() <= 4);
    lemma_first4(g, 0);
    reveal_with_fuel(vowel_first4, 31);
    reveal_with_fuel(vowel_row_from, 31);
    assert(i == 27 || i == 28 || i == 29);
}

/// The round trip for one band of rows.
#[verifier::rlimit(40)]
proof fn lemma_rows_6(i: usize)
    requires
        30 <= i < 33,
    ensures
        vowel_match_from(vowel_entry(i).1, 0) == Some(i),
        render_vowel(vowel_entry(i).0) == Some(vowel_entry(i).1),
{
    let g = vowel_entry(i).1;
    assert(g.len() <= 4);
    lemma_first4(g, 0);
    reveal_with_fuel(vowel_first4, 34);
    reveal_with_fuel(vowel_row_from, 34);
    assert(i == 30 || i == 31 || i == 32);
}

/// Table round trip for vowels: every row of the vowel list renders as its
/// own codepoints, and those codepoints read back as the row's vowel.
pub proof fn lemma_vowel_table_round_trip(i: usize)
    requires
        i < VOWEL_COUNT,
    ensures
        render_vowel(vowel_entry(i).0) == Some(vowel_entry(i).1),
        parse_vowel(vowel_entry(i).1) == Some(vowel_entry(i).0),
        vowel_match_from(vowel_entry(i).1, 0) == Some(i),
{
    if i < 7 {
        lemma_rows_0(i);
    } else if i < 13 {
        lemma_rows_1(i);
    } else if i < 18 {
        lemma_rows_2(i);
    } else if i < 23 {
        lemma_rows_3(i);
    } else if i < 27 {
        lemma_rows_4(i);
    } else if i < 30 {
        lemma_rows_5(i);
    } else {
        lemma_rows_6(i);
    }
}

/// Table round trip for suprasegmentals: every row of the suprasegmental map
/// renders as its own codepoint, and that codepoint reads back as the row's
/// marker.
pub proof fn lemma_suprasegmental_table_round_trip(i: usize)
    requires
        i < SUPRASEGMENTAL_COUNT,
    ensures
        render_suprasegmental(suprasegmental_entry(i).1) == Some(seq![suprasegmental_entry(i).0]),
        parse_suprasegmental(seq![suprasegmental_entry(i).0]) == Some(suprasegmental_entry(i).1),
{
    let g = seq![suprasegmental_entry(i).0];
    assert(g[0] == suprasegmental_entry(i).0);
    reveal_with_fuel(suprasegmental_row_from, 12);
    reveal_with_fuel(suprasegmental_row_of, 12);
    reveal_with_fuel(suprasegmental_position, 2);
    assert(i == 0 || i == 1 || i == 2 || i == 3 || i == 4 || i == 5 || i == 6 || i == 7 || i == 8 || i == 9 || i == 10);
}

/// A grapheme whose codepoints all write its unit carries no diacritic.
proof fn lemma_no_diacritics_in_base(g: Seq<char>, i: usize)
    ensures
        diacritics_from(g, g, i) == Seq::<Diacritic>::empty(),
    decreases DIACRITIC_COUNT - i,
{
    if i < DIACRITIC_COUNT {
        lemma_no_diacritics_in_base(g, (i + 1) as usize);
    }
}

/// Rewriting leaves a grapheme without precomposed characters as it is.
proof fn lemma_rewritten_plain(g: Seq<char>)
    requires
        forall|k: int| 0 <= k < g.len() ==> replacement_of(#[trigger] g[k], 0) is None,
    ensures
        rewritten(g) == g,
    decreases g.len(),
{
    if g.len() > 0 {
        let front = g.drop_last();
        assert forall|k: int| 0 <= k < front.len() implies replacement_of(
            #[trigger] front[k],
            0,
        ) is None by {
            assert(front[k] == g[k]);
        }
        lemma_rewritten_plain(front);
        assert(replacement_of(g[g.len() - 1], 0) is None);
        assert(rewritten(g) =~= g);
    }
}

/// No codepoint of a vowel row is a precomposed character of the rewrite
/// list, nor is a row the slash delimiter.
proof fn lemma_vowel_row_plain(i: usize)
    requires
        i < VOWEL_COUNT,
    ensures
        forall|k: int|
            0 <= k < vowel_entry(i).1.len() ==> replacement_of(#[trigger] vowel_entry(i).1[k], 0) is None,
        !is_delimiter(vowel_entry(i).1),
{
    let g = vowel_entry(i).1;
    reveal_with_fuel(replacement_of, 4);
    assert(i == 0 || i == 1 || i == 2 || i == 3 || i == 4 || i == 5 || i == 6 || i == 7 || i == 8 || i == 9 || i == 10 || i == 11 || i == 12 || i == 13 || i == 14 || i == 15 || i == 16 || i == 17 || i == 18 || i == 19 || i == 20 || i == 21 || i == 22 || i == 23 || i == 24 || i == 25 || i == 26 || i == 27 || i == 28 || i == 29 || i == 30 || i == 31 || i == 32);
    assert(g.len() <= 4);
    assert(g.len() > 0 && g[0] != '/');
    assert forall|k: int| 0 <= k < g.len() implies replacement_of(#[trigger] g[k], 0) is None by {
        assert(k == 0 || k == 1 || k == 2 || k == 3);
    }
}

/// Text round trip for vowels: the text of every row of the vowel list
/// reads as a letter whose text is that row again, so any run of such texts,
/// one per grapheme cluster, reads as a word that renders back to the run.
pub proof fn lemma_vowel_rows_read_back(i: usize)
    requires
        i < VOWEL_COUNT,
    ensures
        reads_back(vowel_entry(i).1),
{
    let g = vowel_entry(i).1;
    lemma_vowel_table_round_trip(i);
    lemma_vowel_row_plain(i);
    lemma_rewritten_plain(g);
    lemma_no_diacritics_in_base(g, 0);
    assert(parse_diacritics(g, g) =~= Seq::<Diacritic>::empty());
}

/// The diacritic map keys one band of rows by codepoints of their own.
proof fn lemma_diacritic_keys_0(i: usize, j: usize)
    requires
        0 <= i < 9,
        j < DIACRITIC_COUNT,
        j != i,
    ensures
        diacritic_entry(j).0 != diacritic_entry(i).0,
{
    assert(i == 0 || i == 1 || i == 2 || i == 3 || i == 4 || i == 5 || i == 6 || i == 7 || i == 8);
    assert(j == 0 || j == 1 || j == 2 || j == 3 || j == 4 || j == 5 || j == 6 || j == 7 || j == 8 || j == 9 || j == 10 || j == 11 || j == 12 || j == 13 || j == 14 || j == 15 || j == 16 || j == 17 || j == 18 || j == 19 || j == 20 || j == 21 || j == 22 || j == 23 || j == 24 || j == 25 || j == 26 || j == 27 || j == 28 || j == 29 || j == 30 || j == 31 || j == 32 || j == 33 || j == 34 || j == 35 || j == 36 || j == 37 || j == 38 || j == 39 || j == 40 || j == 41 || j == 42 || j == 43 || j == 44);
}

/// The diacritic map keys one band of rows by codepoints of their own.
proof fn lemma_diacritic_keys_1(i: usize, j: usize)
    requires
        9 <= i < 18,
        j < DIACRITIC_COUNT,
        j != i,
    ensures
        diacritic_entry(j).0 != diacritic_entry(i).0,
{
    assert(i == 9 || i == 10 || i == 11 || i == 12 || i == 13 || i == 14 || i == 15 || i == 16 || i == 17);
    assert(j == 0 || j == 1 || j == 2 || j == 3 || j == 4 || j == 5 || j == 6 || j == 7 || j == 8 || j == 9 || j == 10 || j == 11 || j == 12 || j == 13 || j == 14 || j == 15 || j == 16 || j == 17 || j == 18 || j == 19 || j == 20 || j == 21 || j == 22 || j == 23 || j == 24 || j == 25 || j == 26 || j == 27 || j == 28 || j == 29 || j == 30 || j == 31 || j == 32 || j == 33 || j == 34 || j == 35 || j == 36 || j == 37 || j == 38 || j == 39 || j == 40 || j == 41 || j == 42 || j == 43 || j == 44);
}

/// The diacritic map keys one band of rows by codepoints of their own.
proof fn lemma_diacritic_keys_2(i: usize, j: usize)
    requires
        18 <= i < 27,
        j < DIACRITIC_COUNT,
        j != i,
    ensures
        diacritic_entry(j).0 != diacritic_entry(i).0,
{
    assert(i == 18 || i == 19 || i == 20 || i == 21 || i == 22 || i == 23 || i == 24 || i == 25 || i == 26);
    assert(j == 0 || j == 1 || j == 2 || j == 3 || j == 4 || j == 5 || j == 6 || j == 7 || j == 8 || j == 9 || j == 10 || j == 11 || j == 12 || j == 13 || j == 14 || j == 15 || j == 16 || j == 17 || j == 18 || j == 19 || j == 20 || j == 21 || j == 22 || j == 23 || j == 24 || j == 25 || j == 26 || j == 27 || j == 28 || j == 29 || j == 30 || j == 31 || j == 32 || j == 33 || j == 34 || j == 35 || j == 36 || j == 37 || j == 38 || j == 39 || j == 40 || j == 41 || j == 42 || j == 43 || j == 44);
}

/// The diacritic map keys one band of rows by codepoints of their own.
proof fn lemma_diacritic_keys_3(i: usize, j: usize)
    requires
        27 <= i < 36,
        j < DIACRITIC_COUNT,
        j != i,
    ensures
        diacritic_entry(j).0 != diacritic_entry(i).0,
{
    assert(i == 27 || i == 28 || i == 29 || i == 30 || i == 31 || i == 32 || i == 33 || i == 34 || i == 35);
    assert(j == 0 || j == 1 || j == 2 || j == 3 || j == 4 || j == 5 || j == 6 || j == 7 || j == 8 || j == 9 || j == 10 || j == 11 || j == 12 || j == 13 || j == 14 || j == 15 || j == 16 || j == 17 || j == 18 || j == 19 || j == 20 || j == 21 || j == 22 || j == 23 || j == 24 || j == 25 || j == 26 || j == 27 || j == 28 || j == 29 || j == 30 || j == 31 || j == 32 || j == 33 || j == 34 || j == 35 || j == 36 || j == 37 || j == 38 || j == 39 || j == 40 || j == 41 || j == 42 || j == 43 || j == 44);
}

/// The diacritic map keys one band of rows by codepoints of their own.
proof fn lemma_diacritic_keys_4(i: usize, j: usize)
    requires
        36 <= i < 45,
        j < DIACRITIC_COUNT,
        j != i,
    ensures
        diacritic_entry(j).0 != diacritic_entry(i).0,
{
    assert(i == 36 || i == 37 || i == 38 || i == 39 || i == 40 || i == 41 || i == 42 || i == 43 || i == 44);
    assert(j == 0 || j == 1 || j == 2 || j == 3 || j == 4 || j == 5 || j == 6 || j == 7 || j == 8 || j == 9 || j == 10 || j == 11 || j == 12 || j == 13 || j == 14 || j == 15 || j == 16 || j == 17 || j == 18 || j == 19 || j == 20 || j == 21 || j == 22 || j == 23 || j == 24 || j == 25 || j == 26 || j == 27 || j == 28 || j == 29 || j == 30 || j == 31 || j == 32 || j == 33 || j == 34 || j == 35 || j == 36 || j == 37 || j == 38 || j == 39 || j == 40 || j == 41 || j == 42 || j == 43 || j == 44);
}

/// Rows that key one codepoint and nothing else: a grapheme made of that
/// codepoint alone carries the row's diacritic, once.
proof fn lemma_single_key(c: char, i: usize, from: usize)
    requires
        i < DIACRITIC_COUNT,
        diacritic_entry(i).0 == c,
        forall|j: usize| j < DIACRITIC_COUNT && j != i ==> #[trigger] diacritic_entry(j).0 != c,
    ensures
        diacritics_from(seq![c], Seq::empty(), from) == if from <= i {
            seq![diacritic_entry(i).1]
        } else {
            Seq::<Diacritic>::empty()
        },
    decreases DIACRITIC_COUNT - from,
{
    assert(seq![c].drop_last() =~= Seq::<char>::empty());
    assert forall|x: char| occurrences(seq![c], x) == if x == c {
        1nat
    } else {
        0nat
    } by {
        reveal_with_fuel(occurrences, 2);
        assert(seq![c].last() == c);
        assert(occurrences(Seq::<char>::empty(), x) == 0);
    }
    if from < DIACRITIC_COUNT {
        lemma_single_key(c, i, (from + 1) as usize);
        if from == i {
            assert(seq![diacritic_entry(i).1] + Seq::<Diacritic>::empty() =~= seq![
                diacritic_entry(i).1,
            ]);
        }
    }
}

/// The row that `render_diacritic` picks holds the diacritic, whenever some
/// row at or after `from` does.
proof fn lemma_diacritic_row_found(d: Diacritic, i: usize, from: usize)
    requires
        i < DIACRITIC_COUNT,
        diacritic_entry(i).1 == d,
        from <= i,
    ensures
        diacritic_row_from(d, from) matches Some(r) && r < DIACRITIC_COUNT && diacritic_entry(
            r,
        ).1 == d,
    decreases DIACRITIC_COUNT - from,
{
    if diacritic_entry(from).1 != d {
        lemma_diacritic_row_found(d, i, (from + 1) as usize);
    }
}

/// No other row of the diacritic map has the codepoint of row `r`.
proof fn lemma_diacritic_key_unique(r: usize)
    requires
        r < DIACRITIC_COUNT,
    ensures
        forall|j: usize| j < DIACRITIC_COUNT && j != r ==> #[trigger] diacritic_entry(j).0 != diacritic_entry(r).0,
{
    assert forall|j: usize| j < DIACRITIC_COUNT && j != r implies #[trigger] diacritic_entry(j).0
        != diacritic_entry(r).0 by {
        if r < 9 {
            lemma_diacritic_keys_0(r, j);
        } else if r < 18 {
            lemma_diacritic_keys_1(r, j);
        } else if r < 27 {
            lemma_diacritic_keys_2(r, j);
        } else if r < 36 {
            lemma_diacritic_keys_3(r, j);
        } else {
            lemma_diacritic_keys_4(r, j);
        }
    }
}

/// Every diacritic has a row in the diacritic map.
proof fn lemma_diacritic_has_row(d: Diacritic) -> (i: usize)
    ensures
        i < DIACRITIC_COUNT,
        diacritic_entry(i).1 == d,
{
    match d {
        Diacritic::Syllabic => assert(diacritic_entry(0).1 == d),
        Diacritic::NonSyllabic => assert(diacritic_entry(2).1 == d),
        Diacritic::Aspirated => assert(diacritic_entry(4).1 == d),
        Diacritic::NoAudibleRelease => assert(diacritic_entry(5).1 == d),
        Diacritic::NasalRelease => assert(diacritic_entry(6).1 == d),
        Diacritic::LateralRelease => assert(diacritic_entry(7).1 == d),
        Diacritic::VoicelessDentalFricativeRelease => assert(diacritic_entry(8).1 == d),
        Diacritic::VoicelessVelarFricativeRelease => assert(diacritic_entry(9).1 == d),
        Diacritic::MidCentralVowelRelease => assert(diacritic_entry(10).1 == d),
        Diacritic::Voiceless => assert(diacritic_entry(11).1 == d),
        Diacritic::Voiced => assert(diacritic_entry(13).1 == d),
        Diacritic::BreathyVoiced => assert(diacritic_entry(14).1 == d),
        Diacritic::CreakyVoiced => assert(diacritic_entry(15).1 == d),
        Diacritic::Dental => assert(diacritic_entry(16).1 == d),
        Diacritic::Linguolabial => assert(diacritic_entry(18).1 == d),
        Diacritic::Apical => assert(diacritic_entry(19).1 == d),
        Diacritic::Laminal => assert(diacritic_entry(20).1 == d),
        Diacritic::Advanced => assert(diacritic_entry(21).1 == d),
        Diacritic::Retracted => assert(diacritic_entry(22).1 == d),
        Diacritic::Centralized => assert(diacritic_entry(24).1 == d),
        Diacritic::MidCentralized => assert(diacritic_entry(25).1 == d),
        Diacritic::Raised => assert(diacritic_entry(26).1 == d),
        Diacritic::Lowered => assert(diacritic_entry(28).1 == d),
        Diacritic::MoreRounded => assert(diacritic_entry(30).1 == d),
        Diacritic::LessRounded => assert(diacritic_entry(32).1 == d),
        Diacritic::Labialized => assert(diacritic_entry(34).1 == d),
        Diacritic::Palatalized => assert(diacritic_entry(35).1 == d),
        Diacritic::Velarized => assert(diacritic_entry(36).1 == d),
        Diacritic::VelarizedOrPharyngealized => assert(diacritic_entry(37).1 == d),
        Diacritic::Pharyngealized => assert(diacritic_entry(38).1 == d),
        Diacritic::AdvancedTongueRoot => assert(diacritic_entry(39).1 == d),
        Diacritic::RetractedTongueRoot => assert(diacritic_entry(41).1 == d),
        Diacritic::Nasalized => assert(diacritic_entry(43).1 == d),
        Diacritic::Rhoticity => assert(diacritic_entry(44).1 == d),
    }
    choose|i: usize| i < DIACRITIC_COUNT && diacritic_entry(i).1 == d
}

/// Table round trip for diacritics: every diacritic renders as a codepoint,
/// and a grapheme holding that codepoint beside a unit that does not use it
/// carries exactly that diacritic.
pub proof fn lemma_diacritic_table_round_trip(d: Diacritic)
    ensures
        render_diacritic(d) matches Some(c) && parse_diacritics(seq![c], Seq::empty()) == seq![d],
{
    let i = lemma_diacritic_has_row(d);
    lemma_diacritic_row_found(d, i, 0);
    let r = diacritic_row_from(d, 0)->0;
    lemma_diacritic_key_unique(r);
    lemma_single_key(diacritic_entry(r).0, r, 0);
}

/// Rows of one band of the consonant list are each listed after no row
/// that they extend, and hold a consonant of their own.
proof fn lemma_consonant_pairs_0(i: usize, j: usize)
    requires
        0 <= i < 12,
        j < i,
    ensures
        !covers4(consonant_entry(i).1, consonant_entry(j).1),
        consonant_entry(j).0 != consonant_entry(i).0,
{
    assert(i == 0 || i == 1 || i == 2 || i == 3 || i == 4 || i == 5 || i == 6 || i == 7 || i == 8 || i == 9 || i == 10 || i == 11);
    assert(j == 0 || j == 1 || j == 2 || j == 3 || j == 4 || j == 5 || j == 6 || j == 7 || j == 8 || j == 9 || j == 10 || j == 11);
}

/// Rows of one band of the consonant list are each listed after no row
/// that they extend, and hold a consonant of their own.
proof fn lemma_consonant_pairs_1(i: usize, j: usize)
    requires
        12 <= i < 24,
        j < i,
    ensures
        !covers4(consonant_entry(i).1, consonant_entry(j).1),
        consonant_entry(j).0 != consonant_entry(i).0,
{
    assert(i == 12 || i == 13 || i == 14 || i == 15 || i == 16 || i == 17 || i == 18 || i == 19 || i == 20 || i == 21 || i == 22 || i == 23);
    assert(j == 0 || j == 1 || j == 2 || j == 3 || j == 4 || j == 5 || j == 6 || j == 7 || j == 8 || j == 9 || j == 10 || j == 11 || j == 12 || j == 13 || j == 14 || j == 15 || j == 16 || j == 17 || j == 18 || j == 19 || j == 20 || j == 21 || j == 22 || j == 23);
}

/// Rows of one band of the consonant list are each listed after no row
/// that they extend, and hold a consonant of their own.
proof fn lemma_consonant_pairs_2(i: usize, j: usize)
    requires
        24 <= i < 36,
        j < i,
    ensures
        !covers4(consonant_entry(i).1, consonant_entry(j).1),
        consonant_entry(j).0 != consonant_entry(i).0,
{
    assert(i == 24 || i == 25 || i == 26 || i == 27 || i == 28 || i == 29 || i == 30 || i == 31 || i == 32 || i == 33 || i == 34 || i == 35);
    assert(j == 0 || j == 1 || j == 2 || j == 3 || j == 4 || j == 5 || j == 6 || j == 7 || j == 8 || j == 9 || j == 10 || j == 11 || j == 12 || j == 13 || j == 14 || j == 15 || j == 16 || j == 17 || j == 18 || j == 19 || j == 20 || j == 21 || j == 22 || j == 23 || j == 24 || j == 25 || j == 26 || j == 27 || j == 28 || j == 29 || j == 30 || j == 31 || j == 32 || j == 33 || j == 34 || j == 35);
}

/// Rows of one band of the consonant list are each listed after no row
/// that they extend, and hold a consonant of their own.
proof fn lemma_consonant_pairs_3(i: usize, j: usize)
    requires
        36 <= i < 48,
        j < i,
    ensures
        !covers4(consonant_entry(i).1, consonant_entry(j).1),
        consonant_entry(j).0 != consonant_entry(i).0,
{
    assert(i == 36 || i == 37 || i == 38 || i == 39 || i == 40 || i == 41 || i == 42 || i == 43 || i == 44 || i == 45 || i == 46 || i == 47);
    assert(j == 0 || j == 1 || j == 2 || j == 3 || j == 4 || j == 5 || j == 6 || j == 7 || j == 8 || j == 9 || j == 10 || j == 11 || j == 12 || j == 13 || j == 14 || j == 15 || j == 16 || j == 17 || j == 18 || j == 19 || j == 20 || j == 21 || j == 22 || j == 23 || j == 24 || j == 25 || j == 26 || j == 27 || j == 28 || j == 29 || j == 30 || j == 31 || j == 32 || j == 33 || j == 34 || j == 35 || j == 36 || j == 37 || j == 38 || j == 39 || j == 40 || j == 41 || j == 42 || j == 43 || j == 44 || j == 45 || j == 46 || j == 47);
}

/// Rows of one band of the consonant list are each listed after no row
/// that they extend, and hold a consonant of their own.
proof fn lemma_consonant_pairs_4(i: usize, j: usize)
    requires
        48 <= i < 56,
        j < i,
    ensures
        !covers4(consonant_entry(i).1, consonant_entry(j).1),
        consonant_entry(j).0 != consonant_entry(i).0,
{
    assert(i == 48 || i == 49 || i == 50 || i == 51 || i == 52 || i == 53 || i == 54 || i == 55);
    assert(j == 0 || j == 1 || j == 2 || j == 3 || j == 4 || j == 5 || j == 6 || j == 7 || j == 8 || j == 9 || j == 10 || j == 11 || j == 12 || j == 13 || j == 14 || j == 15 || j == 16 || j == 17 || j == 18 || j == 19 || j == 20 || j == 21 || j == 22 || j == 23 || j == 24 || j == 25 || j == 26 || j == 27 || j == 28 || j == 29 || j == 30 || j == 31 || j == 32 || j == 33 || j == 34 || j == 35 || j == 36 || j == 37 || j == 38 || j == 39 || j == 40 || j == 41 || j == 42 || j == 43 || j == 44 || j == 45 || j == 46 || j == 47 || j == 48 || j == 49 || j == 50 || j == 51 || j == 52 || j == 53 || j == 54 || j == 55);
}

/// Rows of one band of the consonant list are each listed after no row
/// that they extend, and hold a consonant of their own.
proof fn lemma_consonant_pairs_5(i: usize, j: usize)
    requires
        56 <= i < 64,
        j < i,
    ensures
        !covers4(consonant_entry(i).1, consonant_entry(j).1),
        consonant_entry(j).0 != consonant_entry(i).0,
{
    assert(i == 56 || i == 57 || i == 58 || i == 59 || i == 60 || i == 61 || i == 62 || i == 63);
    assert(j == 0 || j == 1 || j == 2 || j == 3 || j == 4 || j == 5 || j == 6 || j == 7 || j == 8 || j == 9 || j == 10 || j == 11 || j == 12 || j == 13 || j == 14 || j == 15 || j == 16 || j == 17 || j == 18 || j == 19 || j == 20 || j == 21 || j == 22 || j == 23 || j == 24 || j == 25 || j == 26 || j == 27 || j == 28 || j == 29 || j == 30 || j == 31 || j == 32 || j == 33 || j == 34 || j == 35 || j == 36 || j == 37 || j == 38 || j == 39 || j == 40 || j == 41 || j == 42 || j == 43 || j == 44 || j == 45 || j == 46 || j == 47 || j == 48 || j == 49 || j == 50 || j == 51 || j == 52 || j == 53 || j == 54 || j == 55 || j == 56 || j == 57 || j == 58 || j == 59 || j == 60 || j == 61 || j == 62 || j == 63);
}

/// Rows of one band of the consonant list are each listed after no row
/// that they extend, and hold a consonant of their own.
proof fn lemma_consonant_pairs_6(i: usize, j: usize)
    requires
        64 <= i < 72,
        j < i,
    ensures
        !covers4(consonant_entry(i).1, consonant_entry(j).1),
        consonant_entry(j).0 != consonant_entry(i).0,
{
    assert(i == 64 || i == 65 || i == 66 || i == 67 || i == 68 || i == 69 || i == 70 || i == 71);
    assert(j == 0 || j == 1 || j == 2 || j == 3 || j == 4 || j == 5 || j == 6 || j == 7 || j == 8 || j == 9 || j == 10 || j == 11 || j == 12 || j == 13 || j == 14 || j == 15 || j == 16 || j == 17 || j == 18 || j == 19 || j == 20 || j == 21 || j == 22 || j == 23 || j == 24 || j == 25 || j == 26 || j == 27 || j == 28 || j == 29 || j == 30 || j == 31 || j == 32 || j == 33 || j == 34 || j == 35 || j == 36 || j == 37 || j == 38 || j == 39 || j == 40 || j == 41 || j == 42 || j == 43 || j == 44 || j == 45 || j == 46 || j == 47 || j == 48 || j == 49 || j == 50 || j == 51 || j == 52 || j == 53 || j == 54 || j == 55 || j == 56 || j == 57 || j == 58 || j == 59 || j == 60 || j == 61 || j == 62 || j == 63 || j == 64 || j == 65 || j == 66 || j == 67 || j == 68 || j == 69 || j == 70 || j == 71);
}

/// Rows of one band of the consonant list are each listed after no row
/// that they extend, and hold a consonant of their own.
proof fn lemma_consonant_pairs_7(i: usize, j: usize)
    requires
        72 <= i < 80,
        j < i,
    ensures
        !covers4(consonant_entry(i).1, consonant_entry(j).1),
        consonant_entry(j).0 != consonant_entry(i).0,
{
    assert(i == 72 || i == 73 || i == 74 || i == 75 || i == 76 || i == 77 || i == 78 || i == 79);
    assert(j == 0 || j == 1 || j == 2 || j == 3 || j == 4 || j == 5 || j == 6 || j == 7 || j == 8 || j == 9 || j == 10 || j == 11 || j == 12 || j == 13 || j == 14 || j == 15 || j == 16 || j == 17 || j == 18 || j == 19 || j == 20 || j == 21 || j == 22 || j == 23 || j == 24 || j == 25 || j == 26 || j == 27 || j == 28 || j == 29 || j == 30 || j == 31 || j == 32 || j == 33 || j == 34 || j == 35 || j == 36 || j == 37 || j == 38 || j == 39 || j == 40 || j == 41 || j == 42 || j == 43 || j == 44 || j == 45 || j == 46 || j == 47 || j == 48 || j == 49 || j == 50 || j == 51 || j == 52 || j == 53 || j == 54 || j == 55 || j == 56 || j == 57 || j == 58 || j == 59 || j == 60 || j == 61 || j == 62 || j == 63 || j == 64 || j == 65 || j == 66 || j == 67 || j == 68 || j == 69 || j == 70 || j == 71 || j == 72 || j == 73 || j == 74 || j == 75 || j == 76 || j == 77 || j == 78 || j == 79);
}

/// Rows of one band of the consonant list are each listed after no row
/// that they extend, and hold a consonant of their own.
proof fn lemma_consonant_pairs_8(i: usize, j: usize)
    requires
        80 <= i < 86,
        j < i,
    ensures
        !covers4(consonant_entry(i).1, consonant_entry(j).1),
        consonant_entry(j).0 != consonant_entry(i).0,
{
    assert(i == 80 || i == 81 || i == 82 || i == 83 || i == 84 || i == 85);
    assert(j == 0 || j == 1 || j == 2 || j == 3 || j == 4 || j == 5 || j == 6 || j == 7 || j == 8 || j == 9 || j == 10 || j == 11 || j == 12 || j == 13 || j == 14 || j == 15 || j == 16 || j == 17 || j == 18 || j == 19 || j == 20 || j == 21 || j == 22 || j == 23 || j == 24 || j == 25 || j == 26 || j == 27 || j == 28 || j == 29 || j == 30 || j == 31 || j == 32 || j == 33 || j == 34 || j == 35 || j == 36 || j == 37 || j == 38 || j == 39 || j == 40 || j == 41 || j == 42 || j == 43 || j == 44 || j == 45 || j == 46 || j == 47 || j == 48 || j == 49 || j == 50 || j == 51 || j == 52 || j == 53 || j == 54 || j == 55 || j == 56 || j == 57 || j == 58 || j == 59 || j == 60 || j == 61 || j == 62 || j == 63 || j == 64 || j == 65 || j == 66 || j == 67 || j == 68 || j == 69 || j == 70 || j == 71 || j == 72 || j == 73 || j == 74 || j == 75 || j == 76 || j == 77 || j == 78 || j == 79 || j == 80 || j == 81 || j == 82 || j == 83 || j == 84 || j == 85);
}

/// Rows of one band of the consonant list are each listed after no row
/// that they extend, and hold a consonant of their own.
proof fn lemma_consonant_pairs_9(i: usize, j: usize)
    requires
        86 <= i < 92,
        j < i,
    ensures
        !covers4(consonant_entry(i).1, consonant_entry(j).1),
        consonant_entry(j).0 != consonant_entry(i).0,
{
    assert(i == 86 || i == 87 || i == 88 || i == 89 || i == 90 || i == 91);
    assert(j == 0 || j == 1 || j == 2 || j == 3 || j == 4 || j == 5 || j == 6 || j == 7 || j == 8 || j == 9 || j == 10 || j == 11 || j == 12 || j == 13 || j == 14 || j == 15 || j == 16 || j == 17 || j == 18 || j == 19 || j == 20 || j == 21 || j == 22 || j == 23 || j == 24 || j == 25 || j == 26 || j == 27 || j == 28 || j == 29 || j == 30 || j == 31 || j == 32 || j == 33 || j == 34 || j == 35 || j == 36 || j == 37 || j == 38 || j == 39 || j == 40 || j == 41 || j == 42 || j == 43 || j == 44 || j == 45 || j == 46 || j == 47 || j == 48 || j == 49 || j == 50 || j == 51 || j == 52 || j == 53 || j == 54 || j == 55 || j == 56 || j == 57 || j == 58 || j == 59 || j == 60 || j == 61 || j == 62 || j == 63 || j == 64 || j == 65 || j == 66 || j == 67 || j == 68 || j == 69 || j == 70 || j == 71 || j == 72 || j == 73 || j == 74 || j == 75 || j == 76 || j == 77 || j == 78 || j == 79 || j == 80 || j == 81 || j == 82 || j == 83 || j == 84 || j == 85 || j == 86 || j == 87 || j == 88 || j == 89 || j == 90 || j == 91);
}

/// Rows of one band of the consonant list are each listed after no row
/// that they extend, and hold a consonant of their own.
proof fn lemma_consonant_pairs_10(i: usize, j: usize)
    requires
        92 <= i < 98,
        j < i,
    ensures
        !covers4(consonant_entry(i).1, consonant_entry(j).1),
        consonant_entry(j).0 != consonant_entry(i).0,
{
    assert(i == 92 || i == 93 || i == 94 || i == 95 || i == 96 || i == 97);
    assert(j == 0 || j == 1 || j == 2 || j == 3 || j == 4 || j == 5 || j == 6 || j == 7 || j == 8 || j == 9 || j == 10 || j == 11 || j == 12 || j == 13 || j == 14 || j == 15 || j == 16 || j == 17 || j == 18 || j == 19 || j == 20 || j == 21 || j == 22 || j == 23 || j == 24 || j == 25 || j == 26 || j == 27 || j == 28 || j == 29 || j == 30 || j == 31 || j == 32 || j == 33 || j == 34 || j == 35 || j == 36 || j == 37 || j == 38 || j == 39 || j == 40 || j == 41 || j == 42 || j == 43 || j == 44 || j == 45 || j == 46 || j == 47 || j == 48 || j == 49 || j == 50 || j == 51 || j == 52 || j == 53 || j == 54 || j == 55 || j == 56 || j == 57 || j == 58 || j == 59 || j == 60 || j == 61 || j == 62 || j == 63 || j == 64 || j == 65 || j == 66 || j == 67 || j == 68 || j == 69 || j == 70 || j == 71 || j == 72 || j == 73 || j == 74 || j == 75 || j == 76 || j == 77 || j == 78 || j == 79 || j == 80 || j == 81 || j == 82 || j == 83 || j == 84 || j == 85 || j == 86 || j == 87 || j == 88 || j == 89 || j == 90 || j == 91 || j == 92 || j == 93 || j == 94 || j == 95 || j == 96 || j == 97);
}

/// Rows of one band of the consonant list are each listed after no row
/// that they extend, and hold a consonant of their own.
proof fn lemma_consonant_pairs_11(i: usize, j: usize)
    requires
        98 <= i < 104,
        j < i,
    ensures
        !covers4(consonant_entry(i).1, consonant_entry(j).1),
        consonant_entry(j).0 != consonant_entry(i).0,
{
    assert(i == 98 || i == 99 || i == 100 || i == 101 || i == 102 || i == 103);
    assert(j == 0 || j == 1 || j == 2 || j == 3 || j == 4 || j == 5 || j == 6 || j == 7 || j == 8 || j == 9 || j == 10 || j == 11 || j == 12 || j == 13 || j == 14 || j == 15 || j == 16 || j == 17 || j == 18 || j == 19 || j == 20 || j == 21 || j == 22 || j == 23 || j == 24 || j == 25 || j == 26 || j == 27 || j == 28 || j == 29 || j == 30 || j == 31 || j == 32 || j == 33 || j == 34 || j == 35 || j == 36 || j == 37 || j == 38 || j == 39 || j == 40 || j == 41 || j == 42 || j == 43 || j == 44 || j == 45 || j == 46 || j == 47 || j == 48 || j == 49 || j == 50 || j == 51 || j == 52 || j == 53 || j == 54 || j == 55 || j == 56 || j == 57 || j == 58 || j == 59 || j == 60 || j == 61 || j == 62 || j == 63 || j == 64 || j == 65 || j == 66 || j == 67 || j == 68 || j == 69 || j == 70 || j == 71 || j == 72 || j == 73 || j == 74 || j == 75 || j == 76 || j == 77 || j == 78 || j == 79 || j == 80 || j == 81 || j == 82 || j == 83 || j == 84 || j == 85 || j == 86 || j == 87 || j == 88 || j == 89 || j == 90 || j == 91 || j == 92 || j == 93 || j == 94 || j == 95 || j == 96 || j == 97 || j == 98 || j == 99 || j == 100 || j == 101 || j == 102 || j == 103);
}

/// Rows of one band of the consonant list are each listed after no row
/// that they extend, and hold a consonant of their own.
proof fn lemma_consonant_pairs_12(i: usize, j: usize)
    requires
        104 <= i < 109,
        j < i,
    ensures
        !covers4(consonant_entry(i).1, consonant_entry(j).1),
        consonant_entry(j).0 != consonant_entry(i).0,
{
    assert(i == 104 || i == 105 || i == 106 || i == 107 || i == 108);
    assert(j == 0 || j == 1 || j == 2 || j == 3 || j == 4 || j == 5 || j == 6 || j == 7 || j == 8 || j == 9 || j == 10 || j == 11 || j == 12 || j == 13 || j == 14 || j == 15 || j == 16 || j == 17 || j == 18 || j == 19 || j == 20 || j == 21 || j == 22 || j == 23 || j == 24 || j == 25 || j == 26 || j == 27 || j == 28 || j == 29 || j == 30 || j == 31 || j == 32 || j == 33 || j == 34 || j == 35 || j == 36 || j == 37 || j == 38 || j == 39 || j == 40 || j == 41 || j == 42 || j == 43 || j == 44 || j == 45 || j == 46 || j == 47 || j == 48 || j == 49 || j == 50 || j == 51 || j == 52 || j == 53 || j == 54 || j == 55 || j == 56 || j == 57 || j == 58 || j == 59 || j == 60 || j == 61 || j == 62 || j == 63 || j == 64 || j == 65 || j == 66 || j == 67 || j == 68 || j == 69 || j == 70 || j == 71 || j == 72 || j == 73 || j == 74 || j == 75 || j == 76 || j == 77 || j == 78 || j == 79 || j == 80 || j == 81 || j == 82 || j == 83 || j == 84 || j == 85 || j == 86 || j == 87 || j == 88 || j == 89 || j == 90 || j == 91 || j == 92 || j == 93 || j == 94 || j == 95 || j == 96 || j == 97 || j == 98 || j == 99 || j == 100 || j == 101 || j == 102 || j == 103 || j == 104 || j == 105 || j == 106 || j == 107 || j == 108);
}

/// Reading stops at row `i` when it covers `g` and no row before it from
/// `from` on does.
proof fn lemma_consonant_first_match(g: Seq<char>, i: usize, from: usize)
    requires
        i < CONSONANT_COUNT,
        from <= i,
        covers(g, consonant_entry(i).1),
        forall|j: usize| from <= j < i ==> !covers(g, #[trigger] consonant_entry(j).1),
    ensures
        consonant_match_from(g, from) == Some(i),
    decreases i - from,
{
    if from < i {
        lemma_consonant_first_match(g, i, (from + 1) as usize);
    }
}

/// Writing finds row `i` for its consonant when no row before it from
/// `from` on holds that consonant.
proof fn lemma_consonant_first_row(c: PulmonicConsonant, i: usize, from: usize)
    requires
        i < CONSONANT_COUNT,
        from <= i,
        consonant_entry(i).0 == c,
        forall|j: usize| from <= j < i ==> #[trigger] consonant_entry(j).0 != c,
    ensures
        consonant_row_from(c, from) == Some(i),
    decreases i - from,
{
    if from < i {
        lemma_consonant_first_row(c, i, (from + 1) as usize);
    }
}

/// Table round trip for pulmonic consonants: every row of the consonant
/// list renders as its own codepoints, and those codepoints read back as the
/// row's consonant.
pub proof fn lemma_consonant_table_round_trip(i: usize)
    requires
        i < CONSONANT_COUNT,
    ensures
        render_consonant(consonant_entry(i).0) == Some(consonant_entry(i).1),
        parse_consonant(consonant_entry(i).1) == Some(consonant_entry(i).0),
        consonant_match_from(consonant_entry(i).1, 0) == Some(i),
{
    let g = consonant_entry(i).1;
    assert(g.len() <= 4);
    assert forall|j: usize| j < i implies !covers(g, #[trigger] consonant_entry(j).1)
        && consonant_entry(j).0 != consonant_entry(i).0 by {
        if i < 12 {
            lemma_consonant_pairs_0(i, j);
        } else if i < 24 {
            lemma_consonant_pairs_1(i, j);
        } else if i < 36 {
            lemma_consonant_pairs_2(i, j);
        } else if i < 48 {
            lemma_consonant_pairs_3(i, j);
        } else if i < 56 {
            lemma_consonant_pairs_4(i, j);
        } else if i < 64 {
            lemma_consonant_pairs_5(i, j);
        } else if i < 72 {
            lemma_consonant_pairs_6(i, j);
        } else if i < 80 {
            lemma_consonant_pairs_7(i, j);
        } else if i < 86 {
            lemma_consonant_pairs_8(i, j);
        } else if i < 92 {
            lemma_consonant_pairs_9(i, j);
        } else if i < 98 {
            lemma_consonant_pairs_10(i, j);
        } else if i < 104 {
            lemma_consonant_pairs_11(i, j);
        } else {
            lemma_consonant_pairs_12(i, j);
        }
        assert(consonant_entry(j).1.len() <= 4);
        lemma_covers4(g, consonant_entry(j).1);
    }
    assert forall|k: int| 0 <= k < g.len() implies g.contains(#[trigger] g[k]) by {}
    lemma_consonant_first_match(g, i, 0);
    lemma_consonant_first_row(consonant_entry(i).0, i, 0);
}

/// The text of a row in one band of the consonant list holds no vowel row
/// and no precomposed character.
proof fn lemma_consonant_row_plain_0(i: usize, j: usize)
    requires
        0 <= i < 12,
        j < VOWEL_COUNT,
    ensures
        !covers4(consonant_entry(i).1, vowel_entry(j).1),
        forall|k: int|
            0 <= k < consonant_entry(i).1.len() ==> replacement_of(
                #[trigger] consonant_entry(i).1[k],
                0,
            ) is None,
        consonant_entry(i).1.len() > 0,
        consonant_entry(i).1[0] != '/',
{
    reveal_with_fuel(replacement_of, 4);
    assert(i == 0 || i == 1 || i == 2 || i == 3 || i == 4 || i == 5 || i == 6 || i == 7 || i == 8 || i == 9 || i == 10 || i == 11);
    assert(j == 0 || j == 1 || j == 2 || j == 3 || j == 4 || j == 5 || j == 6 || j == 7 || j == 8 || j == 9 || j == 10 || j == 11 || j == 12 || j == 13 || j == 14 || j == 15 || j == 16 || j == 17 || j == 18 || j == 19 || j == 20 || j == 21 || j == 22 || j == 23 || j == 24 || j == 25 || j == 26 || j == 27 || j == 28 || j == 29 || j == 30 || j == 31 || j == 32);
    let g = consonant_entry(i).1;
    assert forall|k: int| 0 <= k < g.len() implies replacement_of(#[trigger] g[k], 0) is None by {
        assert(k == 0 || k == 1 || k == 2 || k == 3);
    }
}

/// The text of a row in one band of the consonant list holds no vowel row
/// and no precomposed character.
proof fn lemma_consonant_row_plain_1(i: usize, j: usize)
    requires
        12 <= i < 24,
        j < VOWEL_COUNT,
    ensures
        !covers4(consonant_entry(i).1, vowel_entry(j).1),
        forall|k: int|
            0 <= k < consonant_entry(i).1.len() ==> replacement_of(
                #[trigger] consonant_entry(i).1[k],
                0,
            ) is None,
        consonant_entry(i).1.len() > 0,
        consonant_entry(i).1[0] != '/',
{
    reveal_with_fuel(replacement_of, 4);
    assert(i == 12 || i == 13 || i == 14 || i == 15 || i == 16 || i == 17 || i == 18 || i == 19 || i == 20 || i == 21 || i == 22 || i == 23);
    assert(j == 0 || j == 1 || j == 2 || j == 3 || j == 4 || j == 5 || j == 6 || j == 7 || j == 8 || j == 9 || j == 10 || j == 11 || j == 12 || j == 13 || j == 14 || j == 15 || j == 16 || j == 17 || j == 18 || j == 19 || j == 20 || j == 21 || j == 22 || j == 23 || j == 24 || j == 25 || j == 26 || j == 27 || j == 28 || j == 29 || j == 30 || j == 31 || j == 32);
    let g = consonant_entry(i).1;
    assert forall|k: int| 0 <= k < g.len() implies replacement_of(#[trigger] g[k], 0) is None by {
        assert(k == 0 || k == 1 || k == 2 || k == 3);
    }
}

/// The text of a row in one band of the consonant list holds no vowel row
/// and no precomposed character.
proof fn lemma_consonant_row_plain_2(i: usize, j: usize)
    requires
        24 <= i < 36,
        j < VOWEL_COUNT,
    ensures
        !covers4(consonant_entry(i).1, vowel_entry(j).1),
        forall|k: int|
            0 <= k < consonant_entry(i).1.len() ==> replacement_of(
                #[trigger] consonant_entry(i).1[k],
                0,
            ) is None,
        consonant_entry(i).1.len() > 0,
        consonant_entry(i).1[0] != '/',
{
    reveal_with_fuel(replacement_of, 4);
    assert(i == 24 || i == 25 || i == 26 || i == 27 || i == 28 || i == 29 || i == 30 || i == 31 || i == 32 || i == 33 || i == 34 || i == 35);
    assert(j == 0 || j == 1 || j == 2 || j == 3 || j == 4 || j == 5 || j == 6 || j == 7 || j == 8 || j == 9 || j == 10 || j == 11 || j == 12 || j == 13 || j == 14 || j == 15 || j == 16 || j == 17 || j == 18 || j == 19 || j == 20 || j == 21 || j == 22 || j == 23 || j == 24 || j == 25 || j == 26 || j == 27 || j == 28 || j == 29 || j == 30 || j == 31 || j == 32);
    let g = consonant_entry(i).1;
    assert forall|k: int| 0 <= k < g.len() implies replacement_of(#[trigger] g[k], 0) is None by {
        assert(k == 0 || k == 1 || k == 2 || k == 3);
    }
}

/// The text of a row in one band of the consonant list holds no vowel row
/// and no precomposed character.
proof fn lemma_consonant_row_plain_3(i: usize, j: usize)
    requires
        36 <= i < 48,
        j < VOWEL_COUNT,
    ensures
        !covers4(consonant_entry(i).1, vowel_entry(j).1),
        forall|k: int|
            0 <= k < consonant_entry(i).1.len() ==> replacement_of(
                #[trigger] consonant_entry(i).1[k],
                0,
            ) is None,
        consonant_entry(i).1.len() > 0,
        consonant_entry(i).1[0] != '/',
{
    reveal_with_fuel(replacement_of, 4);
    assert(i == 36 || i == 37 || i == 38 || i == 39 || i == 40 || i == 41 || i == 42 || i == 43 || i == 44 || i == 45 || i == 46 || i == 47);
    assert(j == 0 || j == 1 || j == 2 || j == 3 || j == 4 || j == 5 || j == 6 || j == 7 || j == 8 || j == 9 || j == 10 || j == 11 || j == 12 || j == 13 || j == 14 || j == 15 || j == 16 || j == 17 || j == 18 || j == 19 || j == 20 || j == 21 || j == 22 || j == 23 || j == 24 || j == 25 || j == 26 || j == 27 || j == 28 || j == 29 || j == 30 || j == 31 || j == 32);
    let g = consonant_entry(i).1;
    assert forall|k: int| 0 <= k < g.len() implies replacement_of(#[trigger] g[k], 0) is None by {
        assert(k == 0 || k == 1 || k == 2 || k == 3);
    }
}

/// The text of a row in one band of the consonant list holds no vowel row
/// and no precomposed character.
proof fn lemma_consonant_row_plain_4(i: usize, j: usize)
    requires
        48 <= i < 60,
        j < VOWEL_COUNT,
    ensures
        !covers4(consonant_entry(i).1, vowel_entry(j).1),
        forall|k: int|
            0 <= k < consonant_entry(i).1.len() ==> replacement_of(
                #[trigger] consonant_entry(i).1[k],
                0,
            ) is None,
        consonant_entry(i).1.len() > 0,
        consonant_entry(i).1[0] != '/',
{
    reveal_with_fuel(replacement_of, 4);
    assert(i == 48 || i == 49 || i == 50 || i == 51 || i == 52 || i == 53 || i == 54 || i == 55 || i == 56 || i == 57 || i == 58 || i == 59);
    assert(j == 0 || j == 1 || j == 2 || j == 3 || j == 4 || j == 5 || j == 6 || j == 7 || j == 8 || j == 9 || j == 10 || j == 11 || j == 12 || j == 13 || j == 14 || j == 15 || j == 16 || j == 17 || j == 18 || j == 19 || j == 20 || j == 21 || j == 22 || j == 23 || j == 24 || j == 25 || j == 26 || j == 27 || j == 28 || j == 29 || j == 30 || j == 31 || j == 32);
    let g = consonant_entry(i).1;
    assert forall|k: int| 0 <= k < g.len() implies replacement_of(#[trigger] g[k], 0) is None by {
        assert(k == 0 || k == 1 || k == 2 || k == 3);
    }
}

/// The text of a row in one band of the consonant list holds no vowel row
/// and no precomposed character.
proof fn lemma_consonant_row_plain_5(i: usize, j: usize)
    requires
        60 <= i < 72,
        j < VOWEL_COUNT,
    ensures
        !covers4(consonant_entry(i).1, vowel_entry(j).1),
        forall|k: int|
            0 <= k < consonant_entry(i).1.len() ==> replacement_of(
                #[trigger] consonant_entry(i).1[k],
                0,
            ) is None,
        consonant_entry(i).1.len() > 0,
        consonant_entry(i).1[0] != '/',
{
    reveal_with_fuel(replacement_of, 4);
    assert(i == 60 || i == 61 || i == 62 || i == 63 || i == 64 || i == 65 || i == 66 || i == 67 || i == 68 || i == 69 || i == 70 || i == 71);
    assert(j == 0 || j == 1 || j == 2 || j == 3 || j == 4 || j == 5 || j == 6 || j == 7 || j == 8 || j == 9 || j == 10 || j == 11 || j == 12 || j == 13 || j == 14 || j == 15 || j == 16 || j == 17 || j == 18 || j == 19 || j == 20 || j == 21 || j == 22 || j == 23 || j == 24 || j == 25 || j == 26 || j == 27 || j == 28 || j == 29 || j == 30 || j == 31 || j == 32);
    let g = consonant_entry(i).1;
    assert forall|k: int| 0 <= k < g.len() implies replacement_of(#[trigger] g[k], 0) is None by {
        assert(k == 0 || k == 1 || k == 2 || k == 3);
    }
}

/// The text of a row in one band of the consonant list holds no vowel row
/// and no precomposed character.
proof fn lemma_consonant_row_plain_6(i: usize, j: usize)
    requires
        72 <= i < 84,
        j < VOWEL_COUNT,
    ensures
        !covers4(consonant_entry(i).1, vowel_entry(j).1),
        forall|k: int|
            0 <= k < consonant_entry(i).1.len() ==> replacement_of(
                #[trigger] consonant_entry(i).1[k],
                0,
            ) is None,
        consonant_entry(i).1.len() > 0,
        consonant_entry(i).1[0] != '/',
{
    reveal_with_fuel(replacement_of, 4);
    assert(i == 72 || i == 73 || i == 74 || i == 75 || i == 76 || i == 77 || i == 78 || i == 79 || i == 80 || i == 81 || i == 82 || i == 83);
    assert(j == 0 || j == 1 || j == 2 || j == 3 || j == 4 || j == 5 || j == 6 || j == 7 || j == 8 || j == 9 || j == 10 || j == 11 || j == 12 || j == 13 || j == 14 || j == 15 || j == 16 || j == 17 || j == 18 || j == 19 || j == 20 || j == 21 || j == 22 || j == 23 || j == 24 || j == 25 || j == 26 || j == 27 || j == 28 || j == 29 || j == 30 || j == 31 || j == 32);
    let g = consonant_entry(i).1;
    assert forall|k: int| 0 <= k < g.len() implies replacement_of(#[trigger] g[k], 0) is None by {
        assert(k == 0 || k == 1 || k == 2 || k == 3);
    }
}

/// The text of a row in one band of the consonant list holds no vowel row
/// and no precomposed character.
proof fn lemma_consonant_row_plain_7(i: usize, j: usize)
    requires
        84 <= i < 96,
        j < VOWEL_COUNT,
    ensures
        !covers4(consonant_entry(i).1, vowel_entry(j).1),
        forall|k: int|
            0 <= k < consonant_entry(i).1.len() ==> replacement_of(
                #[trigger] consonant_entry(i).1[k],
                0,
            ) is None,
        consonant_entry(i).1.len() > 0,
        consonant_entry(i).1[0] != '/',
{
    reveal_with_fuel(replacement_of, 4);
    assert(i == 84 || i == 85 || i == 86 || i == 87 || i == 88 || i == 89 || i == 90 || i == 91 || i == 92 || i == 93 || i == 94 || i == 95);
    assert(j == 0 || j == 1 || j == 2 || j == 3 || j == 4 || j == 5 || j == 6 || j == 7 || j == 8 || j == 9 || j == 10 || j == 11 || j == 12 || j == 13 || j == 14 || j == 15 || j == 16 || j == 17 || j == 18 || j == 19 || j == 20 || j == 21 || j == 22 || j == 23 || j == 24 || j == 25 || j == 26 || j == 27 || j == 28 || j == 29 || j == 30 || j == 31 || j == 32);
    let g = consonant_entry(i).1;
    assert forall|k: int| 0 <= k < g.len() implies replacement_of(#[trigger] g[k], 0) is None by {
        assert(k == 0 || k == 1 || k == 2 || k == 3);
    }
}

/// The text of a row in one band of the consonant list holds no vowel row
/// and no precomposed character.
proof fn lemma_consonant_row_plain_8(i: usize, j: usize)
    requires
        96 <= i < 108,
        j < VOWEL_COUNT,
    ensures
        !covers4(consonant_entry(i).1, vowel_entry(j).1),
        forall|k: int|
            0 <= k < consonant_entry(i).1.len() ==> replacement_of(
                #[trigger] consonant_entry(i).1[k],
                0,
            ) is None,
        consonant_entry(i).1.len() > 0,
        consonant_entry(i).1[0] != '/',
{
    reveal_with_fuel(replacement_of, 4);
    assert(i == 96 || i == 97 || i == 98 || i == 99 || i == 100 || i == 101 || i == 102 || i == 103 || i == 104 || i == 105 || i == 106 || i == 107);
    assert(j == 0 || j == 1 || j == 2 || j == 3 || j == 4 || j == 5 || j == 6 || j == 7 || j == 8 || j == 9 || j == 10 || j == 11 || j == 12 || j == 13 || j == 14 || j == 15 || j == 16 || j == 17 || j == 18 || j == 19 || j == 20 || j == 21 || j == 22 || j == 23 || j == 24 || j == 25 || j == 26 || j == 27 || j == 28 || j == 29 || j == 30 || j == 31 || j == 32);
    let g = consonant_entry(i).1;
    assert forall|k: int| 0 <= k < g.len() implies replacement_of(#[trigger] g[k], 0) is None by {
        assert(k == 0 || k == 1 || k == 2 || k == 3);
    }
}

/// The text of a row in one band of the consonant list holds no vowel row
/// and no precomposed character.
proof fn lemma_consonant_row_plain_9(i: usize, j: usize)
    requires
        108 <= i < 109,
        j < VOWEL_COUNT,
    ensures
        !covers4(consonant_entry(i).1, vowel_entry(j).1),
        forall|k: int|
            0 <= k < consonant_entry(i).1.len() ==> replacement_of(
                #[trigger] consonant_entry(i).1[k],
                0,
            ) is None,
        consonant_entry(i).1.len() > 0,
        consonant_entry(i).1[0] != '/',
{
    reveal_with_fuel(replacement_of, 4);
    assert(i == 108);
    assert(j == 0 || j == 1 || j == 2 || j == 3 || j == 4 || j == 5 || j == 6 || j == 7 || j == 8 || j == 9 || j == 10 || j == 11 || j == 12 || j == 13 || j == 14 || j == 15 || j == 16 || j == 17 || j == 18 || j == 19 || j == 20 || j == 21 || j == 22 || j == 23 || j == 24 || j == 25 || j == 26 || j == 27 || j == 28 || j == 29 || j == 30 || j == 31 || j == 32);
    let g = consonant_entry(i).1;
    assert forall|k: int| 0 <= k < g.len() implies replacement_of(#[trigger] g[k], 0) is None by {
        assert(k == 0 || k == 1 || k == 2 || k == 3);
    }
}

/// No vowel row from `from` on reads a grapheme that none of them covers.
proof fn lemma_no_vowel_match(g: Seq<char>, from: usize)
    requires
        forall|j: usize| from <= j < VOWEL_COUNT ==> !covers(g, #[trigger] vowel_entry(j).1),
    ensures
        vowel_match_from(g, from) is None,
    decreases VOWEL_COUNT - from,
{
    if from < VOWEL_COUNT {
        lemma_no_vowel_match(g, (from + 1) as usize);
    }
}

/// No character of `g` from `k` on keys a suprasegmental.
proof fn lemma_no_suprasegmental_key(g: Seq<char>, k: int)
    requires
        0 <= k,
        forall|j: int| 0 <= j < g.len() ==> suprasegmental_row_of(#[trigger] g[j], 0) is None,
    ensures
        suprasegmental_position(g, k) is None,
    decreases g.len() - k,
{
    if k < g.len() {
        lemma_no_suprasegmental_key(g, k + 1);
    }
}

/// Text round trip for pulmonic consonants: the text of every row of the
/// consonant list that holds no suprasegmental key reads as a letter whose
/// text is that row again. (A row that holds one, such as the breve of a
/// tap, reads as that suprasegmental, since suprasegmentals are tried
/// before consonants.)
pub proof fn lemma_consonant_rows_read_back(i: usize)
    requires
        i < CONSONANT_COUNT,
        forall|k: int|
            0 <= k < consonant_entry(i).1.len() ==> suprasegmental_row_of(
                #[trigger] consonant_entry(i).1[k],
                0,
            ) is None,
    ensures
        reads_back(consonant_entry(i).1),
{
    let g = consonant_entry(i).1;
    lemma_consonant_table_round_trip(i);
    assert(g.len() <= 4);
    assert forall|j: usize| j < VOWEL_COUNT implies !covers(g, #[trigger] vowel_entry(j).1) by {
        if i < 12 {
            lemma_consonant_row_plain_0(i, j);
        } else if i < 24 {
            lemma_consonant_row_plain_1(i, j);
        } else if i < 36 {
            lemma_consonant_row_plain_2(i, j);
        } else if i < 48 {
            lemma_consonant_row_plain_3(i, j);
        } else if i < 60 {
            lemma_consonant_row_plain_4(i, j);
        } else if i < 72 {
            lemma_consonant_row_plain_5(i, j);
        } else if i < 84 {
            lemma_consonant_row_plain_6(i, j);
        } else if i < 96 {
            lemma_consonant_row_plain_7(i, j);
        } else if i < 108 {
            lemma_consonant_row_plain_8(i, j);
        } else {
            lemma_consonant_row_plain_9(i, j);
        }
        assert(vowel_entry(j).1.len() <= 4);
        lemma_covers4(g, vowel_entry(j).1);
    }
    lemma_no_vowel_match(g, 0);
    lemma_no_suprasegmental_key(g, 0);
    if i < 12 {
        lemma_consonant_row_plain_0(i, 0);
    } else if i < 24 {
        lemma_consonant_row_plain_1(i, 0);
    } else if i < 36 {
        lemma_consonant_row_plain_2(i, 0);
    } else if i < 48 {
        lemma_consonant_row_plain_3(i, 0);
    } else if i < 60 {
        lemma_consonant_row_plain_4(i, 0);
    } else if i < 72 {
        lemma_consonant_row_plain_5(i, 0);
    } else if i < 84 {
        lemma_consonant_row_plain_6(i, 0);
    } else if i < 96 {
        lemma_consonant_row_plain_7(i, 0);
    } else if i < 108 {
        lemma_consonant_row_plain_8(i, 0);
    } else {
        lemma_consonant_row_plain_9(i, 0);
    }
    assert(g.len() > 0 && g[0] != '/');
    lemma_rewritten_plain(g);
    lemma_no_diacritics_in_base(g, 0);
    assert(parse_diacritics(g, g) =~= Seq::<Diacritic>::empty());
}

} // verus!
