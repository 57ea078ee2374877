use rhymalize::letter::ParseError;
use rhymalize::table::{
    consonant_row, diacritic_row, suprasegmental_row, vowel_row, CONSONANT_COUNT, DIACRITIC_COUNT,
    SUPRASEGMENTAL_COUNT, VOWEL_COUNT,
};
use rhymalize::{
    calc_rhyme, syls_from_word, words_from_candidates, IpaConverter, IpaError, ConsonantPlace, ConsonantVoicing,
    Diacritic, EnglishSyllableRule, Letter, LetterType, PulmonicConsonant,
    PulmonicConsonantManner, RenderError, RhymeMember, Suprasegmental, Syllable, Vowel,
    VowelBackness, VowelHeight, VowelRoundedness, Word,
};

fn text(letters: &Vec<Letter>) -> String {
    letters.iter().map(|l| l.to_string()).collect()
}

fn parts(s: &Syllable) -> (String, String, String) {
    (text(&s.onset), text(&s.nucleus), text(&s.coda))
}

fn syllables(s: &str) -> Vec<(String, String, String)> {
    let w = Word::parse(s).unwrap();
    syls_from_word(&w, &EnglishSyllableRule).iter().map(parts).collect()
}

fn vowel(height: VowelHeight, backness: VowelBackness, roundedness: VowelRoundedness) -> Letter {
    Letter {
        ipa_type: LetterType::Vowel(Vowel { height, backness, roundedness }),
        diacritics: None,
    }
}

fn consonant() -> Letter {
    Letter {
        ipa_type: LetterType::PulmonicConsonant(PulmonicConsonant {
            manner: PulmonicConsonantManner::Plosive,
            place: ConsonantPlace::Aveolar,
            voicing: ConsonantVoicing::Voiceless,
        }),
        diacritics: None,
    }
}

fn syllable(nucleus: Letter) -> Syllable {
    Syllable { onset: vec![consonant()], nucleus: vec![nucleus], coda: vec![] }
}

#[test]
fn every_vowel_row_reads_back() {
    for i in 0..VOWEL_COUNT {
        let (v, cs) = vowel_row(i);
        let s: String = cs.iter().collect();
        assert_eq!(v.render(), Ok(s.clone()), "row {}", i);
        assert_eq!(Vowel::try_from(s.as_str()), Ok(v), "row {}", i);
    }
}

#[test]
fn every_consonant_row_reads_back() {
    for i in 0..CONSONANT_COUNT {
        let (c, _) = consonant_row(i);
        let s = c.render().unwrap();
        assert_eq!(PulmonicConsonant::try_from(s.as_str()), Ok(c), "row {}", i);
    }
}

#[test]
fn close_mid_back_unrounded_vowel_has_its_own_symbol() {
    let v = Vowel {
        height: VowelHeight::CloseMid,
        backness: VowelBackness::Back,
        roundedness: VowelRoundedness::Unrounded,
    };
    assert_eq!(v.to_string(), "\u{0264}");
    assert_eq!(Vowel::try_from("\u{0264}"), Ok(v));
}

#[test]
fn table_renderings_round_trip_as_words() {
    let mut all = String::new();
    for i in 0..VOWEL_COUNT {
        let (v, _) = vowel_row(i);
        let s = v.render().unwrap();
        assert_eq!(Word::parse(&s).unwrap().to_string(), s, "row {}", i);
        all.push_str(&s);
    }
    assert_eq!(Word::parse(&all).unwrap().to_string(), all);
    for i in 0..CONSONANT_COUNT {
        let (c, _) = consonant_row(i);
        let s = c.render().unwrap();
        // Rows that open with a combining mark do not form one grapheme cluster,
        // and rows holding a marker key read as that marker.
        if let Ok(w) = Word::parse(&s) {
            if w.len() == 1 {
                if let LetterType::PulmonicConsonant(_) = w.letters()[0].ipa_type {
                    assert_eq!(w.to_string(), s, "row {}", i);
                }
            }
        }
    }
    let marked = "e\u{031E}\u{0303}";
    assert_eq!(Word::parse(marked).unwrap().to_string(), marked);
    let twice = "e\u{031E}\u{031E}";
    let w = Word::parse(twice).unwrap();
    assert_eq!(w.letters()[0].diacritics, Some(vec![Diacritic::Lowered]));
    assert_eq!(w.to_string(), twice);
    let plain = Word::parse("e\u{031E}").unwrap();
    assert_eq!(plain.letters()[0].diacritics, None);
}

#[test]
fn word_round_trip_text() {
    let s = "ˈʃtuːdi̯ʊm";
    let w = Word::parse(s).unwrap();
    assert_eq!(w.len(), 9);
    assert_eq!(w.to_string(), s);
}

#[test]
fn graphemes_keep_diacritics_with_their_base() {
    let w = Word::parse("ɑ̃t").unwrap();
    assert_eq!(w.len(), 2);
    assert_eq!(w.letters()[0].diacritics, Some(vec![Diacritic::Nasalized]));
}

#[test]
fn slashes_are_skipped() {
    let w = Word::parse("/kæt/").unwrap();
    assert_eq!(w.len(), 3);
    assert_eq!(w.to_string(), "kæt");
}

#[test]
fn unknown_grapheme_is_an_error() {
    assert_eq!(
        Word::parse("kQt").unwrap_err(),
        ParseError { text: String::from("Q"), position: 1 }
    );
    assert_eq!(
        Letter::try_from("Q").unwrap_err(),
        ParseError { text: String::from("Q"), position: 0 }
    );
    assert!(Letter::try_from("Q").is_err());
    assert_eq!(Vowel::try_from("k"), Err(()));
}

#[test]
fn vowels_are_tried_before_suprasegmentals_and_consonants() {
    let l = Letter::try_from("e\u{0306}").unwrap();
    assert!(matches!(l.ipa_type, LetterType::Vowel(_)));
    let l = Letter::try_from("\u{0306}").unwrap();
    assert_eq!(l.ipa_type, LetterType::Suprasegmental(Suprasegmental::ExtraShort));
    // A marker key anywhere in the cluster makes it a suprasegmental.
    let l = Letter::try_from("\u{0262}\u{0306}").unwrap();
    assert_eq!(l.ipa_type, LetterType::Suprasegmental(Suprasegmental::ExtraShort));
    assert_eq!(Suprasegmental::try_from("t\u{02D0}"), Ok(Suprasegmental::Long));
    assert_eq!(Suprasegmental::try_from("t"), Err(()));
}

#[test]
fn precomposed_dark_l_is_rewritten() {
    let l = Letter::try_from("ɫ").unwrap();
    assert_eq!(
        l.ipa_type,
        LetterType::PulmonicConsonant(PulmonicConsonant {
            manner: PulmonicConsonantManner::LateralApproximant,
            place: ConsonantPlace::Aveolar,
            voicing: ConsonantVoicing::Voiced,
        })
    );
    assert_eq!(l.diacritics, Some(vec![Diacritic::Velarized]));
    assert_eq!(l.to_string(), "l\u{02E0}");
    let l = Letter::try_from("ɫ\u{0329}").unwrap();
    assert_eq!(l.diacritics, Some(vec![Diacritic::Syllabic, Diacritic::Velarized]));
    let l = Letter::try_from("ɚ").unwrap();
    assert_eq!(l.diacritics, Some(vec![Diacritic::Rhoticity]));
}

#[test]
fn diacritics_follow_the_map_order() {
    let l = Letter::try_from("t\u{02B0}\u{0325}").unwrap();
    assert_eq!(l.diacritics, Some(vec![Diacritic::Aspirated, Diacritic::Voiceless]));
    assert_eq!(l.to_string(), "t\u{02B0}\u{0325}");
}

#[test]
fn rendering_without_a_row_fails() {
    let l = Letter { ipa_type: LetterType::NonPulmonicConsonant, diacritics: None };
    assert_eq!(l.render(), Err(RenderError));
    assert_eq!(Suprasegmental::Upstep.render(), Err(RenderError));
    let c = PulmonicConsonant {
        manner: PulmonicConsonantManner::Trill,
        place: ConsonantPlace::Velar,
        voicing: ConsonantVoicing::Voiced,
    };
    assert_eq!(c.render(), Err(RenderError));
}

#[test]
fn golden_syllabification_of_studium() {
    let s = |a: &str, b: &str, c: &str| (String::from(a), String::from(b), String::from(c));
    assert_eq!(
        syllables("/ˈʃtuːdi̯ʊm/"),
        vec![s("ˈʃt", "u", "ː"), s("d", "i̯", ""), s("", "ʊ", "m")]
    );
}

#[test]
fn syllables_conserve_letters() {
    for t in ["ˈʃtuːdi̯ʊm", "kæt", "ˈkeɪ.ɒs", "st", "ɑːt", "aɪə", "ɡʊd"] {
        let w = Word::parse(t).unwrap();
        let syls = syls_from_word(&w, &EnglishSyllableRule);
        let n: usize = syls.iter().map(|s| s.onset.len() + s.nucleus.len() + s.coda.len()).sum();
        assert_eq!(n, w.len(), "{}", t);
        let joined: String = syls.iter().map(|s| {
            let (a, b, c) = parts(s);
            a + &b + &c
        }).collect();
        assert_eq!(joined, w.to_string(), "{}", t);
    }
}

#[test]
fn syllables_have_a_nucleus() {
    for t in ["ˈʃtuːdi̯ʊm", "kæt", "ˈkeɪ.ɒs", "aɪə", "ɡʊd"] {
        let w = Word::parse(t).unwrap();
        for s in syls_from_word(&w, &EnglishSyllableRule) {
            assert!(!s.nucleus.is_empty(), "{}", t);
        }
    }
}

#[test]
fn word_without_vowel_is_one_coda() {
    let s = syllables("st");
    assert_eq!(s, vec![(String::new(), String::new(), String::from("st"))]);
    let w = Word::parse("").unwrap();
    assert!(syls_from_word(&w, &EnglishSyllableRule).is_empty());
}

#[test]
fn length_mark_ends_a_syllable() {
    assert_eq!(
        syllables("ɑːt"),
        vec![
            (String::new(), String::from("ɑ"), String::from("ː")),
            (String::new(), String::new(), String::from("t")),
        ]
    );
}

#[test]
fn english_diphthongs_merge() {
    for t in ["eɪ", "əo", "aʊ", "ɛə"] {
        let s = syllables(t);
        assert_eq!(s.len(), 1, "{}", t);
        assert_eq!(s[0].1, t);
    }
}

#[test]
fn other_vowel_pairs_split() {
    for t in ["aɪ", "ɔɪ", "əʊ", "oʊ", "ɪe", "ia", "ʊə", "ɪə", "eʊ", "ai̯", "ee", "oə"] {
        let s = syllables(t);
        assert_eq!(s.len(), 2, "{}", t);
    }
}

#[test]
fn rhymes_group_equal_nuclei() {
    let a = || vowel(VowelHeight::Open, VowelBackness::Front, VowelRoundedness::Unrounded);
    let b = || vowel(VowelHeight::Close, VowelBackness::Front, VowelRoundedness::Unrounded);
    let c = || vowel(VowelHeight::Mid, VowelBackness::Central, VowelRoundedness::Unrounded);
    let syls = vec![syllable(a()), syllable(b()), syllable(a()), syllable(c()), syllable(a())];
    let groups = calc_rhyme(&syls);
    assert_eq!(groups.len(), 1);
    assert_eq!(
        groups[0].nucleus,
        vec![Vowel {
            height: VowelHeight::Open,
            backness: VowelBackness::Front,
            roundedness: VowelRoundedness::Unrounded,
        }]
    );
    assert_eq!(
        groups[0].members,
        vec![
            RhymeMember { index: 0, prev: None, prev_dist: None, next: Some(2), next_dist: Some(2) },
            RhymeMember { index: 2, prev: Some(0), prev_dist: Some(2), next: Some(4), next_dist: Some(2) },
            RhymeMember { index: 4, prev: Some(2), prev_dist: Some(2), next: None, next_dist: None },
        ]
    );
}

#[test]
fn rhymes_ignore_diacritics_and_keep_first_member_order() {
    let mut nasal = vowel(VowelHeight::Open, VowelBackness::Back, VowelRoundedness::Unrounded);
    nasal.diacritics = Some(vec![Diacritic::Nasalized]);
    let plain = vowel(VowelHeight::Open, VowelBackness::Back, VowelRoundedness::Unrounded);
    let e = || vowel(VowelHeight::CloseMid, VowelBackness::Front, VowelRoundedness::Unrounded);
    let syls = vec![syllable(e()), syllable(nasal), syllable(e()), syllable(plain)];
    let groups = calc_rhyme(&syls);
    assert_eq!(groups.len(), 2);
    let idx = |g: usize| groups[g].members.iter().map(|m| m.index).collect::<Vec<_>>();
    assert_eq!(idx(0), vec![0, 2]);
    assert_eq!(idx(1), vec![1, 3]);
}

#[test]
fn no_rhyme_without_partner_or_vowel() {
    let syls = vec![
        Syllable { onset: vec![], nucleus: vec![], coda: vec![consonant()] },
        Syllable { onset: vec![], nucleus: vec![], coda: vec![consonant()] },
        syllable(vowel(VowelHeight::Open, VowelBackness::Front, VowelRoundedness::Unrounded)),
    ];
    assert!(calc_rhyme(&syls).is_empty());
    assert!(calc_rhyme(&vec![]).is_empty());
}

#[test]
fn analysis_is_deterministic() {
    let run = || {
        let w = Word::parse("ˈkeɪ.ɒsˈkeɪ").unwrap();
        let syls = syls_from_word(&w, &EnglishSyllableRule);
        let groups = calc_rhyme(&syls);
        (format!("{:?}", w), format!("{:?}", syls), format!("{:?}", groups))
    };
    assert_eq!(run(), run());
    let w = Word::parse("ˈkeɪ.ɒsˈkeɪ").unwrap();
    let syls = syls_from_word(&w, &EnglishSyllableRule);
    let groups = calc_rhyme(&syls);
    assert_eq!(groups.len(), 1);
    assert_eq!(groups[0].members.len(), 2);
}

#[test]
fn candidates_become_words() {
    let ok = words_from_candidates(&vec![String::from("kæt"), String::from("/ˈkeɪ/")]).unwrap();
    assert_eq!(ok.len(), 2);
    assert_eq!(ok[1].to_string(), "ˈkeɪ");
    let err = words_from_candidates(&vec![String::from("kæt"), String::from("kQ")]).unwrap_err();
    assert_eq!(err, ParseError { text: String::from("Q"), position: 1 });
}

#[test]
fn syllable_text_is_onset_nucleus_coda() {
    let w = Word::parse("ˈʃtuːdi̯ʊm").unwrap();
    let syls = syls_from_word(&w, &EnglishSyllableRule);
    let shown: Vec<String> = syls.iter().map(|s| s.to_string()).collect();
    assert_eq!(shown, vec!["ˈʃtuː", "di̯", "ʊm"]);
    let bad = Syllable {
        onset: vec![],
        nucleus: vec![Letter { ipa_type: LetterType::NonPulmonicConsonant, diacritics: None }],
        coda: vec![],
    };
    assert_eq!(bad.render(), Err(RenderError));
}

struct FixedSource;

impl IpaConverter for FixedSource {
    fn convert_single(&self, input: &str) -> Result<Vec<String>, IpaError> {
        match input {
            "cat" => Ok(vec![String::from("/kæt/")]),
            "chaos" => Ok(vec![String::from("ˈkeɪ.ɒs"), String::from("ˈkeɪ.ɑs")]),
            "bad" => Ok(vec![String::from("bQd")]),
            _ => Err(IpaError::Lookup(format!("no entry for {}", input))),
        }
    }
}

#[test]
fn converter_reads_candidates_as_words() {
    let src = FixedSource;
    let words = src.get_ipa_single("chaos").unwrap();
    assert_eq!(words.len(), 2);
    assert_eq!(words[0].to_string(), "ˈkeɪ.ɒs");
    let all = src.get_ipa(&vec!["cat", "dog", "bad"]);
    assert_eq!(all.len(), 3);
    assert_eq!(all[0].as_ref().unwrap()[0].to_string(), "kæt");
    assert!(matches!(all[1], Err(IpaError::Lookup(_))));
    assert_eq!(
        all[2].as_ref().unwrap_err(),
        &IpaError::Parse(ParseError { text: String::from("Q"), position: 1 })
    );
    assert_eq!(src.convert(&vec!["cat"]), vec![Ok(vec![String::from("/kæt/")])]);
}

#[test]
fn every_diacritic_row_reads_back() {
    for i in 0..DIACRITIC_COUNT {
        let (_, d) = diacritic_row(i);
        let s = d.render().unwrap();
        let l = Letter::try_from(format!("k{}", s).as_str()).unwrap();
        assert_eq!(l.diacritics, Some(vec![d]), "row {}", i);
    }
    assert_eq!(Diacritic::Syllabic.render(), Ok(String::from("\u{0329}")));
}

#[test]
fn every_suprasegmental_row_reads_back() {
    for i in 0..SUPRASEGMENTAL_COUNT {
        let (c, s) = suprasegmental_row(i);
        assert_eq!(s.render(), Ok(c.to_string()), "row {}", i);
        assert_eq!(Suprasegmental::try_from(c.to_string().as_str()), Ok(s), "row {}", i);
    }
    assert_eq!(
        Letter::try_from("ˈ").unwrap().ipa_type,
        LetterType::Suprasegmental(Suprasegmental::PrimaryStress)
    );
}
