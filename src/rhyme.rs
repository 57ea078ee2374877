//! Grouping syllables that share a vowel nucleus.

use crate::phoneme::{copy_vec, Letter, LetterType, LetterTypeView, LetterView, Vowel};
use crate::syllable::{letters_view, syllabify, syllables_view, Syllable, SyllableRule, SyllableView};
use crate::text::grapheme_clusters;
use crate::word::parse_clusters;
use vstd::prelude::*;

verus! {

/// One syllable of a rhyme group, by its position in the syllable list,
/// linked to the members of the same group before and after it.
#[derive(Clone, Copy, Debug, PartialEq, Eq, Structural)]
pub struct RhymeMember {
    /// Position of the syllable in the list.
    pub index: usize,
    /// Position of the previous member of the group.
    pub prev: Option<usize>,
    /// `index` minus the position of the previous member.
    pub prev_dist: Option<usize>,
    /// Position of the next member of the group.
    pub next: Option<usize>,
    /// The position of the next member minus `index`.
    pub next_dist: Option<usize>,
}

/// Syllables whose nuclei hold the same vowels, in document order.
#[derive(Clone, Debug)]
pub struct RhymeGroup {
    /// The vowels of the shared nucleus.
    pub nucleus: Vec<Vowel>,
    /// The members, by increasing position.
    pub members: Vec<RhymeMember>,
}

/// Model of a rhyme group: its nucleus and its members' positions.
pub struct RhymeGroupView {
    pub nucleus: Seq<Vowel>,
    pub members: Seq<int>,
}

impl View for RhymeGroup {
    type V = RhymeGroupView;

    open spec fn view(&self) -> RhymeGroupView {
        RhymeGroupView {
            nucleus: self.nucleus@,
            members: self.members@.map_values(|m: RhymeMember| m.index as int),
        }
    }
}

/// The vowels among the letters `ls`, in order, diacritics left out.
pub open spec fn vowels_of(ls: Seq<LetterView>) -> Seq<Vowel>
    decreases ls.len(),
{
    if ls.len() == 0 {
        Seq::empty()
    } else {
        let front = vowels_of(ls.drop_last());
        match ls.last().ipa_type {
            LetterTypeView::Vowel(v) => front.push(v),
            _ => front,
        }
    }
}

/// What two syllables must share to rhyme: the vowels of the nucleus.
pub open spec fn rhyme_key(s: SyllableView) -> Seq<Vowel> {
    vowels_of(s.nucleus)
}

/// The positions `j` from `from` on with `keys[j] == k`, increasing.
pub open spec fn positions_of(keys: Seq<Seq<Vowel>>, k: Seq<Vowel>, from: int) -> Seq<int>
    decreases keys.len() - from,
{
    if from < 0 || from >= keys.len() {
        Seq::empty()
    } else if keys[from] == k {
        seq![from] + positions_of(keys, k, from + 1)
    } else {
        positions_of(keys, k, from + 1)
    }
}

/// Whether position `i` opens a group: its key holds a vowel, no earlier
/// position has it, and a later one does.
pub open spec fn opens_group(keys: Seq<Seq<Vowel>>, i: int) -> bool {
    &&& keys[i].len() > 0
    &&& forall|j: int| 0 <= j < i ==> keys[j] != keys[i]
    &&& positions_of(keys, keys[i], i).len() >= 2
}

/// The groups opened at position `i` or later, in order of their first member.
pub open spec fn groups_from(keys: Seq<Seq<Vowel>>, i: int) -> Seq<RhymeGroupView>
    decreases keys.len() - i,
{
    if i < 0 || i >= keys.len() {
        Seq::empty()
    } else if opens_group(keys, i) {
        seq![RhymeGroupView { nucleus: keys[i], members: positions_of(keys, keys[i], i) }]
            + groups_from(keys, i + 1)
    } else {
        groups_from(keys, i + 1)
    }
}

/// The rhyme groups of the syllables `ss`: for each nucleus that holds a
/// vowel and occurs in two syllables or more, one group of all the
/// syllables with that nucleus, by increasing position; groups come in the
/// order of their first member. A nucleus found once makes no group.
pub open spec fn rhyme_groups(ss: Seq<SyllableView>) -> Seq<RhymeGroupView> {
    groups_from(ss.map_values(|s: SyllableView| rhyme_key(s)), 0)
}

/// Each member is linked to its neighbours in the group, with the distance
/// between their positions.
pub open spec fn linked(ms: Seq<RhymeMember>) -> bool {
    forall|k: int|
        0 <= k < ms.len() ==> {
            &&& (#[trigger] ms[k]).prev == if k == 0 {
                None
            } else {
                Some(ms[k - 1].index)
            }
            &&& ms[k].prev_dist == if k == 0 {
                None
            } else {
                Some((ms[k].index - ms[k - 1].index) as usize)
            }
            &&& ms[k].next == if k == ms.len() - 1 {
                None
            } else {
                Some(ms[k + 1].index)
            }
            &&& ms[k].next_dist == if k == ms.len() - 1 {
                None
            } else {
                Some((ms[k + 1].index - ms[k].index) as usize)
            }
        }
}

/// The vowels of a nucleus, in order.
pub fn nucleus_vowels(nucleus: &Vec<Letter>) -> (r: Vec<Vowel>)
    ensures
        r@ == vowels_of(letters_view(*nucleus)),
{
    let ghost ls = letters_view(*nucleus);
    let mut out: Vec<Vowel> = Vec::new();
    let mut i: usize = 0;
    assert(ls.subrange(0, 0) =~= Seq::<LetterView>::empty());
    while i < nucleus.len()
        invariant
            i <= nucleus@.len(),
            ls == letters_view(*nucleus),
            out@ == vowels_of(ls.subrange(0, i as int)),
        decreases nucleus@.len() - i,
    {
        assert(ls.subrange(0, i + 1 as int).drop_last() =~= ls.subrange(0, i as int));
        assert(ls.subrange(0, i + 1 as int).last() == nucleus@[i as int]@);
        if let LetterType::Vowel(v) = &nucleus[i].ipa_type {
            out.push(*v);
        }
        i += 1;
    }
    assert(ls.subrange(0, ls.len() as int) =~= ls);
    out
}

/// Whether two lists of vowels are the same.
fn same_vowels(a: &Vec<Vowel>, b: &Vec<Vowel>) -> (r: bool)
    ensures
        r == (a@ == b@),
{
    if a.len() != b.len() {
        return false;
    }
    let mut i: usize = 0;
    while i < a.len()
        invariant
            a@.len() == b@.len(),
            i <= a@.len(),
            forall|k: int| 0 <= k < i ==> a@[k] == b@[k],
        decreases a@.len() - i,
    {
        if a[i] != b[i] {
            return false;
        }
        i += 1;
    }
    assert(a@ =~= b@);
    true
}

/// The positions that `positions_of` lists are increasing, from `from` on
/// and within the list.
proof fn lemma_positions_increasing(keys: Seq<Seq<Vowel>>, k: Seq<Vowel>, from: int)
    requires
        0 <= from,
    ensures
        forall|a: int|
            0 <= a < positions_of(keys, k, from).len() ==> from <= #[trigger] positions_of(
                keys,
                k,
                from,
            )[a] < keys.len() && keys[positions_of(keys, k, from)[a]] == k,
        forall|a: int, b: int|
            0 <= a < b < positions_of(keys, k, from).len() ==> #[trigger] positions_of(
                keys,
                k,
                from,
            )[a] < #[trigger] positions_of(keys, k, from)[b],
    decreases keys.len() - from,
{
    if from < keys.len() {
        lemma_positions_increasing(keys, k, from + 1);
        let rest = positions_of(keys, k, from + 1);
        if keys[from] == k {
            let p = seq![from] + rest;
            assert forall|a: int| 0 <= a < p.len() implies from <= #[trigger] p[a] < keys.len()
                && keys[p[a]] == k by {
                if a > 0 {
                    assert(p[a] == rest[a - 1]);
                }
            }
            assert forall|a: int, b: int| 0 <= a < b < p.len() implies #[trigger] p[a]
                < #[trigger] p[b] by {
                assert(p[b] == rest[b - 1]);
                if a > 0 {
                    assert(p[a] == rest[a - 1]);
                }
            }
        }
    }
}

/// The rhyme groups of a list of syllables in document order (see
/// `rhyme_groups`), each member linked to its neighbours in its group.
/// A syllable whose nucleus holds no vowel rhymes with nothing.
pub fn calc_rhyme(syllables: &Vec<Syllable>) -> (r: Vec<RhymeGroup>)
    ensures
        r@.map_values(|g: RhymeGroup| g@) == rhyme_groups(syllables_view(*syllables)),
        forall|g: int| 0 <= g < r@.len() ==> linked(#[trigger] r@[g].members@),
{
    let n = syllables.len();
    let ghost keys = syllables_view(*syllables).map_values(|s: SyllableView| rhyme_key(s));
    let mut ks: Vec<Vec<Vowel>> = Vec::new();
    let mut i: usize = 0;
    while i < n
        invariant
            n == syllables@.len(),
            keys.len() == n,
            keys == syllables_view(*syllables).map_values(|s: SyllableView| rhyme_key(s)),
            i <= n,
            ks@.len() == i,
            forall|k: int| 0 <= k < i ==> (#[trigger] ks@[k])@ == keys[k],
        decreases n - i,
    {
        ks.push(nucleus_vowels(&syllables[i].nucleus));
        i += 1;
    }
    let mut out: Vec<RhymeGroup> = Vec::new();
    let mut i: usize = 0;
    assert(out@.map_values(|g: RhymeGroup| g@) + groups_from(keys, 0) =~= groups_from(keys, 0));
    while i < n
        invariant
            n == syllables@.len(),
            keys.len() == n,
            ks@.len() == n,
            forall|k: int| 0 <= k < n ==> (#[trigger] ks@[k])@ == keys[k],
            i <= n,
            out@.map_values(|g: RhymeGroup| g@) + groups_from(keys, i as int) == groups_from(
                keys,
                0,
            ),
            forall|g: int| 0 <= g < out@.len() ==> linked(#[trigger] out@[g].members@),
        decreases n - i,
    {
        let ghost key = keys[i as int];
        let mut opens = ks[i].len() > 0;
        let mut k: usize = 0;
        while k < i && opens
            invariant
                i < n,
                ks@.len() == n,
                forall|x: int| 0 <= x < n ==> (#[trigger] ks@[x])@ == keys[x],
                key == keys[i as int],
                k <= i,
                opens ==> key.len() > 0 && forall|j: int| 0 <= j < k ==> keys[j] != key,
                !opens ==> !opens_group(keys, i as int),
            decreases i - k,
        {
            if same_vowels(&ks[k], &ks[i]) {
                opens = false;
            }
            k += 1;
        }
        let mut pos: Vec<usize> = Vec::new();
        if opens {
            let mut j: usize = i;
            assert(pos@.map_values(|x: usize| x as int) + positions_of(keys, key, i as int)
                =~= positions_of(keys, key, i as int));
            while j < n
                invariant
                    i <= j <= n,
                    ks@.len() == n,
                    forall|x: int| 0 <= x < n ==> (#[trigger] ks@[x])@ == keys[x],
                    key == keys[i as int],
                    keys.len() == n,
                    pos@.map_values(|x: usize| x as int) + positions_of(keys, key, j as int)
                        == positions_of(keys, key, i as int),
                decreases n - j,
            {
                if same_vowels(&ks[j], &ks[i]) {
                    let ghost before = pos@.map_values(|x: usize| x as int);
                    pos.push(j);
                    assert(pos@.map_values(|x: usize| x as int) =~= before.push(j as int));
                    assert(before.push(j as int) + positions_of(keys, key, j + 1 as int)
                        =~= before + positions_of(keys, key, j as int));
                }
                j += 1;
            }
            assert(pos@.map_values(|x: usize| x as int) =~= pos@.map_values(|x: usize| x as int)
                + positions_of(keys, key, n as int));
        }
        if opens && pos.len() >= 2 {
            let ghost p = positions_of(keys, key, i as int);
            proof {
                lemma_positions_increasing(keys, key, i as int);
                assert forall|a: int| 0 <= a < pos@.len() implies pos@[a] as int == p[a] by {
                    assert(pos@.map_values(|x: usize| x as int)[a] == pos@[a] as int);
                }
            }
            let m = pos.len();
            let mut members: Vec<RhymeMember> = Vec::new();
            let mut t: usize = 0;
            while t < m
                invariant
                    m == pos@.len(),
                    m >= 2,
                    p.len() == m,
                    forall|a: int| 0 <= a < m ==> pos@[a] as int == p[a],
                    forall|a: int, b: int| 0 <= a < b < p.len() ==> #[trigger] p[a] < #[trigger] p[b],
                    t <= m,
                    members@.len() == t,
                    forall|a: int| 0 <= a < t ==> (#[trigger] members@[a]).index == pos@[a],
                    forall|a: int|
                        0 <= a < t ==> {
                            &&& (#[trigger] members@[a]).prev == if a == 0 {
                                None
                            } else {
                                Some(pos@[a - 1])
                            }
                            &&& members@[a].prev_dist == if a == 0 {
                                None
                            } else {
                                Some((pos@[a] - pos@[a - 1]) as usize)
                            }
                            &&& members@[a].next == if a == m - 1 {
                                None
                            } else {
                                Some(pos@[a + 1])
                            }
                            &&& members@[a].next_dist == if a == m - 1 {
                                None
                            } else {
                                Some((pos@[a + 1] - pos@[a]) as usize)
                            }
                        },
                decreases m - t,
            {
                let index = pos[t];
                let (prev, prev_dist) = if t == 0 {
                    (None, None)
                } else {
                    assert(p[t - 1] < p[t as int]);
                    (Some(pos[t - 1]), Some(index - pos[t - 1]))
                };
                let (next, next_dist) = if t == m - 1 {
                    (None, None)
                } else {
                    assert(p[t as int] < p[t + 1]);
                    (Some(pos[t + 1]), Some(pos[t + 1] - index))
                };
                members.push(RhymeMember { index, prev, prev_dist, next, next_dist });
                t += 1;
            }
            let group = RhymeGroup { nucleus: copy_vec(&ks[i]), members };
            proof {
                assert(group.members@.map_values(|x: RhymeMember| x.index as int) =~= p);
                assert(group.nucleus@ == key);
                assert(opens_group(keys, i as int));
            }
            let ghost before = out@.map_values(|g: RhymeGroup| g@);
            out.push(group);
            assert(out@.map_values(|g: RhymeGroup| g@) =~= before.push(group@));
            assert(before.push(group@) + groups_from(keys, i + 1 as int) =~= before + groups_from(
                keys,
                i as int,
            ));
        } else {
            proof {
                if opens {
                    assert(pos@.len() == positions_of(keys, key, i as int).len());
                }
            }
            assert(!opens_group(keys, i as int));
        }
        i += 1;
    }
    assert(out@.map_values(|g: RhymeGroup| g@) =~= out@.map_values(|g: RhymeGroup| g@)
        + groups_from(keys, n as int));
    out
}

/// The analysis depends on its input alone: two runs over the same text
/// read the same letters, and from them the same syllables and the same
/// rhyme groups.
pub proof fn lemma_analysis_deterministic<R: SyllableRule>(rule: &R, a: Seq<char>, b: Seq<char>)
    requires
        a == b,
    ensures
        parse_clusters(grapheme_clusters(a)) == parse_clusters(grapheme_clusters(b)),
        parse_clusters(grapheme_clusters(a)) is Ok ==> {
            let sa = syllabify(rule, parse_clusters(grapheme_clusters(a))->Ok_0);
            let sb = syllabify(rule, parse_clusters(grapheme_clusters(b))->Ok_0);
            sa == sb && rhyme_groups(sa) == rhyme_groups(sb)
        },
{
}

} // verus!
