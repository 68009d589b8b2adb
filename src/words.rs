//! Counting how often each word occurs in a text.

use vstd::prelude::*;
use vstd::string::*;

verus! {

/// The maximal runs of non-whitespace characters of `s`, in order.
pub uninterp spec fn words_of(s: Seq<char>) -> Seq<Seq<char>>;

/// The lower-case form of `s`.
pub uninterp spec fn lower_of(s: Seq<char>) -> Seq<char>;

/// Relies on `str::split_whitespace`: the pieces of `s` between runs of
/// Unicode whitespace, in order, none of them empty.
#[verifier::external_body]
fn split_words(s: &str) -> (r: Vec<String>)
    ensures
        r@.map_values(|w: String| w@) == words_of(s@),
{
    s.split_whitespace().map(String::from).collect()
}

/// Relies on `str::to_lowercase`: the result depends on the characters alone.
#[verifier::external_body]
fn lowercase(s: &str) -> (r: String)
    ensures
        r@ == lower_of(s@),
{
    s.to_lowercase()
}

/// The ASCII punctuation characters: `!` to `/`, `:` to `@`, `[` to `` ` ``,
/// and `{` to `~`.
pub open spec fn is_punct(c: char) -> bool {
    ('!' <= c && c <= '/') || (':' <= c && c <= '@') || ('[' <= c && c <= '`') || ('{' <= c
        && c <= '~')
}

/// `w` without its leading punctuation.
pub open spec fn trim_front(w: Seq<char>) -> Seq<char>
    decreases w.len(),
{
    if w.len() > 0 && is_punct(w[0]) {
        trim_front(w.drop_first())
    } else {
        w
    }
}

/// `w` without its trailing punctuation.
pub open spec fn trim_back(w: Seq<char>) -> Seq<char>
    decreases w.len(),
{
    if w.len() > 0 && is_punct(w.last()) {
        trim_back(w.drop_last())
    } else {
        w
    }
}

/// A word as it is counted: punctuation trimmed from both ends, then lower
/// case.
pub open spec fn clean(w: Seq<char>) -> Seq<char> {
    lower_of(trim_back(trim_front(w)))
}

/// The cleaned words of a text, empty ones included.
pub open spec fn cleaned(texte: Seq<char>) -> Seq<Seq<char>> {
    words_of(texte).map_values(|w: Seq<char>| clean(w))
}

/// How many of `ws` equal `k`.
pub open spec fn occurrences(ws: Seq<Seq<char>>, k: Seq<char>) -> nat
    decreases ws.len(),
{
    if ws.len() == 0 {
        0
    } else {
        occurrences(ws.drop_last(), k) + if ws.last() == k { 1nat } else { 0nat }
    }
}

fn is_ascii_punctuation(c: char) -> (r: bool)
    ensures
        r == is_punct(c),
{
    ('!' <= c && c <= '/') || (':' <= c && c <= '@') || ('[' <= c && c <= '`') || ('{' <= c
        && c <= '~')
}

/// `w` with the ASCII punctuation at both of its ends removed.
pub fn trim_punctuation(w: &str) -> (r: String)
    ensures
        r@ == trim_back(trim_front(w@)),
{
    let n = w.unicode_len();
    let mut i: usize = 0;
    assert(w@.subrange(0, n as int) =~= w@);
    while i < n && is_ascii_punctuation(w.get_char(i))
        invariant
            0 <= i <= n,
            n == w@.len(),
            trim_front(w@) == trim_front(w@.subrange(i as int, n as int)),
        decreases n - i,
    {
        assert(w@.subrange(i as int, n as int).drop_first() =~= w@.subrange(i + 1, n as int));
        i = i + 1;
    }
    assert(trim_front(w@) == w@.subrange(i as int, n as int));
    let mut j: usize = n;
    while j > i && is_ascii_punctuation(w.get_char(j - 1))
        invariant
            i <= j <= n,
            n == w@.len(),
            trim_back(w@.subrange(i as int, n as int)) == trim_back(w@.subrange(i as int, j as int)),
        decreases j - i,
    {
        assert(w@.subrange(i as int, j as int).drop_last() =~= w@.subrange(i as int, j - 1));
        j = j - 1;
    }
    String::from_str(w.substring_char(i, j))
}

/// The position of the entry with key `k`, or the length when there is none.
fn find_key(compteurs: &Vec<(String, usize)>, k: &String) -> (r: usize)
    ensures
        r <= compteurs.len(),
        r < compteurs.len() ==> compteurs@[r as int].0@ == k@,
        r == compteurs.len() ==> forall|j: int| 0 <= j < compteurs.len() ==> compteurs@[j].0@ != k@,
{
    let mut j: usize = 0;
    while j < compteurs.len()
        invariant
            0 <= j <= compteurs.len(),
            forall|l: int| 0 <= l < j ==> compteurs@[l].0@ != k@,
        decreases compteurs.len() - j,
    {
        if compteurs[j].0 == *k {
            return j;
        }
        j = j + 1;
    }
    j
}

/// The words as character sequences.
pub open spec fn texts(mots: Seq<String>) -> Seq<Seq<char>> {
    mots.map_values(|m: String| m@)
}

/// Counts already cleaned words, skipping the empty ones. Each non-empty
/// word appears once in the result, with the number of its occurrences (at
/// least one); the entries come in the order in which their words first
/// occur.
pub fn compter_mots(mots: &Vec<String>) -> (r: Vec<(String, usize)>)
    ensures
        forall|j: int|
            0 <= j < r.len() ==> r@[j].0@.len() > 0 && r@[j].1 >= 1 && r@[j].1 as nat
                == occurrences(texts(mots@), r@[j].0@),
        forall|j: int, l: int| 0 <= j < l < r.len() ==> r@[j].0@ != r@[l].0@,
        forall|i: int|
            0 <= i < mots.len() && mots@[i]@.len() > 0 ==> exists|j: int|
                0 <= j < r.len() && r@[j].0@ == mots@[i]@,
{
    let ghost cw = texts(mots@);
    let mut compteurs: Vec<(String, usize)> = Vec::new();
    let mut i: usize = 0;
    while i < mots.len()
        invariant
            0 <= i <= mots.len(),
            cw == texts(mots@),
            forall|j: int|
                0 <= j < compteurs.len() ==> compteurs@[j].0@.len() > 0 && compteurs@[j].1 >= 1
                    && compteurs@[j].1 as nat == occurrences(cw.subrange(0, i as int), compteurs@[j].0@)
                    && compteurs@[j].1 <= i,
            forall|j: int, l: int| 0 <= j < l < compteurs.len() ==> compteurs@[j].0@ != compteurs@[l].0@,
            forall|m: int|
                0 <= m < i && cw[m].len() > 0 ==> exists|j: int|
                    0 <= j < compteurs.len() && compteurs@[j].0@ == cw[m],
            forall|k: Seq<char>|
                k.len() > 0 && occurrences(cw.subrange(0, i as int), k) > 0 ==> exists|j: int|
                    0 <= j < compteurs.len() && compteurs@[j].0@ == k,
        decreases mots.len() - i,
    {
        let ghost before = cw.subrange(0, i as int);
        let ghost after = cw.subrange(0, i + 1);
        assert(after.drop_last() =~= before);
        assert(after.last() == cw[i as int]);
        assert forall|k: Seq<char>|
            #[trigger] occurrences(after, k) == occurrences(before, k) + if cw[i as int] == k {
                1nat
            } else {
                0nat
            } by {}
        let ghost old_keys = compteurs@;
        let mot = &mots[i];
        assert(mot@ == cw[i as int]);
        if mot.as_str().is_empty() {
        } else {
            let p = find_key(&compteurs, mot);
            if p < compteurs.len() {
                let c = compteurs[p].1;
                let key = compteurs[p].0.clone();
                compteurs.set(p, (key, c + 1));
                assert forall|j: int| 0 <= j < compteurs.len() implies compteurs@[j].0@
                    == old_keys[j].0@ by {}
            } else {
                compteurs.push((mot.clone(), 1));
                assert forall|j: int| 0 <= j < old_keys.len() implies compteurs@[j].0@
                    == old_keys[j].0@ by {}
                assert(compteurs@[old_keys.len() as int].0@ == cw[i as int]);
            }
        }
        i = i + 1;
    }
    assert(cw.subrange(0, i as int) =~= cw);
    assert forall|m: int| 0 <= m < mots.len() implies cw[m] == (#[trigger] mots@[m])@ by {}
    compteurs
}

/// Counts the words of `texte`: each piece between whitespace, with its
/// leading and trailing ASCII punctuation removed and in lower case, unless
/// nothing is left of it. Each such word appears once in the result, with the
/// number of its occurrences (at least one); the entries come in the order
/// in which their words first occur.
pub fn compter_frequences_optimise(texte: &str) -> (r: Vec<(String, usize)>)
    ensures
        forall|j: int|
            0 <= j < r.len() ==> r@[j].0@.len() > 0 && r@[j].1 >= 1 && r@[j].1 as nat
                == occurrences(cleaned(texte@), r@[j].0@),
        forall|j: int, l: int| 0 <= j < l < r.len() ==> r@[j].0@ != r@[l].0@,
        forall|i: int|
            0 <= i < cleaned(texte@).len() && cleaned(texte@)[i].len() > 0 ==> exists|j: int|
                0 <= j < r.len() && r@[j].0@ == cleaned(texte@)[i],
{
    let bruts = split_words(texte);
    proof {
        assert forall|i: int| 0 <= i < bruts@.len() implies words_of(texte@)[i] == (
        #[trigger] bruts@[i])@ by {
            assert(words_of(texte@)[i] == bruts@.map_values(|w: String| w@)[i]);
        }
    }
    let mut mots: Vec<String> = Vec::new();
    let mut i: usize = 0;
    while i < bruts.len()
        invariant
            0 <= i <= bruts.len(),
            bruts@.len() == words_of(texte@).len(),
            forall|m: int| 0 <= m < bruts@.len() ==> words_of(texte@)[m] == (#[trigger] bruts@[m])@,
            mots@.len() == i,
            forall|m: int| 0 <= m < i ==> (#[trigger] mots@[m])@ == clean(bruts@[m]@),
        decreases bruts.len() - i,
    {
        let trimmed = trim_punctuation(bruts[i].as_str());
        mots.push(lowercase(trimmed.as_str()));
        i = i + 1;
    }
    assert(texts(mots@) =~= cleaned(texte@));
    compter_mots(&mots)
}

} // verus!
