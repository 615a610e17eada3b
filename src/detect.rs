//! Detection of the encoding that a stored name was written in.
//!
//! A name that is valid UTF-8 and either holds Cyrillic or is plain ASCII
//! is UTF-8.  Otherwise each legacy encoding is scored by the histogram of
//! the name decoded under it, and the best scored one wins; where none of
//! them yields Cyrillic text the answer stays UTF-8.

use vstd::prelude::*;
use vstd::utf8::*;
use crate::codec::{decode_spec, decode_strict, encode_spec, encode_strict, MAX_NAME_LEN};
use crate::encoding::Encoding;
use crate::scorer::{factor_of, histogram, tally, CharFrequencies};

verus! {

/// A character of the Cyrillic or Cyrillic Supplement block.
pub open spec fn is_cyrillic(c: char) -> bool {
    '\u{0400}' <= c && c <= '\u{052F}'
}

/// `t` holds at least one Cyrillic character.
pub open spec fn has_cyrillic(t: Seq<char>) -> bool {
    exists|i: int| 0 <= i < t.len() && is_cyrillic(#[trigger] t[i])
}

/// Whether `t` holds a Cyrillic character.
pub fn contains_cyrillic(t: &Vec<char>) -> (r: bool)
    ensures
        r == has_cyrillic(t@),
{
    let mut i: usize = 0;
    while i < t.len()
        invariant
            i <= t@.len(),
            forall|j: int| 0 <= j < i ==> !is_cyrillic(#[trigger] t@[j]),
        decreases t@.len() - i,
    {
        let c = t[i];
        if '\u{0400}' <= c && c <= '\u{052F}' {
            assert(is_cyrillic(t@[i as int]));
            return true;
        }
        i = i + 1;
    }
    false
}

/// Whether every character of `t` is ASCII.
pub fn is_ascii_text(t: &Vec<char>) -> (r: bool)
    ensures
        r == is_ascii_chars(t@),
{
    let mut i: usize = 0;
    while i < t.len()
        invariant
            i <= t@.len(),
            forall|j: int| 0 <= j < i ==> '\0' <= #[trigger] t@[j] <= '\u{7f}',
        decreases t@.len() - i,
    {
        let c = t[i];
        if !('\0' <= c && c <= '\u{7f}') {
            return false;
        }
        i = i + 1;
    }
    true
}

/// The legacy candidates, in the order they are tried.
pub open spec fn legacy(i: int) -> Encoding {
    if i == 0 {
        Encoding::Windows1251
    } else if i == 1 {
        Encoding::Cp866
    } else if i == 2 {
        Encoding::Koi8R
    } else {
        Encoding::Koi8U
    }
}

/// The koi8-u bytes that are counted for candidate `enc`: the name decoded
/// under `enc` and encoded in koi8-u, where the decoded text holds Cyrillic;
/// nothing where a step fails or no Cyrillic is found.
pub open spec fn candidate_bytes(enc: Encoding, name: Seq<u8>) -> Seq<u8> {
    match decode_spec(enc, name) {
        Some(t) => if has_cyrillic(t) {
            match encode_spec(Encoding::Koi8U, t) {
                Some(k) => k,
                None => Seq::empty(),
            }
        } else {
            Seq::empty()
        },
        None => Seq::empty(),
    }
}

/// The ranking key of a candidate: characters counted, then factor.
pub open spec fn key_of(f: CharFrequencies) -> (int, int) {
    (f.characters_seen as int, factor_of(f.counts()))
}

/// The ranking keys of a list of histograms.
pub open spec fn keys_of(fs: Seq<CharFrequencies>) -> Seq<(int, int)> {
    fs.map_values(|f: CharFrequencies| key_of(f))
}

/// The ranking keys of the four legacy candidates for `name`.
pub open spec fn candidate_keys(name: Seq<u8>) -> Seq<(int, int)> {
    Seq::new(
        4,
        |i: int|
            (
                candidate_bytes(legacy(i), name).len() as int,
                factor_of(histogram(candidate_bytes(legacy(i), name))),
            ),
    )
}

/// `a` ranks above `b`: more characters counted, or as many and a higher
/// factor.
pub open spec fn better(a: (int, int), b: (int, int)) -> bool {
    a.0 > b.0 || (a.0 == b.0 && a.1 > b.1)
}

/// The first best ranked of the first `n` keys.
pub open spec fn top_index(keys: Seq<(int, int)>, n: int) -> int
    decreases n,
{
    if n <= 1 {
        0
    } else {
        let t = top_index(keys, n - 1);
        if better(keys[n - 1], keys[t]) {
            n - 1
        } else {
            t
        }
    }
}

/// The winning candidate, if the best ranked one counted any character.
pub open spec fn winner(keys: Seq<(int, int)>) -> Option<int> {
    if keys.len() == 0 {
        None
    } else if keys[top_index(keys, keys.len() as int)].0 == 0 {
        None
    } else {
        Some(top_index(keys, keys.len() as int))
    }
}

/// A name that needs no detection: valid UTF-8 holding Cyrillic, or plain
/// ASCII.
pub open spec fn already_utf8(name: Seq<u8>) -> bool {
    valid_utf8(name) && (has_cyrillic(decode_utf8(name)) || is_ascii_chars(decode_utf8(name)))
}

/// The encoding that a list of scored candidates points to: the winner's,
/// or UTF-8 where there is none.
pub open spec fn chosen_encoding(fs: Seq<CharFrequencies>) -> Encoding {
    match winner(keys_of(fs)) {
        Some(t) => fs[t].encoding,
        None => Encoding::Utf8,
    }
}

/// The encoding that `name` is detected in.
pub open spec fn detect_spec(name: Seq<u8>) -> Encoding {
    if already_utf8(name) {
        Encoding::Utf8
    } else {
        match winner(candidate_keys(name)) {
            Some(t) => legacy(t),
            None => Encoding::Utf8,
        }
    }
}

/// `top_index` picks, among the first `n` keys, one that none ranks above,
/// and ranks strictly above every key before it.
pub proof fn lemma_top_index(keys: Seq<(int, int)>, n: int)
    requires
        1 <= n <= keys.len(),
    ensures
        0 <= top_index(keys, n) < n,
        forall|j: int| 0 <= j < n ==> !better(#[trigger] keys[j], keys[top_index(keys, n)]),
        forall|j: int| 0 <= j < top_index(keys, n) ==> better(keys[top_index(keys, n)], #[trigger] keys[j]),
    decreases n,
{
    if n > 1 {
        lemma_top_index(keys, n - 1);
    }
}

/// The decoded text of `name` under `enc` holds Cyrillic.
pub open spec fn reads_cyrillic(enc: Encoding, name: Seq<u8>) -> bool {
    decode_spec(enc, name) is Some && has_cyrillic(decode_spec(enc, name)->0)
}

/// koi8-u can represent the text that `name` decodes to under `enc`.
pub open spec fn koi8u_represents(enc: Encoding, name: Seq<u8>) -> bool {
    encode_spec(Encoding::Koi8U, decode_spec(enc, name)->0) is Some
}

/// Legacy candidate `k` is the only one that decodes `name` to Cyrillic
/// text, and koi8-u can represent that text.
pub open spec fn sole_cyrillic_reader(name: Seq<u8>, k: int) -> bool {
    &&& 0 <= k < 4
    &&& reads_cyrillic(legacy(k), name)
    &&& koi8u_represents(legacy(k), name)
    &&& forall|j: int| 0 <= j < 4 && j != k ==> !(#[trigger] reads_cyrillic(legacy(j), name))
}

/// Where one key counted characters and all others counted none, that key
/// wins.
pub proof fn lemma_sole_count_wins(keys: Seq<(int, int)>, k: int)
    requires
        0 <= k < keys.len(),
        keys[k].0 > 0,
        forall|j: int| 0 <= j < keys.len() && j != k ==> (#[trigger] keys[j]).0 == 0,
    ensures
        winner(keys) == Some(k),
{
    lemma_top_index(keys, keys.len() as int);
    let t = top_index(keys, keys.len() as int);
    assert(!better(keys[k], keys[t]));
}

/// The histogram gathered for candidate `enc`.
pub fn frequencies_for(enc: Encoding, name: &[u8]) -> (r: CharFrequencies)
    requires
        name@.len() <= MAX_NAME_LEN,
    ensures
        r.wf(),
        r.encoding == enc,
        r.characters_seen == candidate_bytes(enc, name@).len(),
        r.counts() == histogram(candidate_bytes(enc, name@)),
        enc != Encoding::Utf8 && reads_cyrillic(enc, name@) && koi8u_represents(enc, name@)
            ==> r.characters_seen == name@.len() > 0,
{
    let none: Vec<u8> = Vec::new();
    match decode_strict(enc, name) {
        Some(t) => {
            if contains_cyrillic(&t) {
                match encode_strict(Encoding::Koi8U, &t) {
                    Some(k) => tally(enc, k.as_slice()),
                    None => tally(enc, none.as_slice()),
                }
            } else {
                tally(enc, none.as_slice())
            }
        },
        None => tally(enc, none.as_slice()),
    }
}

/// Scores `name` under each legacy candidate, in the order windows-1251,
/// cp866, koi8-r, koi8-u.
pub fn score_candidates(name: &[u8]) -> (r: Vec<CharFrequencies>)
    requires
        name@.len() <= MAX_NAME_LEN,
    ensures
        r@.len() == 4,
        forall|i: int| 0 <= i < 4 ==> (#[trigger] r@[i]).wf() && r@[i].encoding == legacy(i),
        keys_of(r@) == candidate_keys(name@),
        forall|k: int|
            #![trigger sole_cyrillic_reader(name@, k)]
            sole_cyrillic_reader(name@, k) ==> {
                &&& r@[k].characters_seen == name@.len() > 0
                &&& forall|j: int| 0 <= j < 4 && j != k ==> (#[trigger] r@[j]).characters_seen == 0
                &&& winner(keys_of(r@)) == Some(k)
            },
{
    let mut r: Vec<CharFrequencies> = Vec::new();
    r.push(frequencies_for(Encoding::Windows1251, name));
    r.push(frequencies_for(Encoding::Cp866, name));
    r.push(frequencies_for(Encoding::Koi8R, name));
    r.push(frequencies_for(Encoding::Koi8U, name));
    assert(keys_of(r@) =~= candidate_keys(name@));
    assert forall|k: int| sole_cyrillic_reader(name@, k) implies {
        &&& r@[k].characters_seen == name@.len() > 0
        &&& forall|j: int| 0 <= j < 4 && j != k ==> (#[trigger] r@[j]).characters_seen == 0
        &&& winner(keys_of(r@)) == Some(k)
    } by {
        assert forall|j: int| 0 <= j < 4 && j != k implies (#[trigger] r@[j]).characters_seen == 0 by {
            assert(!reads_cyrillic(legacy(j), name@));
        }
        let keys = keys_of(r@);
        assert forall|j: int| 0 <= j < keys.len() && j != k implies (#[trigger] keys[j]).0 == 0 by {
            assert(r@[j].characters_seen == 0);
        }
        lemma_sole_count_wins(keys, k);
    }
    r
}

/// The index of the first best ranked histogram, if it counted anything.
pub fn select_candidate(fs: &Vec<CharFrequencies>) -> (r: Option<usize>)
    requires
        forall|i: int| 0 <= i < fs@.len() ==> (#[trigger] fs@[i]).wf(),
    ensures
        match r {
            Some(t) => t < fs@.len() && winner(keys_of(fs@)) == Some(t as int),
            None => winner(keys_of(fs@)) is None,
        },
{
    if fs.len() == 0 {
        return None;
    }
    let ghost keys = keys_of(fs@);
    let mut best: usize = 0;
    let mut best_factor: i128 = fs[0].cyrillic_factor();
    let mut i: usize = 1;
    while i < fs.len()
        invariant
            keys == keys_of(fs@),
            forall|j: int| 0 <= j < fs@.len() ==> (#[trigger] fs@[j]).wf(),
            1 <= i <= fs@.len(),
            best == top_index(keys, i as int),
            best < i,
            best_factor == keys[best as int].1,
        decreases fs@.len() - i,
    {
        let f = fs[i].cyrillic_factor();
        let seen = fs[i].characters_seen;
        let best_seen = fs[best].characters_seen;
        if seen > best_seen || (seen == best_seen && f > best_factor) {
            best = i;
            best_factor = f;
        }
        i = i + 1;
    }
    if fs[best].characters_seen == 0 {
        None
    } else {
        Some(best)
    }
}

/// The encoding that scored candidates point to: the winner's, or UTF-8
/// where none counted any character.
pub fn choose_encoding(fs: &Vec<CharFrequencies>) -> (r: Encoding)
    requires
        forall|i: int| 0 <= i < fs@.len() ==> (#[trigger] fs@[i]).wf(),
    ensures
        r == chosen_encoding(fs@),
{
    match select_candidate(fs) {
        Some(t) => fs[t].encoding,
        None => Encoding::Utf8,
    }
}

/// Detects the encoding of the stored name `filename`.
pub fn detect_cyrillic_encoding(filename: &[u8]) -> (r: Encoding)
    requires
        filename@.len() <= MAX_NAME_LEN,
    ensures
        r == detect_spec(filename@),
        forall|k: int|
            sole_cyrillic_reader(filename@, k) && !already_utf8(filename@) ==> r == legacy(k),
{
    if let Some(t) = decode_strict(Encoding::Utf8, filename) {
        if contains_cyrillic(&t) || is_ascii_text(&t) {
            return Encoding::Utf8;
        }
    }
    let fs = score_candidates(filename);
    proof {
        lemma_top_index(candidate_keys(filename@), 4);
    }
    assert forall|k: int|
        sole_cyrillic_reader(filename@, k) && !already_utf8(filename@) implies detect_spec(
        filename@,
    ) == legacy(k) by {
        assert(winner(keys_of(fs@)) == Some(k));
    }
    choose_encoding(&fs)
}

} // verus!
