//! What becomes of each archive entry when its name is repaired.
//!
//! The caller reads the entries, hands their stored names here, and writes
//! each entry under the decided name, in the original order.

use vstd::prelude::*;
use vstd::slice::slice_to_vec;
use vstd::utf8::*;
use crate::codec::{convert_encoding, decode_spec, transcode, MAX_NAME_LEN};
use crate::detect::{
    already_utf8, candidate_bytes, candidate_keys, detect_cyrillic_encoding, detect_spec,
    has_cyrillic, lemma_top_index, legacy, top_index, winner,
};
use crate::encoding::{CodecError, Encoding};

verus! {

/// How an entry's name was classified.
#[derive(Clone, Copy, Debug, PartialEq, Eq, Structural)]
pub enum EntryStatus {
    /// The archive marks the name as UTF-8; nothing was detected.
    AlreadyUtf8,
    /// The name is already in the target encoding.
    Unchanged,
    /// The name was transcoded to different bytes.
    Fixed,
    /// Transcoding failed; the name is kept as stored.
    Failed(CodecError),
}

/// A stored entry name, as read from the archive.
#[derive(Debug)]
pub struct EntryName {
    /// The name's bytes, as stored.
    pub raw: Vec<u8>,
    /// Whether the archive marks the name as UTF-8.
    pub utf8_flag: bool,
}

/// The outcome for one entry.
#[derive(Debug)]
pub struct EntryDecision {
    /// How the name was classified.
    pub status: EntryStatus,
    /// The encoding the name was taken to be in; `None` where no detection
    /// was attempted.
    pub source: Option<Encoding>,
    /// The name to write the entry under.
    pub name: Vec<u8>,
}

/// The source encoding used for an unmarked name: the one given, or the
/// detected one.
pub open spec fn source_for(raw: Seq<u8>, source: Option<Encoding>) -> Encoding {
    match source {
        Some(e) => e,
        None => detect_spec(raw),
    }
}

/// The decision for a stored name: status, source encoding and new name.
pub open spec fn decide_spec(raw: Seq<u8>, utf8_flag: bool, source: Option<Encoding>, target: Encoding) -> (
    EntryStatus,
    Option<Encoding>,
    Seq<u8>,
) {
    if utf8_flag {
        (EntryStatus::AlreadyUtf8, None, raw)
    } else {
        let d = source_for(raw, source);
        if d == target {
            (EntryStatus::Unchanged, Some(d), raw)
        } else {
            match transcode(raw, d, target) {
                Ok(n) => if n == raw {
                    (EntryStatus::Unchanged, Some(d), raw)
                } else {
                    (EntryStatus::Fixed, Some(d), n)
                },
                Err(e) => (EntryStatus::Failed(e), Some(d), raw),
            }
        }
    }
}

/// A decision, as a triple of plain values.
pub open spec fn decision_view(d: EntryDecision) -> (EntryStatus, Option<Encoding>, Seq<u8>) {
    (d.status, d.source, d.name@)
}

/// Decides the name of one entry.  `source` overrides detection; the name
/// is transcoded to `target` unless the archive marks it as UTF-8.
pub fn decide_entry(raw: &[u8], utf8_flag: bool, source: Option<Encoding>, target: Encoding) -> (r: EntryDecision)
    requires
        raw@.len() <= MAX_NAME_LEN,
    ensures
        decision_view(r) == decide_spec(raw@, utf8_flag, source, target),
        utf8_flag ==> r.status == EntryStatus::AlreadyUtf8 && r.source is None && r.name@ == raw@,
        !utf8_flag && transcode(raw@, source_for(raw@, source), target) == Ok::<Seq<u8>, CodecError>(raw@) ==> r.status
            == EntryStatus::Unchanged && r.name@ == raw@,
{
    let keep = slice_to_vec(raw);
    if utf8_flag {
        return EntryDecision { status: EntryStatus::AlreadyUtf8, source: None, name: keep };
    }
    let d = match source {
        Some(e) => e,
        None => detect_cyrillic_encoding(raw),
    };
    if d == target {
        return EntryDecision { status: EntryStatus::Unchanged, source: Some(d), name: keep };
    }
    match convert_encoding(raw, d, target) {
        Ok(n) => {
            if bytes_equal(&n, raw) {
                EntryDecision { status: EntryStatus::Unchanged, source: Some(d), name: keep }
            } else {
                EntryDecision { status: EntryStatus::Fixed, source: Some(d), name: n }
            }
        },
        Err(e) => EntryDecision { status: EntryStatus::Failed(e), source: Some(d), name: keep },
    }
}

/// Byte-wise equality.
fn bytes_equal(a: &Vec<u8>, b: &[u8]) -> (r: bool)
    ensures
        r == (a@ == b@),
{
    if a.len() != b.len() {
        return false;
    }
    let mut i: usize = 0;
    while i < a.len()
        invariant
            a@.len() == b@.len(),
            i <= a@.len(),
            forall|j: int| 0 <= j < i ==> a@[j] == b@[j],
        decreases a@.len() - i,
    {
        if a[i] != b[i] {
            return false;
        }
        i = i + 1;
    }
    assert(a@ =~= b@);
    true
}

/// Decides every entry of an archive: one decision per entry, in the
/// entries' order.
pub fn plan_archive(entries: &Vec<EntryName>, source: Option<Encoding>, target: Encoding) -> (r: Vec<EntryDecision>)
    requires
        forall|i: int| 0 <= i < entries@.len() ==> (#[trigger] entries@[i]).raw@.len() <= MAX_NAME_LEN,
    ensures
        r@.len() == entries@.len(),
        forall|i: int|
            0 <= i < entries@.len() ==> decision_view(#[trigger] r@[i]) == decide_spec(
                entries@[i].raw@,
                entries@[i].utf8_flag,
                source,
                target,
            ),
{
    let mut r: Vec<EntryDecision> = Vec::new();
    let mut i: usize = 0;
    while i < entries.len()
        invariant
            forall|j: int| 0 <= j < entries@.len() ==> (#[trigger] entries@[j]).raw@.len() <= MAX_NAME_LEN,
            i <= entries@.len(),
            r@.len() == i,
            forall|j: int|
                0 <= j < i ==> decision_view(#[trigger] r@[j]) == decide_spec(
                    entries@[j].raw@,
                    entries@[j].utf8_flag,
                    source,
                    target,
                ),
        decreases entries@.len() - i,
    {
        let e = &entries[i];
        r.push(decide_entry(e.raw.as_slice(), e.utf8_flag, source, target));
        i = i + 1;
    }
    r
}

/// Repairing names to UTF-8, with detection, twice in a row changes nothing
/// the second time: every name decided by the first pass is kept by the
/// second, which classifies it as unchanged, or as already UTF-8 where the
/// archive now marks it so.  (A name that was marked UTF-8 and is no longer
/// marked must be one that detection takes for UTF-8.)
pub proof fn lemma_repair_twice(raw: Seq<u8>, first_flag: bool, second_flag: bool)
    requires
        first_flag && !second_flag ==> detect_spec(raw) == Encoding::Utf8,
    ensures
        ({
            let first = decide_spec(raw, first_flag, None, Encoding::Utf8);
            let second = decide_spec(first.2, second_flag, None, Encoding::Utf8);
            &&& second.2 == first.2
            &&& second.0 == if second_flag {
                EntryStatus::AlreadyUtf8
            } else {
                EntryStatus::Unchanged
            }
        }),
{
    broadcast use {encode_utf8_valid_utf8, encode_utf8_decode_utf8};

    if !first_flag && detect_spec(raw) != Encoding::Utf8 {
        let keys = candidate_keys(raw);
        lemma_top_index(keys, 4);
        let t = top_index(keys, 4);
        assert(winner(keys) == Some(t));
        let d = legacy(t);
        assert(candidate_bytes(d, raw).len() > 0);
        let text = decode_spec(d, raw)->0;
        assert(has_cyrillic(text));
        let n = encode_utf8(text);
        assert(transcode(raw, d, Encoding::Utf8) == Ok::<Seq<u8>, CodecError>(n));
        assert(decode_utf8(n) == text);
        assert(already_utf8(n));
        if n == raw {
            assert(already_utf8(raw));
        }
    }
}

/// The Unix mode of a directory entry that carries none.
pub const DEFAULT_DIR_MODE: u32 = 0o755;

/// The Unix mode to write an entry with: its own, or the default
/// directory mode where it has none and its name ends in `/`.
pub open spec fn unix_mode_spec(explicit: Option<u32>, name: Seq<u8>) -> Option<u32> {
    match explicit {
        Some(m) => Some(m),
        None => if name.len() > 0 && name.last() == 47u8 {
            Some(DEFAULT_DIR_MODE)
        } else {
            None
        },
    }
}

/// The Unix mode to write an entry named `name` with.
pub fn entry_unix_mode(explicit: Option<u32>, name: &[u8]) -> (r: Option<u32>)
    ensures
        r == unix_mode_spec(explicit, name@),
{
    match explicit {
        Some(m) => Some(m),
        None => {
            if name.len() > 0 && name[name.len() - 1] == 47u8 {
                Some(DEFAULT_DIR_MODE)
            } else {
                None
            }
        },
    }
}

} // verus!
