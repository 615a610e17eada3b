use runzip::codec::convert_encoding;
use runzip::detect::{
    choose_encoding, contains_cyrillic, detect_cyrillic_encoding, is_ascii_text, score_candidates,
    select_candidate,
};
use runzip::encoding::{effective_target, resolve_source, CodecError, Encoding};
use runzip::rewrite::{decide_entry, entry_unix_mode, plan_archive, EntryName, EntryStatus};
use runzip::scorer::{tally, CharFrequencies};

/// "Привет.txt" in windows-1251.
const PRIVET_CP1251: [u8; 10] = [0xCF, 0xF0, 0xE8, 0xE2, 0xE5, 0xF2, 0x2E, 0x74, 0x78, 0x74];
/// "Привет.txt" in koi8-r.
const PRIVET_KOI8R: [u8; 10] = [0xF0, 0xD2, 0xC9, 0xD7, 0xC5, 0xD4, 0x2E, 0x74, 0x78, 0x74];
/// "Привет.txt" in cp866.
const PRIVET_CP866: [u8; 10] = [0x8F, 0xE0, 0xA8, 0xA2, 0xA5, 0xE2, 0x2E, 0x74, 0x78, 0x74];
/// "ЛЕС.txt" in cp866: no other legacy candidate reads Cyrillic in it.
const LES_CP866: [u8; 7] = [0x8B, 0x85, 0x91, 0x2E, 0x74, 0x78, 0x74];
/// The koi8-u histogram of "Привет.txt" (lower-case letters only).
const PRIVET_KOI8U: [u8; 10] = [0xF0, 0xD2, 0xC9, 0xD7, 0xC5, 0xD4, 0x2E, 0x74, 0x78, 0x74];

fn privet_utf8() -> Vec<u8> {
    "Привет.txt".as_bytes().to_vec()
}

#[test]
fn resolve_accepts_canonical_names_in_any_case() {
    assert_eq!(Encoding::resolve("utf-8"), Ok(Encoding::Utf8));
    assert_eq!(Encoding::resolve("UTF-8"), Ok(Encoding::Utf8));
    assert_eq!(Encoding::resolve("utf-8-mac"), Ok(Encoding::Utf8));
    assert_eq!(Encoding::resolve("Windows-1251"), Ok(Encoding::Windows1251));
    assert_eq!(Encoding::resolve("CP866"), Ok(Encoding::Cp866));
    assert_eq!(Encoding::resolve("KOI8-R"), Ok(Encoding::Koi8R));
    assert_eq!(Encoding::resolve("koi8-u"), Ok(Encoding::Koi8U));
}

#[test]
fn resolve_rejects_unknown_names() {
    assert_eq!(Encoding::resolve("latin1"), Err(CodecError::UnsupportedEncoding));
    assert_eq!(Encoding::resolve(""), Err(CodecError::UnsupportedEncoding));
    assert_eq!(Encoding::resolve("utf-8 "), Err(CodecError::UnsupportedEncoding));
    assert_eq!(Encoding::resolve("koi8"), Err(CodecError::UnsupportedEncoding));
}

#[test]
fn canonical_names() {
    assert_eq!(Encoding::Utf8.name(), "utf-8");
    assert_eq!(Encoding::Windows1251.name(), "windows-1251");
    assert_eq!(Encoding::Cp866.name(), "cp866");
    assert_eq!(Encoding::Koi8R.name(), "koi8-r");
    assert_eq!(Encoding::Koi8U.name(), "koi8-u");
}

#[test]
fn windows_mode_overrides_named_target() {
    assert_eq!(effective_target("koi8-r", true), Ok(Encoding::Cp866));
    assert_eq!(effective_target("utf-8", true), Ok(Encoding::Cp866));
    assert_eq!(effective_target("nonsense", true), Ok(Encoding::Cp866));
    assert_eq!(effective_target("koi8-r", false), Ok(Encoding::Koi8R));
    assert_eq!(effective_target("nonsense", false), Err(CodecError::UnsupportedEncoding));
}

#[test]
fn source_resolution() {
    assert_eq!(resolve_source(None), Ok(None));
    assert_eq!(resolve_source(Some("cp866")), Ok(Some(Encoding::Cp866)));
    assert_eq!(resolve_source(Some("ebcdic")), Err(CodecError::UnsupportedEncoding));
}

#[test]
fn convert_windows1251_to_utf8() {
    let r = convert_encoding(&PRIVET_CP1251, Encoding::Windows1251, Encoding::Utf8);
    assert_eq!(r, Ok(privet_utf8()));
}

#[test]
fn convert_utf8_to_each_legacy_encoding() {
    let u = privet_utf8();
    assert_eq!(convert_encoding(&u, Encoding::Utf8, Encoding::Windows1251), Ok(PRIVET_CP1251.to_vec()));
    assert_eq!(convert_encoding(&u, Encoding::Utf8, Encoding::Koi8R), Ok(PRIVET_KOI8R.to_vec()));
    assert_eq!(convert_encoding(&u, Encoding::Utf8, Encoding::Cp866), Ok(PRIVET_CP866.to_vec()));
}

#[test]
fn convert_reports_decode_error() {
    let r = convert_encoding(&[0x66, 0xFF, 0x66], Encoding::Utf8, Encoding::Koi8R);
    assert_eq!(r, Err(CodecError::DecodeError(Encoding::Utf8)));
}

#[test]
fn convert_reports_encode_error() {
    let r = convert_encoding("日本.txt".as_bytes(), Encoding::Utf8, Encoding::Koi8R);
    assert_eq!(r, Err(CodecError::EncodeError(Encoding::Koi8R)));
}

#[test]
fn convert_ascii_is_identity() {
    let r = convert_encoding(b"readme.txt", Encoding::Koi8R, Encoding::Utf8);
    assert_eq!(r, Ok(b"readme.txt".to_vec()));
}

#[test]
fn cyrillic_and_ascii_predicates() {
    assert!(contains_cyrillic(&"abc ж".chars().collect()));
    assert!(contains_cyrillic(&vec!['\u{0400}']));
    assert!(contains_cyrillic(&vec!['\u{052F}']));
    assert!(!contains_cyrillic(&vec!['\u{0530}', 'a']));
    assert!(!contains_cyrillic(&Vec::new()));
    assert!(is_ascii_text(&"plain.txt".chars().collect()));
    assert!(!is_ascii_text(&"café".chars().collect()));
}

#[test]
fn frequencies_start_empty_and_count() {
    let mut f = CharFrequencies::new(Encoding::Koi8U);
    assert_eq!(f.characters_seen, 0);
    assert_eq!(f.frequency.len(), 256);
    assert!(f.frequency.iter().all(|&c| c == 0));
    f.add_character(207);
    f.add_character(207);
    f.add_character(32);
    assert_eq!(f.characters_seen, 3);
    assert_eq!(f.frequency[207], 2);
    assert_eq!(f.frequency[32], 1);
    assert_eq!(f.encoding, Encoding::Koi8U);
}

#[test]
fn factor_of_empty_histogram() {
    let f = CharFrequencies::new(Encoding::Cp866);
    assert_eq!(f.cyrillic_factor(), -2072450);
}

#[test]
fn factor_of_single_letter() {
    let f = tally(Encoding::Cp866, &[207]);
    assert_eq!(f.cyrillic_factor(), -1950680);
}

#[test]
fn factor_folds_upper_case() {
    // 0xF0 is the koi8 upper-case П, scored at the lower-case position 0xD0.
    let f = tally(Encoding::Cp866, &[0xF0]);
    assert_eq!(f.cyrillic_factor(), -2045280);
}

#[test]
fn letter_em_raises_factor() {
    // 0xED is the koi8 upper-case М, 0xCD its lower case; both score at 0xCD.
    let empty = CharFrequencies::new(Encoding::Koi8R).cyrillic_factor();
    let mut upper = CharFrequencies::new(Encoding::Koi8R);
    upper.add_character(0xED);
    assert!(upper.cyrillic_factor() > empty);
    assert_eq!(upper.cyrillic_factor(), -2038350);
    assert_eq!(tally(Encoding::Koi8R, &[0xCD]).cyrillic_factor(), -2038350);
}

#[test]
fn factor_of_privet() {
    let f = tally(Encoding::Windows1251, &PRIVET_KOI8U);
    assert_eq!(f.characters_seen, 10);
    assert_eq!(f.frequency[0x74], 2);
    assert_eq!(f.cyrillic_factor(), -1712826);
}

#[test]
fn utf8_cyrillic_is_detected_as_utf8() {
    assert_eq!(detect_cyrillic_encoding(&privet_utf8()), Encoding::Utf8);
}

#[test]
fn ascii_is_detected_as_utf8() {
    assert_eq!(detect_cyrillic_encoding(b"docs/readme.md"), Encoding::Utf8);
    assert_eq!(detect_cyrillic_encoding(b""), Encoding::Utf8);
}

#[test]
fn windows1251_name_is_detected() {
    assert_eq!(detect_cyrillic_encoding(&PRIVET_CP1251), Encoding::Windows1251);
}

#[test]
fn cp866_name_is_detected() {
    assert_eq!(detect_cyrillic_encoding(&PRIVET_CP866), Encoding::Cp866);
}

#[test]
fn koi8_tie_goes_to_koi8r() {
    // koi8-r and koi8-u score this name alike; the earlier candidate wins.
    let fs = score_candidates(&PRIVET_KOI8R);
    assert_eq!(fs[2].characters_seen, fs[3].characters_seen);
    assert_eq!(fs[2].cyrillic_factor(), fs[3].cyrillic_factor());
    assert_eq!(detect_cyrillic_encoding(&PRIVET_KOI8R), Encoding::Koi8R);
}

#[test]
fn sole_cyrillic_candidate_wins() {
    let fs = score_candidates(&LES_CP866);
    assert_eq!(fs.len(), 4);
    assert_eq!(fs[0].encoding, Encoding::Windows1251);
    assert_eq!(fs[1].encoding, Encoding::Cp866);
    assert_eq!(fs[2].encoding, Encoding::Koi8R);
    assert_eq!(fs[3].encoding, Encoding::Koi8U);
    assert_eq!(fs[0].characters_seen, 0);
    assert_eq!(fs[1].characters_seen, 7);
    assert_eq!(fs[2].characters_seen, 0);
    assert_eq!(fs[3].characters_seen, 0);
    assert_eq!(select_candidate(&fs), Some(1));
    assert_eq!(detect_cyrillic_encoding(&LES_CP866), Encoding::Cp866);
}

#[test]
fn no_cyrillic_anywhere_defaults_to_utf8() {
    // 0xB0 is a box or a degree sign under every legacy candidate.
    let fs = score_candidates(&[0xB0]);
    assert!(fs.iter().all(|f| f.characters_seen == 0));
    assert_eq!(select_candidate(&fs), None);
    assert_eq!(detect_cyrillic_encoding(&[0xB0]), Encoding::Utf8);
}

#[test]
fn selection_prefers_count_then_factor_then_order() {
    let a = tally(Encoding::Windows1251, &[0x74, 0x74]);
    let b = tally(Encoding::Cp866, &[0xCF]);
    let c = tally(Encoding::Koi8R, &[0xCF]);
    let d = tally(Encoding::Koi8U, &[0x74]);
    // a counted most.
    let fs = vec![d, b, a, c];
    assert_eq!(select_candidate(&fs), Some(2));
    assert_eq!(choose_encoding(&fs), Encoding::Windows1251);
    // b and c tie on both; b is first. Both beat d on factor.
    let fs2 = vec![
        tally(Encoding::Koi8U, &[0x74]),
        tally(Encoding::Cp866, &[0xCF]),
        tally(Encoding::Koi8R, &[0xCF]),
    ];
    assert_eq!(select_candidate(&fs2), Some(1));
    assert_eq!(choose_encoding(&fs2), Encoding::Cp866);
    assert_eq!(choose_encoding(&Vec::new()), Encoding::Utf8);
}

#[test]
fn windows1251_entry_is_fixed() {
    let d = decide_entry(&PRIVET_CP1251, false, None, Encoding::Utf8);
    assert_eq!(d.status, EntryStatus::Fixed);
    assert_eq!(d.source, Some(Encoding::Windows1251));
    assert_eq!(d.name, privet_utf8());
}

#[test]
fn utf8_flagged_entry_is_left_alone() {
    let d = decide_entry(&privet_utf8(), true, None, Encoding::Utf8);
    assert_eq!(d.status, EntryStatus::AlreadyUtf8);
    assert_eq!(d.source, None);
    assert_eq!(d.name, privet_utf8());
    // The flag wins even over bytes that are not UTF-8.
    let d2 = decide_entry(&PRIVET_CP1251, true, Some(Encoding::Koi8R), Encoding::Utf8);
    assert_eq!(d2.status, EntryStatus::AlreadyUtf8);
    assert_eq!(d2.name, PRIVET_CP1251.to_vec());
}

#[test]
fn identical_recode_is_unchanged() {
    let d = decide_entry(b"notes.txt", false, Some(Encoding::Koi8R), Encoding::Utf8);
    assert_eq!(d.status, EntryStatus::Unchanged);
    assert_eq!(d.source, Some(Encoding::Koi8R));
    assert_eq!(d.name, b"notes.txt".to_vec());
}

#[test]
fn detected_target_is_unchanged() {
    let d = decide_entry(&privet_utf8(), false, None, Encoding::Utf8);
    assert_eq!(d.status, EntryStatus::Unchanged);
    assert_eq!(d.source, Some(Encoding::Utf8));
    assert_eq!(d.name, privet_utf8());
}

#[test]
fn failed_recode_keeps_name() {
    let d = decide_entry(&PRIVET_CP1251, false, Some(Encoding::Utf8), Encoding::Koi8R);
    assert_eq!(d.status, EntryStatus::Failed(CodecError::DecodeError(Encoding::Utf8)));
    assert_eq!(d.name, PRIVET_CP1251.to_vec());
    let e = decide_entry("日本.txt".as_bytes(), false, Some(Encoding::Utf8), Encoding::Cp866);
    assert_eq!(e.status, EntryStatus::Failed(CodecError::EncodeError(Encoding::Cp866)));
    assert_eq!(e.name, "日本.txt".as_bytes().to_vec());
}

#[test]
fn windows_mode_recodes_utf8_to_cp866() {
    let d = decide_entry(&privet_utf8(), false, None, Encoding::Cp866);
    assert_eq!(d.status, EntryStatus::Fixed);
    assert_eq!(d.name, PRIVET_CP866.to_vec());
}

#[test]
fn second_repair_changes_nothing() {
    let first = decide_entry(&PRIVET_CP1251, false, None, Encoding::Utf8);
    assert_eq!(first.status, EntryStatus::Fixed);
    let second = decide_entry(&first.name, false, None, Encoding::Utf8);
    assert_eq!(second.status, EntryStatus::Unchanged);
    assert_eq!(second.name, first.name);
    let flagged = decide_entry(&first.name, true, None, Encoding::Utf8);
    assert_eq!(flagged.status, EntryStatus::AlreadyUtf8);
    assert_eq!(flagged.name, first.name);
}

#[test]
fn plan_keeps_count_and_order() {
    let entries = vec![
        EntryName { raw: b"a.txt".to_vec(), utf8_flag: false },
        EntryName { raw: PRIVET_CP1251.to_vec(), utf8_flag: false },
        EntryName { raw: privet_utf8(), utf8_flag: true },
        EntryName { raw: b"dir/".to_vec(), utf8_flag: false },
    ];
    let plan = plan_archive(&entries, None, Encoding::Utf8);
    assert_eq!(plan.len(), 4);
    assert_eq!(plan[0].status, EntryStatus::Unchanged);
    assert_eq!(plan[0].name, b"a.txt".to_vec());
    assert_eq!(plan[1].status, EntryStatus::Fixed);
    assert_eq!(plan[1].name, privet_utf8());
    assert_eq!(plan[2].status, EntryStatus::AlreadyUtf8);
    assert_eq!(plan[2].name, privet_utf8());
    assert_eq!(plan[3].status, EntryStatus::Unchanged);
    assert_eq!(plan[3].name, b"dir/".to_vec());
    assert!(plan_archive(&Vec::new(), None, Encoding::Utf8).is_empty());
}

#[test]
fn plan_with_source_override() {
    let entries = vec![EntryName { raw: PRIVET_KOI8R.to_vec(), utf8_flag: false }];
    let plan = plan_archive(&entries, Some(Encoding::Koi8U), Encoding::Utf8);
    assert_eq!(plan[0].status, EntryStatus::Fixed);
    assert_eq!(plan[0].source, Some(Encoding::Koi8U));
    assert_eq!(plan[0].name, privet_utf8());
}

#[test]
fn unix_modes() {
    assert_eq!(entry_unix_mode(Some(0o644), b"dir/"), Some(0o644));
    assert_eq!(entry_unix_mode(None, b"dir/"), Some(0o755));
    assert_eq!(entry_unix_mode(None, b"file"), None);
    assert_eq!(entry_unix_mode(None, b""), None);
}

#[test]
fn longest_name_is_recoded() {
    // 65535 times the windows-1251 letter а.
    let raw = vec![0xE0u8; 65535];
    assert_eq!(detect_cyrillic_encoding(&raw), Encoding::Windows1251);
    let d = decide_entry(&raw, false, None, Encoding::Utf8);
    assert_eq!(d.status, EntryStatus::Fixed);
    assert_eq!(d.name.len(), 2 * 65535);
    assert!(d.name.chunks(2).all(|c| c == [0xD0, 0xB0]));
}
