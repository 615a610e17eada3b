//! The closed set of supported encodings and their names.

use vstd::prelude::*;
use vstd::string::*;

verus! {

/// One of the five encodings that names are recognised in.
#[derive(Clone, Copy, Debug, PartialEq, Eq, Structural)]
pub enum Encoding {
    Utf8,
    Windows1251,
    Cp866,
    Koi8R,
    Koi8U,
}

/// Errors of name resolution and of transcoding.
#[derive(Clone, Copy, Debug, PartialEq, Eq, Structural)]
pub enum CodecError {
    /// The name is none of the supported encoding identifiers.
    UnsupportedEncoding,
    /// The bytes are not valid in the given encoding.
    DecodeError(Encoding),
    /// The text holds a character that the given encoding cannot represent.
    EncodeError(Encoding),
}

/// ASCII lower-casing of one character.
pub open spec fn ascii_lower(c: char) -> char {
    if 'A' <= c && c <= 'Z' {
        ((c as u32) + 32) as char
    } else {
        c
    }
}

/// `s` equals `t` when ASCII letters are compared without regard to case.
pub open spec fn eq_ignore_ascii_case(s: Seq<char>, t: Seq<char>) -> bool {
    &&& s.len() == t.len()
    &&& forall|i: int| 0 <= i < s.len() ==> ascii_lower(#[trigger] s[i]) == ascii_lower(t[i])
}

/// The canonical lower-case identifier of each encoding.
pub open spec fn canonical_name(e: Encoding) -> Seq<char> {
    match e {
        Encoding::Utf8 => "utf-8"@,
        Encoding::Windows1251 => "windows-1251"@,
        Encoding::Cp866 => "cp866"@,
        Encoding::Koi8R => "koi8-r"@,
        Encoding::Koi8U => "koi8-u"@,
    }
}

/// The encoding that an identifier names, compared without regard to ASCII
/// case; `utf-8-mac` is another name of UTF-8.
pub open spec fn resolve_spec(s: Seq<char>) -> Result<Encoding, CodecError> {
    if eq_ignore_ascii_case(s, "utf-8"@) {
        Ok(Encoding::Utf8)
    } else if eq_ignore_ascii_case(s, "utf-8-mac"@) {
        Ok(Encoding::Utf8)
    } else if eq_ignore_ascii_case(s, "windows-1251"@) {
        Ok(Encoding::Windows1251)
    } else if eq_ignore_ascii_case(s, "cp866"@) {
        Ok(Encoding::Cp866)
    } else if eq_ignore_ascii_case(s, "koi8-r"@) {
        Ok(Encoding::Koi8R)
    } else if eq_ignore_ascii_case(s, "koi8-u"@) {
        Ok(Encoding::Koi8U)
    } else {
        Err(CodecError::UnsupportedEncoding)
    }
}

/// Compares two strings, ASCII letters without regard to case.
fn same_name(s: &str, t: &str) -> (r: bool)
    ensures
        r == eq_ignore_ascii_case(s@, t@),
{
    let n = s.unicode_len();
    if n != t.unicode_len() {
        return false;
    }
    let mut i: usize = 0;
    while i < n
        invariant
            n == s@.len(),
            n == t@.len(),
            i <= n,
            forall|j: int| 0 <= j < i ==> ascii_lower(#[trigger] s@[j]) == ascii_lower(t@[j]),
        decreases n - i,
    {
        let a = s.get_char(i);
        let b = t.get_char(i);
        let la: u32 = if 'A' <= a && a <= 'Z' { a as u32 + 32 } else { a as u32 };
        let lb: u32 = if 'A' <= b && b <= 'Z' { b as u32 + 32 } else { b as u32 };
        if la != lb {
            assert(ascii_lower(s@[i as int]) != ascii_lower(t@[i as int]));
            return false;
        }
        i = i + 1;
    }
    true
}

impl Encoding {
    /// Looks up an encoding by identifier, without regard to ASCII case.
    pub fn resolve(name: &str) -> (r: Result<Encoding, CodecError>)
        ensures
            r == resolve_spec(name@),
    {
        if same_name(name, "utf-8") {
            Ok(Encoding::Utf8)
        } else if same_name(name, "utf-8-mac") {
            Ok(Encoding::Utf8)
        } else if same_name(name, "windows-1251") {
            Ok(Encoding::Windows1251)
        } else if same_name(name, "cp866") {
            Ok(Encoding::Cp866)
        } else if same_name(name, "koi8-r") {
            Ok(Encoding::Koi8R)
        } else if same_name(name, "koi8-u") {
            Ok(Encoding::Koi8U)
        } else {
            Err(CodecError::UnsupportedEncoding)
        }
    }

    /// The canonical lower-case identifier.
    pub fn name(&self) -> (r: &'static str)
        ensures
            r@ == canonical_name(*self),
    {
        match self {
            Encoding::Utf8 => "utf-8",
            Encoding::Windows1251 => "windows-1251",
            Encoding::Cp866 => "cp866",
            Encoding::Koi8R => "koi8-r",
            Encoding::Koi8U => "koi8-u",
        }
    }
}

/// The target encoding that the options select: cp866 whenever Windows
/// mode is on, whatever target is named; the named one otherwise.
pub fn effective_target(target: &str, windows_mode: bool) -> (r: Result<Encoding, CodecError>)
    ensures
        windows_mode ==> r == Ok::<Encoding, CodecError>(Encoding::Cp866),
        !windows_mode ==> r == resolve_spec(target@),
{
    if windows_mode {
        Ok(Encoding::Cp866)
    } else {
        Encoding::resolve(target)
    }
}

/// Resolves an optional source-encoding identifier; none given means
/// detection.
pub fn resolve_source(source: Option<&str>) -> (r: Result<Option<Encoding>, CodecError>)
    ensures
        source is None ==> r == Ok::<Option<Encoding>, CodecError>(None),
        source is Some ==> match resolve_spec(source->0@) {
            Ok(e) => r == Ok::<Option<Encoding>, CodecError>(Some(e)),
            Err(x) => r == Err::<Option<Encoding>, CodecError>(x),
        },
{
    match source {
        None => Ok(None),
        Some(s) => match Encoding::resolve(s) {
            Ok(e) => Ok(Some(e)),
            Err(x) => Err(x),
        },
    }
}

} // verus!
