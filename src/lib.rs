//! Repairs file names inside ZIP archives that were stored in a legacy
//! Cyrillic single-byte encoding (windows-1251, cp866, koi8-r, koi8-u)
//! instead of UTF-8.
//!
//! The library holds the decisions: which encoding a stored name is in,
//! how it is transcoded, and what each archive entry becomes.  Reading and
//! writing the archive itself is left to the caller.

pub mod encoding;
pub mod codec;
pub mod scorer;
pub mod detect;
pub mod rewrite;
