//! The closed set of content-hash algorithms and the text that names each.

use vstd::prelude::*;
use vstd::string::StrSliceExecFns;

verus! {

/// The digest used to fingerprint candidate files. One value is active for a
/// whole run.
#[derive(Clone, Copy, Debug, PartialEq, Eq, Structural)]
pub enum HashAlgorithm {
    Crc,
    Md5,
}

/// The three characters `CRC`.
pub open spec fn crc_text() -> Seq<char> {
    seq!['C', 'R', 'C']
}

/// The three characters `MD5`.
pub open spec fn md5_text() -> Seq<char> {
    seq!['M', 'D', '5']
}

/// The algorithm that a text names, if it names one. The match is exact:
/// no trimming, no change of case.
pub open spec fn recognized(text: Seq<char>) -> Option<HashAlgorithm> {
    if text == crc_text() {
        Some(HashAlgorithm::Crc)
    } else if text == md5_text() {
        Some(HashAlgorithm::Md5)
    } else {
        None
    }
}

/// What an optional text decodes to: an absent text and a text that names no
/// algorithm are the same thing.
pub open spec fn decoded(text: Option<Seq<char>>) -> Option<HashAlgorithm> {
    match text {
        Some(t) => recognized(t),
        None => None,
    }
}

impl HashAlgorithm {
    /// Reads an algorithm's name. Any other text gives `None`.
    pub fn parse(text: &str) -> (r: Option<HashAlgorithm>)
        ensures
            r == recognized(text@),
    {
        if text.unicode_len() != 3 {
            return None;
        }
        let a = text.get_char(0);
        let b = text.get_char(1);
        let c = text.get_char(2);
        if a == 'C' && b == 'R' && c == 'C' {
            assert(text@ =~= crc_text());
            Some(HashAlgorithm::Crc)
        } else if a == 'M' && b == 'D' && c == '5' {
            assert(text@ =~= md5_text());
            Some(HashAlgorithm::Md5)
        } else {
            None
        }
    }
}

} // verus!
