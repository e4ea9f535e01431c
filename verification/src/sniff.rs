//! Classifies a `configure` script as GNU-Autotools-generated or not, from
//! the leading content of the script alone.
//!
//! This is a heuristic classifier, not a parser: the caller reads at most
//! [`SNIFF_PREFIX_LEN`] bytes of the script's text and hands them in; a
//! script that could not be read is conservatively classified as not
//! Autotools, never as an error.

use vstd::prelude::*;
use crate::text::contains_seq;
use crate::text::contains_str;

verus! {

/// How much of the script's leading content the classification looks at.
pub const SNIFF_PREFIX_LEN: usize = 4096;

/// The fixed marker substrings whose presence classifies a script as
/// generated by GNU Autotools.
pub open spec fn autotools_marked(text: Seq<char>) -> bool {
    ||| contains_seq(text, "Generated by GNU Autoconf"@)
    ||| contains_seq(text, "generated by autoconf"@)
    ||| contains_seq(text, "config.status:"@)
}

/// True exactly when the readable leading content of a `configure` script
/// carries one of the Autotools markers; `None` stands for a script that
/// could not be read and is never an error.
pub fn is_gnu_autotools_configure(prefix: &Option<String>) -> (r: bool)
    ensures
        r == match prefix {
            Some(text) => autotools_marked(text@),
            None => false,
        },
{
    match prefix {
        Some(text) => {
            let s = text.as_str();
            contains_str(s, "Generated by GNU Autoconf") || contains_str(
                s,
                "generated by autoconf",
            ) || contains_str(s, "config.status:")
        },
        None => false,
    }
}

/// Law: classification is a function of the supplied content alone, so
/// classifying unchanged content again yields the identical result.
pub proof fn lemma_sniffer_deterministic(text: Seq<char>, r1: bool, r2: bool)
    requires
        r1 == autotools_marked(text),
        r2 == autotools_marked(text),
    ensures
        r1 == r2,
{
}

} // verus!
