//! Pattern matching, as the `regex` crate does it.

use vstd::prelude::*;

verus! {

/// Whether the regular expression `pattern`, as the `regex` crate reads
/// it, matches somewhere in `text`; `None` where that crate refuses the
/// pattern.
pub uninterp spec fn regex_match(pattern: Seq<char>, text: Seq<char>) -> Option<bool>;

/// Asks the `regex` crate whether `pattern` matches somewhere in `text`:
/// `Regex::new` compiles the pattern and `Regex::is_match` searches the
/// text. The answer depends on the two texts alone; nothing else is
/// claimed of it.
#[verifier::external_body]
pub(crate) fn regex_is_match(pattern: &str, text: &str) -> (r: Option<bool>)
    ensures
        r == regex_match(pattern@, text@),
{
    regex::Regex::new(pattern).ok().map(|re| re.is_match(text))
}

} // verus!
