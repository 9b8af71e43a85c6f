//! Normalization of the repository location read from the input source: a
//! line of interactive input carries a trailing newline that must not reach
//! the clone command.

use vstd::prelude::*;
use vstd::string::StrSliceExecFns;
use vstd::string::StringExecFns;

verus! {

/// `raw` without its trailing newline, if it has one.
pub open spec fn spec_normalize_url(raw: Seq<char>) -> Seq<char> {
    if raw.len() > 0 && raw.last() == '\n' {
        raw.drop_last()
    } else {
        raw
    }
}

/// Strips the trailing newline, if any, from a repository location read as
/// one line of input. Everything before it is kept as it was.
pub fn normalize_url(raw: &str) -> (r: String)
    ensures
        r@ == spec_normalize_url(raw@),
{
    let n = raw.unicode_len();
    if n > 0 {
        let c = raw.get_char(n - 1);
        if c == '\n' {
            let head = raw.substring_char(0, n - 1);
            proof {
                assert(head@ =~= raw@.drop_last());
            }
            return String::from_str(head);
        }
    }
    raw.to_owned()
}

} // verus!
