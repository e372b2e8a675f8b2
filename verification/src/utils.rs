//! Small text helpers.

use vstd::prelude::*;
use vstd::string::{StrSliceExecFns, StringExecFns};

verus! {

/// The Unicode uppercase mapping of one character: one or more characters,
/// a function of the character alone.
pub uninterp spec fn upper_of(c: char) -> Seq<char>;

/// Relies on `char::to_uppercase`: the Unicode uppercase mapping of the
/// character, collected into a string.
#[verifier::external_body]
fn char_to_uppercase(c: char) -> (upper: String)
    ensures
        upper@ == upper_of(c),
{
    c.to_uppercase().collect::<String>()
}

/// Uppercase the first character and keep the rest as it is.
pub fn capitalize(s: &str) -> (capitalized: String)
    ensures
        s@.len() == 0 ==> capitalized@ == Seq::<char>::empty(),
        s@.len() > 0 ==> capitalized@ == upper_of(s@[0]) + s@.skip(1),
{
    let len = s.unicode_len();
    if len == 0 {
        return String::new();
    }
    let mut capitalized = char_to_uppercase(s.get_char(0));
    capitalized.append(s.substring_char(1, len));
    proof {
        assert(s@.subrange(1, len as int) =~= s@.skip(1));
    }
    capitalized
}

} // verus!
