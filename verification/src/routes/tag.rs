//! The tag page's path parameter.

use vstd::prelude::*;
use vstd::string::StrSliceExecFns;
use crate::text::skip_leading;
use crate::text::to_chars;
use crate::text::without_leading;

verus! {

/// The tag that a tag path asks for: the parameter without the `#` signs it
/// starts with.
pub fn requested_tag(param: &str) -> (tag: String)
    ensures
        tag@ == without_leading(param@, '#'),
{
    let chars = to_chars(param);
    let start = skip_leading(&chars, '#');
    assert(param@.subrange(start as int, chars.len() as int) =~= param@.skip(start as int));
    param.substring_char(start, chars.len()).to_owned()
}

} // verus!
