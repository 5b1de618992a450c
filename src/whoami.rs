use vstd::prelude::*;

use crate::text::{trim_newlines, trim_trailing_newlines};

verus! {

/// The name of the current user.
#[derive(Debug)]
pub struct WhoAmI(pub String);

/// Reads the user name from what the identity command printed.
pub fn parse_who_am_i(raw: &str) -> (r: WhoAmI)
    ensures
        r.0@ == trim_trailing_newlines(raw@),
{
    WhoAmI(trim_newlines(raw))
}

} // verus!
