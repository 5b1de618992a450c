use vstd::prelude::*;

use crate::text::{trim_newlines, trim_trailing_newlines};

verus! {

/// The address of a network interface; empty where none is assigned.
#[derive(Debug)]
pub struct IpConfig(pub String);

/// Reads the interface address from what the address command printed.
pub fn parse_ipconfig(raw: &str) -> (r: IpConfig)
    ensures
        r.0@ == trim_trailing_newlines(raw@),
{
    IpConfig(trim_newlines(raw))
}

} // verus!
