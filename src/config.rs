//! Defaults for settings the configuration may leave out.
use vstd::prelude::*;

verus! {

/// The number of previously played songs kept per guild when the
/// configuration does not say otherwise.
pub fn default_max_previously_played() -> (r: usize)
    ensures
        r == 5,
{
    5
}

/// The command prefix used when the configuration does not set one.
pub fn default_prefix() -> (r: String)
    ensures
        r@ == seq!['='],
{
    let r = String::from_str("=");
    proof {
        reveal_strlit("=");
    }
    r
}

} // verus!
