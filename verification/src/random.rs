//! The one place the library draws randomness from the outside.

use vstd::prelude::*;

verus! {

/// Relies on rand::thread_rng and rand::Rng::gen_range: a value sampled from
/// the inclusive range `lo..=hi` lies within its bounds.  Nothing more is
/// assumed of the sample.
#[verifier::external_body]
pub(crate) fn random_in_range(lo: i64, hi: i64) -> (r: i64)
    requires
        lo <= hi,
    ensures
        lo <= r <= hi,
{
    rand::Rng::gen_range(&mut rand::thread_rng(), lo..=hi)
}

} // verus!
