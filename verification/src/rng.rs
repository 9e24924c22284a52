//! The one source of randomness: a bounce advances the color rotation by a
//! random step, drawn from the thread-local generator.

use vstd::prelude::*;

verus! {

/// Relies on rand::Rng::gen_range on rand::thread_rng(): a draw from the
/// half-open range `lo..hi` lies in that range, and the call panics only
/// when the range is empty, which `lo < hi` rules out.
#[verifier::external_body]
pub(crate) fn random_in_range(lo: u32, hi: u32) -> (r: u32)
    requires
        lo < hi,
    ensures
        lo <= r < hi,
{
    rand::Rng::gen_range(&mut rand::thread_rng(), lo..hi)
}

} // verus!
