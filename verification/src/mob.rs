use vstd::prelude::*;

verus! {

/// Relies on rand::random_range: a uniform draw from `0..n` lies in that
/// range; the range is non-empty, so the call does not panic.
#[verifier::external_body]
fn random_index_below(n: usize) -> (r: usize)
    requires
        n >= 1,
    ensures
        r < n,
{
    rand::random_range(0..n)
}

/// A node operation the host must perform on a mob's behalf.
#[derive(Clone, Copy, Debug, PartialEq, Eq, Structural)]
pub enum MobAction {
    /// Free the mob node at the end of the frame.
    Free,
}

/// A mob looks the same for its whole life: on entering the scene tree it
/// draws one of the `variant_count` animations of its sprite frames and
/// keeps it. The draw is random, so only its bound is promised.
pub fn choose_animation_index(variant_count: usize) -> (r: usize)
    requires
        variant_count >= 1,
    ensures
        r < variant_count,
{
    random_index_below(variant_count)
}

/// A mob that drifted out of the visible viewport is gone for good.
pub fn on_screen_exited() -> (r: MobAction)
    ensures
        r == MobAction::Free,
{
    MobAction::Free
}

} // verus!
