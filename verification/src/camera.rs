use vstd::prelude::*;

verus! {

/// Whether the cameras follow the locked target this frame: only when exactly one entity
/// carries a lock and that lock is not free.
pub fn camera_follows(n_targets: usize, is_free: bool) -> (r: bool)
    ensures
        r == (n_targets == 1 && !is_free),
{
    n_targets == 1 && !is_free
}

} // verus!
