use vstd::prelude::*;

verus! {

/// On-disk state of one distribution's rootfs cache entry: whether the
/// `root` directory beside the packed image already holds the unpacked
/// distribution filesystem.
#[derive(Clone, Copy, Debug, PartialEq, Eq, Structural)]
pub struct CacheState {
    pub unpacked: bool,
}

/// The cache state after the ensure step has run.
pub open spec fn cache_after(s: CacheState) -> CacheState {
    CacheState { unpacked: true }
}

/// Whether the ensure step performs an unpack from this state.
pub open spec fn cache_unpacks(s: CacheState) -> bool {
    !s.unpacked
}

/// The decision at the cache step of `prepare`: unpack the distribution
/// image only when the root directory is absent. Returns the state after
/// the step and whether an unpack was performed.
pub fn ensure_unpacked(s: CacheState) -> (r: (CacheState, bool))
    ensures
        r.0 == cache_after(s),
        r.1 == cache_unpacks(s),
{
    if s.unpacked {
        (s, false)
    } else {
        (CacheState { unpacked: true }, true)
    }
}

/// Law: running the cache step twice in sequence from any starting state
/// unpacks the rootfs at most once — the second run finds the root present
/// and is a no-op on this step.
pub proof fn lemma_cache_step_idempotent(s: CacheState)
    ensures
        !cache_unpacks(cache_after(s)),
        cache_after(cache_after(s)) == cache_after(s),
{
}

} // verus!
