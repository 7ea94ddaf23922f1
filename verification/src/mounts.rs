use vstd::prelude::*;

verus! {

/// View of the initializer's filesystem around the root-pivot: whether the
/// sandbox root has become `/`, whether the old-root mount point directory
/// still exists under the new root, and whether the former host root is
/// still mounted (and so reachable) at that entry.
#[derive(Clone, Copy, Debug, PartialEq, Eq, Structural)]
pub struct RootSwitchView {
    pub pivoted: bool,
    pub old_root_entry: bool,
    pub old_root_mounted: bool,
}

/// Creates the directory that will serve as the old-root mount point.
pub fn make_old_root_entry(v: RootSwitchView) -> (r: RootSwitchView)
    requires
        !v.pivoted,
    ensures
        r == (RootSwitchView { old_root_entry: true, ..v }),
{
    RootSwitchView { old_root_entry: true, ..v }
}

/// The pivot proper: the current directory (the sandbox root) becomes `/`,
/// and the former root becomes reachable only at the old-root entry.
pub fn pivot_into_root(v: RootSwitchView) -> (r: RootSwitchView)
    requires
        v.old_root_entry,
        !v.pivoted,
    ensures
        r == (RootSwitchView { pivoted: true, old_root_entry: true, old_root_mounted: true }),
{
    RootSwitchView { pivoted: true, old_root_entry: true, old_root_mounted: true }
}

/// Lazily detaches the former root from the old-root entry; nothing under
/// the new root reaches the host filesystem afterwards.
pub fn detach_old_root(v: RootSwitchView) -> (r: RootSwitchView)
    requires
        v.pivoted,
        v.old_root_mounted,
    ensures
        r == (RootSwitchView { old_root_mounted: false, ..v }),
{
    RootSwitchView { old_root_mounted: false, ..v }
}

/// Removes the now-empty old-root mount point directory.
pub fn remove_old_root_entry(v: RootSwitchView) -> (r: RootSwitchView)
    requires
        v.pivoted,
        !v.old_root_mounted,
    ensures
        r == (RootSwitchView { old_root_entry: false, ..v }),
{
    RootSwitchView { old_root_entry: false, ..v }
}

/// The whole root-switch sequence of the initializer: create the old-root
/// mount point, pivot, detach the former root, and remove the mount point.
///
/// Law: after the switch the process's view of the filesystem is exclusively
/// the sandbox root — the old-root entry is gone and no mounted reference to
/// the original root remains reachable from the new root.
pub fn switch_root(v: RootSwitchView) -> (r: RootSwitchView)
    requires
        !v.pivoted,
    ensures
        r.pivoted,
        !r.old_root_entry,
        !r.old_root_mounted,
{
    let v = make_old_root_entry(v);
    let v = pivot_into_root(v);
    let v = detach_old_root(v);
    remove_old_root_entry(v)
}

} // verus!
