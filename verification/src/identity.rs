use vstd::prelude::*;

verus! {

/// First subordinate ID delegated into the sandbox's user namespace.
pub const SUB_ID_BASE: u64 = 165536;

/// How many subordinate IDs are delegated beyond the root mapping.
pub const SUB_ID_COUNT: u64 = 65535;

/// One contiguous ID-mapping range: namespace IDs `ns_start..ns_start + len`
/// map to host IDs `host_start..host_start + len`.
#[derive(Clone, Copy, Debug, PartialEq, Eq, Structural)]
pub struct IdMapRange {
    pub ns_start: u64,
    pub host_start: u64,
    pub len: u64,
}

/// The full table for one kind of ID: namespace ID 0 maps to the host's
/// own effective ID (length 1), and namespace IDs 1..65536 map to the
/// fixed subordinate block.
pub open spec fn forged_table(host_id: u64) -> Seq<IdMapRange> {
    seq![
        IdMapRange { ns_start: 0, host_start: host_id, len: 1 },
        IdMapRange { ns_start: 1, host_start: SUB_ID_BASE, len: SUB_ID_COUNT },
    ]
}

/// The ID mappings of one sandbox: one table for user IDs and one for
/// group IDs. Computed once from the host's effective IDs, applied exactly
/// once before any privileged transition inside the namespace, immutable
/// afterward.
pub struct IdentityMapping {
    pub uids: Vec<IdMapRange>,
    pub gids: Vec<IdMapRange>,
}

/// Computes the mapping tables for a sandbox from the host's effective UID
/// and GID: "root" inside the namespace is the inviting host user outside
/// it, and the rest of the namespace draws on the subordinate block.
pub fn forge(host_euid: u64, host_egid: u64) -> (m: IdentityMapping)
    ensures
        m.uids@ == forged_table(host_euid),
        m.gids@ == forged_table(host_egid),
{
    let mut uids: Vec<IdMapRange> = Vec::new();
    uids.push(IdMapRange { ns_start: 0, host_start: host_euid, len: 1 });
    uids.push(IdMapRange { ns_start: 1, host_start: SUB_ID_BASE, len: SUB_ID_COUNT });
    let mut gids: Vec<IdMapRange> = Vec::new();
    gids.push(IdMapRange { ns_start: 0, host_start: host_egid, len: 1 });
    gids.push(IdMapRange { ns_start: 1, host_start: SUB_ID_BASE, len: SUB_ID_COUNT });
    proof {
        assert(uids@ =~= forged_table(host_euid));
        assert(gids@ =~= forged_table(host_egid));
    }
    IdentityMapping { uids, gids }
}

/// The numeric arguments of one table, flattened in order as the helper
/// programs expect them: (namespace start, host start, length) per range.
pub open spec fn ranges_flat(t: Seq<IdMapRange>) -> Seq<u64>
    decreases t.len(),
{
    if t.len() == 0 {
        Seq::empty()
    } else {
        ranges_flat(t.drop_last()) + seq![
            t.last().ns_start,
            t.last().host_start,
            t.last().len,
        ]
    }
}

/// The full argument list of one helper invocation: the target PID, then
/// the flattened ranges.
pub open spec fn helper_args_spec(target_pid: u64, t: Seq<IdMapRange>) -> Seq<u64> {
    seq![target_pid] + ranges_flat(t)
}

/// Builds the argument list for one privileged ID-mapping helper
/// invocation against the sandbox process `target_pid`.
pub fn helper_args(target_pid: u64, table: &Vec<IdMapRange>) -> (r: Vec<u64>)
    ensures
        r@ == helper_args_spec(target_pid, table@),
{
    let mut r: Vec<u64> = Vec::new();
    r.push(target_pid);
    proof {
        assert(table@.take(0) =~= Seq::<IdMapRange>::empty());
        assert(r@ =~= seq![target_pid] + ranges_flat(table@.take(0)));
    }
    let mut i: usize = 0;
    while i < table.len()
        invariant
            i <= table.len(),
            r@ == seq![target_pid] + ranges_flat(table@.take(i as int)),
        decreases table.len() - i,
    {
        let e = table[i];
        r.push(e.ns_start);
        r.push(e.host_start);
        r.push(e.len);
        proof {
            let t = table@;
            let k = i as int;
            assert(t.take(k + 1).drop_last() =~= t.take(k));
            assert(t.take(k + 1).last() == t[k]);
            assert(r@ =~= seq![target_pid] + ranges_flat(t.take(k + 1)));
        }
        i = i + 1;
    }
    proof {
        assert(table@.take(table@.len() as int) =~= table@);
    }
    r
}

} // verus!
