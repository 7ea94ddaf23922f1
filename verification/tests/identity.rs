use fappa::identity::{forge, helper_args, IdMapRange};

#[test]
fn forged_ranges_are_exact() {
    let m = forge(1000, 985);
    assert_eq!(
        m.uids,
        vec![
            IdMapRange { ns_start: 0, host_start: 1000, len: 1 },
            IdMapRange { ns_start: 1, host_start: 165536, len: 65535 },
        ]
    );
    assert_eq!(
        m.gids,
        vec![
            IdMapRange { ns_start: 0, host_start: 985, len: 1 },
            IdMapRange { ns_start: 1, host_start: 165536, len: 65535 },
        ]
    );
}

#[test]
fn uid_helper_argument_list() {
    let m = forge(1000, 1000);
    let args = helper_args(4242, &m.uids);
    assert_eq!(args, vec![4242, 0, 1000, 1, 1, 165536, 65535]);
}

#[test]
fn gid_helper_argument_list() {
    let m = forge(1000, 985);
    let args = helper_args(31, &m.gids);
    assert_eq!(args, vec![31, 0, 985, 1, 1, 165536, 65535]);
}

#[test]
fn helper_argument_list_of_empty_table() {
    let table: Vec<IdMapRange> = Vec::new();
    assert_eq!(helper_args(7, &table), vec![7]);
}
