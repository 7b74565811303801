use sidecar_supervisor::reclaim::{reclaim_candidates, is_sidecar_process, line_pid, Listing};

const PS: &str = "  PID COMM\n    1 /sbin/launchd\n  512 opencode\n  513 /usr/bin/python3\n  777 opencode-cli serve\n  900 vim opencode.json\n";

#[test]
fn process_table_selects_sidecars_only() {
    let pids = reclaim_candidates(&PS.as_bytes().to_vec(), Listing::ProcessTable, 4242);
    assert_eq!(pids, vec![512, 777, 900]);
}

#[test]
fn process_table_skips_own_pid() {
    let pids = reclaim_candidates(&PS.as_bytes().to_vec(), Listing::ProcessTable, 512);
    assert_eq!(pids, vec![777, 900]);
}

#[test]
fn unrelated_port_holder_is_never_selected() {
    let ps = b"  PID COMM\n 3000 node\n 3001 nginx\n".to_vec();
    assert!(reclaim_candidates(&ps, Listing::ProcessTable, 1).is_empty());
    assert!(!is_sidecar_process(&b"node\n".to_vec()));
    assert!(is_sidecar_process(&b"opencode-cli\n".to_vec()));
}

#[test]
fn pid_list_reads_one_pid_per_line() {
    let out = b"1234\n  5678 \n\nabc\n99 100\n+42\n".to_vec();
    assert_eq!(reclaim_candidates(&out, Listing::PidList, 0), vec![1234, 5678, 42]);
}

#[test]
fn pid_list_skips_own_pid() {
    let out = b"1234\n5678\n".to_vec();
    assert_eq!(reclaim_candidates(&out, Listing::PidList, 5678), vec![1234]);
}

#[test]
fn pids_beyond_u32_are_ignored() {
    let out = b"4294967295\n4294967296\n".to_vec();
    assert_eq!(reclaim_candidates(&out, Listing::PidList, 0), vec![4294967295]);
}

#[test]
fn empty_listing_selects_nothing() {
    assert!(reclaim_candidates(&Vec::new(), Listing::ProcessTable, 1).is_empty());
    assert!(reclaim_candidates(&Vec::new(), Listing::PidList, 1).is_empty());
}

#[test]
fn single_lines() {
    assert_eq!(line_pid(Listing::ProcessTable, &b"12 opencode".to_vec(), 1), Some(12));
    assert_eq!(line_pid(Listing::ProcessTable, &b"12".to_vec(), 1), None);
    assert_eq!(line_pid(Listing::ProcessTable, &b"x opencode".to_vec(), 1), None);
}
