use firebender::network::{attach_tap_plan, bridge_plan, bridge_probe_argv, detach_tap_argv, tap_name};
use firebender::text::dec_string;

fn args(v: &Vec<String>) -> Vec<&str> {
    v.iter().map(|a| a.as_str()).collect()
}

#[test]
fn decimal_rendering_is_exact() {
    assert_eq!(dec_string(0), "0");
    assert_eq!(dec_string(7), "7");
    assert_eq!(dec_string(10), "10");
    assert_eq!(dec_string(254), "254");
    assert_eq!(dec_string(18446744073709551615), "18446744073709551615");
}

#[test]
fn tap_names_follow_the_index() {
    assert_eq!(tap_name(0), "fc-tap0");
    assert_eq!(tap_name(31), "fc-tap31");
}

#[test]
fn bridge_probe_is_unprivileged() {
    let probe = bridge_probe_argv();
    assert_eq!(args(&probe), vec!["ip", "link", "show", "fc-br0"]);
}

#[test]
fn ensure_bridge_twice_creates_one_bridge() {
    // First round: the probe finds no bridge, so the creation sequence
    // runs. Second round: the bridge now exists, so nothing runs —
    // both rounds succeed and exactly one bridge results.
    let mut bridge_exists = false;

    let first = bridge_plan(bridge_exists);
    assert_eq!(first.len(), 3);
    assert_eq!(
        args(&first[0]),
        vec!["sudo", "ip", "link", "add", "name", "fc-br0", "type", "bridge"]
    );
    assert_eq!(
        args(&first[1]),
        vec!["sudo", "ip", "addr", "add", "172.16.0.1/24", "dev", "fc-br0"]
    );
    assert_eq!(args(&first[2]), vec!["sudo", "ip", "link", "set", "dev", "fc-br0", "up"]);
    // Running the creation sequence brings the bridge up.
    bridge_exists = true;

    let second = bridge_plan(bridge_exists);
    assert!(second.is_empty());
}

#[test]
fn tap_attachment_is_ordered_and_bridged() {
    let plan = attach_tap_plan(4);
    assert_eq!(plan.len(), 3);
    assert_eq!(args(&plan[0]), vec!["sudo", "ip", "tuntap", "add", "dev", "fc-tap4", "mode", "tap"]);
    assert_eq!(args(&plan[1]), vec!["sudo", "ip", "link", "set", "fc-tap4", "master", "fc-br0"]);
    assert_eq!(args(&plan[2]), vec!["sudo", "ip", "link", "set", "fc-tap4", "up"]);
}

#[test]
fn tap_detachment_names_the_same_device() {
    let del = detach_tap_argv(4);
    assert_eq!(args(&del), vec!["sudo", "ip", "tuntap", "del", "dev", "fc-tap4", "mode", "tap"]);
}
