use vstd::prelude::*;
use vstd::view::DeepView;

use crate::text::{dec_of, lemma_concat_cancel_left, lemma_dec_of_injective, push_dec};

verus! {

/// The name of the tap device with tap index `i`.
pub open spec fn tap_name_of(i: u32) -> Seq<char> {
    "fc-tap"@ + dec_of(i as nat)
}

/// The probe that checks whether the shared bridge exists (no `sudo`:
/// reading needs no privilege).
pub open spec fn bridge_probe_cmd() -> Seq<Seq<char>> {
    seq!["ip"@, "link"@, "show"@, "fc-br0"@]
}

/// Creates the shared bridge device.
pub open spec fn bridge_add_cmd() -> Seq<Seq<char>> {
    seq!["sudo"@, "ip"@, "link"@, "add"@, "name"@, "fc-br0"@, "type"@, "bridge"@]
}

/// Assigns the gateway address to the bridge.
pub open spec fn bridge_addr_cmd() -> Seq<Seq<char>> {
    seq!["sudo"@, "ip"@, "addr"@, "add"@, "172.16.0.1/24"@, "dev"@, "fc-br0"@]
}

/// Activates the bridge.
pub open spec fn bridge_up_cmd() -> Seq<Seq<char>> {
    seq!["sudo"@, "ip"@, "link"@, "set"@, "dev"@, "fc-br0"@, "up"@]
}

/// The bridge-creation sequence, in execution order.
pub open spec fn bridge_create_cmds() -> Seq<Seq<Seq<char>>> {
    seq![bridge_add_cmd(), bridge_addr_cmd(), bridge_up_cmd()]
}

/// Creates the tap device with index `i`.
pub open spec fn tap_add_cmd(i: u32) -> Seq<Seq<char>> {
    seq!["sudo"@, "ip"@, "tuntap"@, "add"@, "dev"@, tap_name_of(i), "mode"@, "tap"@]
}

/// Attaches the tap device to the bridge.
pub open spec fn tap_master_cmd(i: u32) -> Seq<Seq<char>> {
    seq!["sudo"@, "ip"@, "link"@, "set"@, tap_name_of(i), "master"@, "fc-br0"@]
}

/// Activates the tap device.
pub open spec fn tap_up_cmd(i: u32) -> Seq<Seq<char>> {
    seq!["sudo"@, "ip"@, "link"@, "set"@, tap_name_of(i), "up"@]
}

/// The tap-attachment sequence for index `i`, in execution order.
pub open spec fn attach_tap_cmds(i: u32) -> Seq<Seq<Seq<char>>> {
    seq![tap_add_cmd(i), tap_master_cmd(i), tap_up_cmd(i)]
}

/// Deletes the tap device with index `i`.
pub open spec fn tap_del_cmd(i: u32) -> Seq<Seq<char>> {
    seq!["sudo"@, "ip"@, "tuntap"@, "del"@, "dev"@, tap_name_of(i), "mode"@, "tap"@]
}

/// Appends one argument to an argument vector.
pub(crate) fn push_arg(v: &mut Vec<String>, a: &str)
    ensures
        final(v).deep_view() == old(v).deep_view().push(a@),
{
    v.push(String::from_str(a));
    proof {
        assert(final(v).deep_view() =~~= old(v).deep_view().push(a@));
    }
}

/// Renders the tap device name of index `i`.
pub fn tap_name(i: u32) -> (r: String)
    ensures
        r@ == tap_name_of(i),
{
    let mut s = String::from_str("fc-tap");
    push_dec(&mut s, i as u64);
    s
}

/// The probe command for the bridge; a zero exit status means the bridge
/// already exists.
pub fn bridge_probe_argv() -> (r: Vec<String>)
    ensures
        r.deep_view() == bridge_probe_cmd(),
{
    let mut v: Vec<String> = Vec::new();
    push_arg(&mut v, "ip");
    push_arg(&mut v, "link");
    push_arg(&mut v, "show");
    push_arg(&mut v, "fc-br0");
    proof {
        assert(v.deep_view() =~~= bridge_probe_cmd());
    }
    v
}

/// The commands to run after probing: nothing when the bridge already
/// exists, else the full creation sequence. Each command must succeed;
/// a failure is a `NetworkSetupError` and fatal to server startup.
pub fn bridge_plan(bridge_exists: bool) -> (r: Vec<Vec<String>>)
    ensures
        bridge_exists ==> r.deep_view() == Seq::<Seq<Seq<char>>>::empty(),
        !bridge_exists ==> r.deep_view() == bridge_create_cmds(),
{
    let mut plan: Vec<Vec<String>> = Vec::new();
    if bridge_exists {
        proof {
            assert(plan.deep_view() =~~= Seq::<Seq<Seq<char>>>::empty());
        }
        return plan;
    }
    let mut add: Vec<String> = Vec::new();
    push_arg(&mut add, "sudo");
    push_arg(&mut add, "ip");
    push_arg(&mut add, "link");
    push_arg(&mut add, "add");
    push_arg(&mut add, "name");
    push_arg(&mut add, "fc-br0");
    push_arg(&mut add, "type");
    push_arg(&mut add, "bridge");
    let mut addr: Vec<String> = Vec::new();
    push_arg(&mut addr, "sudo");
    push_arg(&mut addr, "ip");
    push_arg(&mut addr, "addr");
    push_arg(&mut addr, "add");
    push_arg(&mut addr, "172.16.0.1/24");
    push_arg(&mut addr, "dev");
    push_arg(&mut addr, "fc-br0");
    let mut up: Vec<String> = Vec::new();
    push_arg(&mut up, "sudo");
    push_arg(&mut up, "ip");
    push_arg(&mut up, "link");
    push_arg(&mut up, "set");
    push_arg(&mut up, "dev");
    push_arg(&mut up, "fc-br0");
    push_arg(&mut up, "up");
    proof {
        assert(add.deep_view() =~~= bridge_add_cmd());
        assert(addr.deep_view() =~~= bridge_addr_cmd());
        assert(up.deep_view() =~~= bridge_up_cmd());
    }
    plan.push(add);
    plan.push(addr);
    plan.push(up);
    proof {
        assert(plan.deep_view() =~~= bridge_create_cmds());
    }
    plan
}

/// The tap-attachment commands for index `i`. Each command must succeed;
/// a failure is a `NetworkSetupError` and aborts the enclosing creation
/// before any hypervisor is spawned.
pub fn attach_tap_plan(i: u32) -> (r: Vec<Vec<String>>)
    ensures
        r.deep_view() == attach_tap_cmds(i),
{
    let tap = tap_name(i);
    let mut add: Vec<String> = Vec::new();
    push_arg(&mut add, "sudo");
    push_arg(&mut add, "ip");
    push_arg(&mut add, "tuntap");
    push_arg(&mut add, "add");
    push_arg(&mut add, "dev");
    push_arg(&mut add, tap.as_str());
    push_arg(&mut add, "mode");
    push_arg(&mut add, "tap");
    let mut master: Vec<String> = Vec::new();
    push_arg(&mut master, "sudo");
    push_arg(&mut master, "ip");
    push_arg(&mut master, "link");
    push_arg(&mut master, "set");
    push_arg(&mut master, tap.as_str());
    push_arg(&mut master, "master");
    push_arg(&mut master, "fc-br0");
    let mut up: Vec<String> = Vec::new();
    push_arg(&mut up, "sudo");
    push_arg(&mut up, "ip");
    push_arg(&mut up, "link");
    push_arg(&mut up, "set");
    push_arg(&mut up, tap.as_str());
    push_arg(&mut up, "up");
    proof {
        assert(add.deep_view() =~~= tap_add_cmd(i));
        assert(master.deep_view() =~~= tap_master_cmd(i));
        assert(up.deep_view() =~~= tap_up_cmd(i));
    }
    let mut plan: Vec<Vec<String>> = Vec::new();
    plan.push(add);
    plan.push(master);
    plan.push(up);
    proof {
        assert(plan.deep_view() =~~= attach_tap_cmds(i));
    }
    plan
}

/// The tap-deletion command for index `i`. During a single deletion its
/// failure is a `ShutdownError`; during the bulk shutdown sweep it aborts
/// the sweep.
pub fn detach_tap_argv(i: u32) -> (r: Vec<String>)
    ensures
        r.deep_view() == tap_del_cmd(i),
{
    let tap = tap_name(i);
    let mut v: Vec<String> = Vec::new();
    push_arg(&mut v, "sudo");
    push_arg(&mut v, "ip");
    push_arg(&mut v, "tuntap");
    push_arg(&mut v, "del");
    push_arg(&mut v, "dev");
    push_arg(&mut v, tap.as_str());
    push_arg(&mut v, "mode");
    push_arg(&mut v, "tap");
    proof {
        assert(v.deep_view() =~~= tap_del_cmd(i));
    }
    v
}

/// Law: tap device names are injective in the tap index. Each instance
/// receives a fresh index (its order less two) and orders are never
/// reused, so every instance's tap device is unique for the process
/// lifetime.
pub proof fn lemma_tap_name_injective(i1: u32, i2: u32)
    requires
        i1 != i2,
    ensures
        tap_name_of(i1) != tap_name_of(i2),
{
    if tap_name_of(i1) == tap_name_of(i2) {
        lemma_concat_cancel_left("fc-tap"@, dec_of(i1 as nat), dec_of(i2 as nat));
        lemma_dec_of_injective(i1 as nat, i2 as nat);
    }
}

/// An abstract view of the host network state this component manages:
/// whether the shared bridge device exists. Creation commands are assumed
/// to succeed when the model applies them; failures abort the round.
pub ghost struct NetState {
    pub bridge_exists: bool,
}

/// The effect of running the bridge-creation sequence.
pub open spec fn apply_bridge_create(s: NetState) -> NetState {
    NetState { bridge_exists: true }
}

/// The effect of one ensure-bridge round: probe, then create only when
/// the probe found no bridge — exactly what `bridge_plan` emits.
pub open spec fn apply_ensure_bridge(s: NetState) -> NetState {
    if s.bridge_exists {
        s
    } else {
        apply_bridge_create(s)
    }
}

/// Law: ensure-bridge is idempotent. One round always leaves the single
/// shared bridge in place, and a second round in sequence succeeds while
/// changing nothing — there is never more than the one bridge.
pub proof fn lemma_ensure_bridge_idempotent(s: NetState)
    ensures
        apply_ensure_bridge(s).bridge_exists,
        apply_ensure_bridge(apply_ensure_bridge(s)) == apply_ensure_bridge(s),
{
}

} // verus!
