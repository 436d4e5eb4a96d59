use vstd::prelude::*;
use vstd::view::DeepView;

use crate::errors::Error;
use crate::identity::{
    control_socket_path, fresh_id, ip_of, ip_string, kernel_copy_path, kernel_copy_string,
    rootfs_copy_path, rootfs_copy_string, shared_kernel_path, shared_kernel_string,
    shared_rootfs_path, shared_rootfs_string, socket_path_string,
};
use crate::network::{attach_tap_cmds, attach_tap_plan, detach_tap_argv, push_arg, tap_del_cmd};
use crate::registry::{registered_with_order, Registry, Workstation};
use crate::text::{bool_of, dec_of, push_bool, push_dec};

verus! {

/// A client's creation request.
pub struct CreateRequest {
    pub vcpu_count: u64,
    pub mem_size_mib: u32,
    pub smt_enabled: bool,
    pub read_only: bool,
    pub bandwidth: u64,
}

/// One blocking request/response exchange with an instance's control
/// endpoint.
pub struct ApiRequest {
    pub endpoint: String,
    pub body: String,
}

/// One step of the configuration sequence: copy a shared image to a
/// per-instance path, or issue a control-endpoint request.
pub enum ConfigStep {
    CopyImage { from: String, to: String },
    Request(ApiRequest),
}

/// The machine-shape endpoint.
pub open spec fn machine_config_url() -> Seq<char> {
    "http://localhost/machine-config"@
}

/// The boot-source endpoint.
pub open spec fn boot_source_url() -> Seq<char> {
    "http://localhost/boot-source"@
}

/// The root-drive endpoint.
pub open spec fn drive_url() -> Seq<char> {
    "http://localhost/drives/rootfs"@
}

/// The network-interface endpoint.
pub open spec fn iface_url() -> Seq<char> {
    "http://localhost/network-interfaces/eth0"@
}

/// The actions endpoint (start, graceful power-off).
pub open spec fn actions_url() -> Seq<char> {
    "http://localhost/actions"@
}

/// The machine-shape request body.
pub open spec fn machine_config_body(vcpu: u64, mem: u32, smt: bool) -> Seq<char> {
    "{\"vcpu_count\": "@ + dec_of(vcpu as nat) + ", \"mem_size_mib\": "@ + dec_of(mem as nat)
        + ", \"smt\": "@ + bool_of(smt) + "}"@
}

/// The kernel command line: embeds the instance's address and the
/// bridge's gateway address.
pub open spec fn boot_args_of(ip: Seq<char>) -> Seq<char> {
    "console=ttyS0 reboot=k panic=1 pci=off ip="@ + ip
        + "::172.16.0.1:255.255.255.0::eth0:on i8042.noaux i8042.nomux i8042.nopnp i8042.dumbkbd"@
}

/// The boot-source request body.
pub open spec fn boot_source_body(kernel_path: Seq<char>, ip: Seq<char>) -> Seq<char> {
    "{\"kernel_image_path\": \""@ + kernel_path + "\", \"boot_args\": \""@ + boot_args_of(ip)
        + "\"}"@
}

/// The root-drive request body.
pub open spec fn drive_body(rootfs_path: Seq<char>, read_only: bool) -> Seq<char> {
    "{\"drive_id\": \"rootfs\", \"path_on_host\": \""@ + rootfs_path
        + "\", \"is_root_device\": true, \"is_read_only\": "@ + bool_of(read_only) + "}"@
}

/// The network-interface request body: the instance's tap device, with a
/// symmetric token-bucket rate limit when a bandwidth cap is requested
/// (Mbit/s converted to bytes over a one-second refill window).
pub open spec fn iface_body(tap_index: u32, bandwidth: u64) -> Seq<char> {
    if bandwidth == 0 {
        "{\"iface_id\": \"eth0\", \"host_dev_name\": \"fc-tap"@ + dec_of(tap_index as nat) + "\"}"@
    } else {
        "{\"iface_id\": \"eth0\", \"host_dev_name\": \"fc-tap"@ + dec_of(tap_index as nat)
            + "\", \"tx_rate_limiter\": {\"bandwidth\": {\"size\": "@ + dec_of(
            (bandwidth * 125000) as nat,
        ) + ", \"refill_time\": 1000}}, \"rx_rate_limiter\": {\"bandwidth\": {\"size\": "@
            + dec_of((bandwidth * 125000) as nat) + ", \"refill_time\": 1000}}}"@
    }
}

/// The start action body.
pub open spec fn start_body() -> Seq<char> {
    "{\"action_type\": \"InstanceStart\"}"@
}

/// The graceful power-off action body.
pub open spec fn ctrl_alt_del_body() -> Seq<char> {
    "{\"action_type\": \"SendCtrlAltDel\"}"@
}

/// The hypervisor command line for the instance with identifier `id`.
pub open spec fn spawn_cmd(id: Seq<char>) -> Seq<Seq<char>> {
    seq!["firecracker"@, "--api-sock"@, control_socket_path(id)]
}

/// The largest bandwidth cap whose byte conversion fits in 64 bits.
pub open spec fn max_bandwidth() -> u64 {
    u64::MAX / 125000
}

/// The largest accepted bandwidth cap, for callers to test before
/// building a plan.
pub fn max_bandwidth_cap() -> (r: u64)
    ensures
        r == max_bandwidth(),
{
    u64::MAX / 125000
}

/// Renders the machine-shape request body.
pub fn machine_body_string(vcpu: u64, mem: u32, smt: bool) -> (r: String)
    ensures
        r@ == machine_config_body(vcpu, mem, smt),
{
    let mut s = String::from_str("{\"vcpu_count\": ");
    push_dec(&mut s, vcpu);
    s.append(", \"mem_size_mib\": ");
    push_dec(&mut s, mem as u64);
    s.append(", \"smt\": ");
    push_bool(&mut s, smt);
    s.append("}");
    proof {
        assert(s@ =~= machine_config_body(vcpu, mem, smt));
    }
    s
}

/// Renders the kernel command line for the given instance address.
pub fn boot_args_string(ip: &String) -> (r: String)
    ensures
        r@ == boot_args_of(ip@),
{
    let mut s = String::from_str("console=ttyS0 reboot=k panic=1 pci=off ip=");
    s.append(ip.as_str());
    s.append(
        "::172.16.0.1:255.255.255.0::eth0:on i8042.noaux i8042.nomux i8042.nopnp i8042.dumbkbd",
    );
    s
}

/// Renders the boot-source request body.
pub fn boot_source_body_string(kernel_path: &String, ip: &String) -> (r: String)
    ensures
        r@ == boot_source_body(kernel_path@, ip@),
{
    let args = boot_args_string(ip);
    let mut s = String::from_str("{\"kernel_image_path\": \"");
    s.append(kernel_path.as_str());
    s.append("\", \"boot_args\": \"");
    s.append(args.as_str());
    s.append("\"}");
    proof {
        assert(s@ =~= boot_source_body(kernel_path@, ip@));
    }
    s
}

/// Renders the root-drive request body.
pub fn drive_body_string(rootfs_path: &String, read_only: bool) -> (r: String)
    ensures
        r@ == drive_body(rootfs_path@, read_only),
{
    let mut s = String::from_str("{\"drive_id\": \"rootfs\", \"path_on_host\": \"");
    s.append(rootfs_path.as_str());
    s.append("\", \"is_root_device\": true, \"is_read_only\": ");
    push_bool(&mut s, read_only);
    s.append("}");
    proof {
        assert(s@ =~= drive_body(rootfs_path@, read_only));
    }
    s
}

/// Renders the network-interface request body.
pub fn iface_body_string(tap_index: u32, bandwidth: u64) -> (r: String)
    requires
        bandwidth <= max_bandwidth(),
    ensures
        r@ == iface_body(tap_index, bandwidth),
{
    if bandwidth == 0 {
        let mut s = String::from_str("{\"iface_id\": \"eth0\", \"host_dev_name\": \"fc-tap");
        push_dec(&mut s, tap_index as u64);
        s.append("\"}");
        proof {
            assert(s@ =~= iface_body(tap_index, bandwidth));
        }
        s
    } else {
        proof {
            assert(bandwidth * 125000 <= (u64::MAX / 125000) * 125000 <= u64::MAX)
                by (nonlinear_arith)
                requires
                    bandwidth <= u64::MAX / 125000,
            ;
        }
        let bps: u64 = bandwidth * 125000;
        let mut s = String::from_str("{\"iface_id\": \"eth0\", \"host_dev_name\": \"fc-tap");
        push_dec(&mut s, tap_index as u64);
        s.append("\", \"tx_rate_limiter\": {\"bandwidth\": {\"size\": ");
        push_dec(&mut s, bps);
        s.append(", \"refill_time\": 1000}}, \"rx_rate_limiter\": {\"bandwidth\": {\"size\": ");
        push_dec(&mut s, bps);
        s.append(", \"refill_time\": 1000}}}");
        proof {
            assert(s@ =~= iface_body(tap_index, bandwidth));
        }
        s
    }
}

/// Whether `s` is the control-endpoint request with the given URL and body.
pub open spec fn request_ok(s: ConfigStep, url: Seq<char>, body: Seq<char>) -> bool {
    s matches ConfigStep::Request(r) && r.endpoint@ == url && r.body@ == body
}

/// Whether `s` copies the image at `from` to `to`.
pub open spec fn copy_ok(s: ConfigStep, from: Seq<char>, to: Seq<char>) -> bool {
    s matches ConfigStep::CopyImage { from: f, to: t } && f@ == from && t@ == to
}

/// The exact configuration sequence for the record `w`, in the strict
/// order the control endpoint requires: machine shape, boot source, root
/// filesystem, network interface, start. A read-only instance boots the
/// shared images directly; a writable one boots per-instance copies made
/// just before the step that references them.
pub open spec fn config_sequence_ok(steps: Seq<ConfigStep>, w: Workstation) -> bool {
    if w.read_only {
        &&& steps.len() == 5
        &&& request_ok(
            steps[0],
            machine_config_url(),
            machine_config_body(w.vcpu_count, w.mem_size_mib, w.smt_enabled),
        )
        &&& request_ok(
            steps[1],
            boot_source_url(),
            boot_source_body(shared_kernel_path(), w.ip_address@),
        )
        &&& request_ok(steps[2], drive_url(), drive_body(shared_rootfs_path(), true))
        &&& request_ok(steps[3], iface_url(), iface_body((w.order - 2) as u32, w.bandwidth))
        &&& request_ok(steps[4], actions_url(), start_body())
    } else {
        &&& steps.len() == 7
        &&& request_ok(
            steps[0],
            machine_config_url(),
            machine_config_body(w.vcpu_count, w.mem_size_mib, w.smt_enabled),
        )
        &&& copy_ok(steps[1], shared_kernel_path(), kernel_copy_path(w.id@))
        &&& request_ok(
            steps[2],
            boot_source_url(),
            boot_source_body(kernel_copy_path(w.id@), w.ip_address@),
        )
        &&& copy_ok(steps[3], shared_rootfs_path(), rootfs_copy_path(w.id@))
        &&& request_ok(steps[4], drive_url(), drive_body(rootfs_copy_path(w.id@), false))
        &&& request_ok(steps[5], iface_url(), iface_body((w.order - 2) as u32, w.bandwidth))
        &&& request_ok(steps[6], actions_url(), start_body())
    }
}

/// Builds the configuration sequence for `w`.
fn config_steps_for(w: &Workstation) -> (r: Vec<ConfigStep>)
    requires
        w.wf(),
        w.bandwidth <= max_bandwidth(),
    ensures
        config_sequence_ok(r@, *w),
{
    let mut steps: Vec<ConfigStep> = Vec::new();
    steps.push(
        ConfigStep::Request(
            ApiRequest {
                endpoint: String::from_str("http://localhost/machine-config"),
                body: machine_body_string(w.vcpu_count, w.mem_size_mib, w.smt_enabled),
            },
        ),
    );
    let kernel_path: String;
    if w.read_only {
        kernel_path = shared_kernel_string();
    } else {
        kernel_path = kernel_copy_string(&w.id);
        steps.push(
            ConfigStep::CopyImage { from: shared_kernel_string(), to: kernel_copy_string(&w.id) },
        );
    }
    steps.push(
        ConfigStep::Request(
            ApiRequest {
                endpoint: String::from_str("http://localhost/boot-source"),
                body: boot_source_body_string(&kernel_path, &w.ip_address),
            },
        ),
    );
    let rootfs_path: String;
    if w.read_only {
        rootfs_path = shared_rootfs_string();
    } else {
        rootfs_path = rootfs_copy_string(&w.id);
        steps.push(
            ConfigStep::CopyImage { from: shared_rootfs_string(), to: rootfs_copy_string(&w.id) },
        );
    }
    steps.push(
        ConfigStep::Request(
            ApiRequest {
                endpoint: String::from_str("http://localhost/drives/rootfs"),
                body: drive_body_string(&rootfs_path, w.read_only),
            },
        ),
    );
    steps.push(
        ConfigStep::Request(
            ApiRequest {
                endpoint: String::from_str("http://localhost/network-interfaces/eth0"),
                body: iface_body_string(w.order - 2, w.bandwidth),
            },
        ),
    );
    steps.push(
        ConfigStep::Request(
            ApiRequest {
                endpoint: String::from_str("http://localhost/actions"),
                body: String::from_str("{\"action_type\": \"InstanceStart\"}"),
            },
        ),
    );
    steps
}

/// Everything the unverified shell must do, in order, to realize one
/// creation, and the record to register on full success. The order and
/// the fatal-versus-logged classification of each phase are part of the
/// contract of [`plan_create`].
pub struct CreatePlan {
    /// The record to insert into the registry once every step succeeded,
    /// and to return to the client.
    pub record: Workstation,
    /// The tap index derived from the record's order.
    pub tap_index: u32,
    /// Tap attachment commands, run in order; on the first failure stop
    /// and report `network_failure` — the hypervisor must not be spawned.
    pub network_cmds: Vec<Vec<String>>,
    /// The error a failed network command maps to.
    pub network_failure: Error,
    /// The control socket: any stale file at this path is removed first,
    /// then the hypervisor is spawned bound to it. A detached supervisor
    /// waits on the subprocess and removes the file after exit.
    pub socket_path: String,
    /// The hypervisor command line.
    pub spawn_argv: Vec<String>,
    /// The error a failed spawn maps to.
    pub spawn_failure: Error,
    /// Fixed settling delay, in milliseconds, between spawning and
    /// configuring, letting the control endpoint become ready.
    pub settle_millis: u64,
    /// The configuration sequence, strictly in order; on the first
    /// failure stop and report `config_failure`. No rollback: the
    /// partially configured instance stays until explicitly deleted.
    pub config_steps: Vec<ConfigStep>,
    /// The error a failed configuration step maps to.
    pub config_failure: Error,
}

/// Validates a creation request, allocates the instance's identity, and
/// lays out the full creation sequence. Rejection happens before
/// allocation: an invalid request leaves the registry (counter included)
/// untouched. A valid request always yields a plan; the allocated order
/// is not reclaimed if a later step of the plan fails.
pub fn plan_create(reg: &mut Registry, req: &CreateRequest) -> (r: Result<CreatePlan, Error>)
    requires
        old(reg).wf(),
        old(reg)@.counter < u32::MAX,
        req.bandwidth <= max_bandwidth(),
    ensures
        final(reg).wf(),
        (req.vcpu_count == 0 || req.mem_size_mib == 0) ==> r == Err::<CreatePlan, Error>(
            Error::InvalidRequest,
        ) && *final(reg) == *old(reg),
        (req.vcpu_count > 0 && req.mem_size_mib > 0) ==> (r matches Ok(plan) && {
            &&& final(reg)@.counter == old(reg)@.counter + 1
            &&& final(reg)@.map == old(reg)@.map
            &&& plan.record.wf()
            &&& plan.record.order == old(reg)@.counter
            &&& plan.record.vcpu_count == req.vcpu_count
            &&& plan.record.mem_size_mib == req.mem_size_mib
            &&& plan.record.smt_enabled == req.smt_enabled
            &&& plan.record.read_only == req.read_only
            &&& plan.record.bandwidth == req.bandwidth
            &&& plan.record.id@.len() == 36
            &&& plan.record.ip_address@ == ip_of(plan.record.order)
            &&& plan.tap_index == plan.record.order - 2
            &&& plan.network_cmds.deep_view() == attach_tap_cmds(plan.tap_index)
            &&& plan.network_failure == Error::NetworkSetupError
            &&& plan.socket_path@ == control_socket_path(plan.record.id@)
            &&& plan.spawn_argv.deep_view() == spawn_cmd(plan.record.id@)
            &&& plan.spawn_failure == Error::ProcessSpawnError
            &&& plan.settle_millis == 50
            &&& config_sequence_ok(plan.config_steps@, plan.record)
            &&& plan.config_failure == Error::ConfigurationError
        }),
{
    if req.vcpu_count == 0 || req.mem_size_mib == 0 {
        return Err(Error::InvalidRequest);
    }
    let order = reg.allocate_order();
    let tap_index = order - 2;
    let record = Workstation {
        id: fresh_id(),
        ip_address: ip_string(order),
        order,
        vcpu_count: req.vcpu_count,
        mem_size_mib: req.mem_size_mib,
        smt_enabled: req.smt_enabled,
        read_only: req.read_only,
        bandwidth: req.bandwidth,
    };
    let network_cmds = attach_tap_plan(tap_index);
    let socket_path = socket_path_string(&record.id);
    let mut spawn_argv: Vec<String> = Vec::new();
    push_arg(&mut spawn_argv, "firecracker");
    push_arg(&mut spawn_argv, "--api-sock");
    push_arg(&mut spawn_argv, socket_path.as_str());
    proof {
        assert(spawn_argv.deep_view() =~~= spawn_cmd(record.id@));
    }
    let config_steps = config_steps_for(&record);
    Ok(
        CreatePlan {
            record,
            tap_index,
            network_cmds,
            network_failure: Error::NetworkSetupError,
            socket_path,
            spawn_argv,
            spawn_failure: Error::ProcessSpawnError,
            settle_millis: 50,
            config_steps,
            config_failure: Error::ConfigurationError,
        },
    )
}

/// Whether `paths` is exactly the per-instance image-copy removal list
/// for `w`: nothing for a read-only instance (it owns no copies — the
/// shared images are never removed), else its own kernel and root
/// filesystem copies, each exactly once.
pub open spec fn removals_ok(paths: Seq<String>, w: Workstation) -> bool {
    if w.read_only {
        paths.len() == 0
    } else {
        &&& paths.len() == 2
        &&& paths[0]@ == kernel_copy_path(w.id@)
        &&& paths[1]@ == rootfs_copy_path(w.id@)
    }
}

/// Builds the image-removal list for `w`.
fn removal_paths(w: &Workstation) -> (r: Vec<String>)
    ensures
        removals_ok(r@, *w),
{
    let mut r: Vec<String> = Vec::new();
    if !w.read_only {
        r.push(kernel_copy_string(&w.id));
        r.push(rootfs_copy_string(&w.id));
    }
    r
}

/// Everything the unverified shell must do to tear one instance down
/// after its record has been removed from the registry.
pub struct DeletePlan {
    /// The removed record.
    pub record: Workstation,
    /// The instance's control socket path.
    pub socket_path: String,
    /// The graceful power-off exchange. It is attempted first; a failure
    /// is `shutdown_failure` only when the socket file still exists — a
    /// missing socket means the instance already stopped, not an error.
    pub poweroff: ApiRequest,
    /// The error a failed power-off or tap detachment maps to.
    pub shutdown_failure: Error,
    /// Per-instance image copies to delete, best effort: failures are
    /// logged and never escalated. Empty for a read-only instance.
    pub image_removals: Vec<String>,
    /// Fixed grace period, in seconds, for the subprocess to exit before
    /// network resources are reclaimed.
    pub grace_seconds: u64,
    /// The tap detachment command; its failure is `shutdown_failure`
    /// (a leftover tap is a bridge-namespace hazard the caller must know
    /// about).
    pub detach_cmd: Vec<String>,
}

/// Removes the record with identifier `id` from the registry and lays
/// out its teardown. An unknown identifier is `NotFound` and changes
/// nothing; concurrent deletions of the same identifier are serialized
/// by the registry's atomic remove, so exactly one caller obtains the
/// plan.
pub fn plan_delete(reg: &mut Registry, id: &String) -> (r: Result<DeletePlan, Error>)
    requires
        old(reg).wf(),
    ensures
        final(reg).wf(),
        !old(reg)@.map.contains_key(id@) ==> r == Err::<DeletePlan, Error>(Error::NotFound)
            && *final(reg) == *old(reg),
        old(reg)@.map.contains_key(id@) ==> (r matches Ok(plan) && {
            let w = old(reg)@.map[id@];
            &&& final(reg)@.map == old(reg)@.map.remove(id@)
            &&& final(reg)@.counter == old(reg)@.counter
            &&& plan.record == w
            &&& plan.record.wf()
            &&& plan.socket_path@ == control_socket_path(w.id@)
            &&& plan.poweroff.endpoint@ == actions_url()
            &&& plan.poweroff.body@ == ctrl_alt_del_body()
            &&& plan.shutdown_failure == Error::ShutdownError
            &&& removals_ok(plan.image_removals@, w)
            &&& plan.grace_seconds == 5
            &&& plan.detach_cmd.deep_view() == tap_del_cmd((w.order - 2) as u32)
        }),
{
    match reg.remove(id) {
        None => Err(Error::NotFound),
        Some(w) => {
            let socket_path = socket_path_string(&w.id);
            let poweroff = ApiRequest {
                endpoint: String::from_str("http://localhost/actions"),
                body: String::from_str("{\"action_type\": \"SendCtrlAltDel\"}"),
            };
            let image_removals = removal_paths(&w);
            let detach_cmd = detach_tap_argv(w.order - 2);
            Ok(
                DeletePlan {
                    record: w,
                    socket_path,
                    poweroff,
                    shutdown_failure: Error::ShutdownError,
                    image_removals,
                    grace_seconds: 5,
                    detach_cmd,
                },
            )
        },
    }
}

/// Whether `paths` is the right image-removal list for whatever record
/// (if any) is registered under allocation order `order`.
pub open spec fn cleanup_removals_ok(
    paths: Seq<String>,
    m: Map<Seq<char>, Workstation>,
    order: u32,
) -> bool {
    if registered_with_order(m, order) {
        exists|k: Seq<char>|
            #[trigger] m.contains_key(k) && m[k].order == order && removals_ok(paths, m[k])
    } else {
        paths.len() == 0
    }
}

/// One step of the shutdown sweep.
pub struct CleanupStep {
    /// The tap index this step reclaims.
    pub tap_index: u32,
    /// The tap deletion command. A failure aborts the whole sweep and is
    /// reported to the caller; the sweep re-attempts every allocated
    /// index, so already-detached taps may fail here harmlessly.
    pub detach_cmd: Vec<String>,
    /// Image copies of a still-registered writable instance with this
    /// step's order, to delete best-effort (failures logged and skipped).
    pub image_removals: Vec<String>,
}

/// Lays out the shutdown sweep: one step per allocated order, from 2 up
/// to (excluding) the current counter, whether or not that instance was
/// already deleted individually.
pub fn plan_cleanup(reg: &Registry) -> (r: Vec<CleanupStep>)
    requires
        reg.wf(),
    ensures
        r@.len() == reg@.counter - 2,
        forall|k: int|
            0 <= k < r@.len() ==> {
                let step = #[trigger] r@[k];
                &&& step.tap_index == k
                &&& step.detach_cmd.deep_view() == tap_del_cmd(k as u32)
                &&& cleanup_removals_ok(step.image_removals@, reg@.map, (k + 2) as u32)
            },
{
    let total = reg.next_order();
    let mut r: Vec<CleanupStep> = Vec::new();
    let mut i: u32 = 2;
    proof {
        reg.lemma_orders_below_counter();
    }
    while i < total
        invariant
            2 <= i <= total,
            total == reg@.counter,
            reg.wf(),
            r@.len() == i - 2,
            forall|k: int|
                0 <= k < r@.len() ==> {
                    let step = #[trigger] r@[k];
                    &&& step.tap_index == k
                    &&& step.detach_cmd.deep_view() == tap_del_cmd(k as u32)
                    &&& cleanup_removals_ok(step.image_removals@, reg@.map, (k + 2) as u32)
                },
        decreases total - i,
    {
        let detach_cmd = detach_tap_argv(i - 2);
        let image_removals = match reg.find_by_order(i) {
            Some(w) => removal_paths(w),
            None => Vec::new(),
        };
        let step = CleanupStep { tap_index: i - 2, detach_cmd, image_removals };
        proof {
            assert(cleanup_removals_ok(step.image_removals@, reg@.map, i));
        }
        r.push(step);
        i = i + 1;
    }
    r
}

} // verus!
