use firebender::errors::Error;
use firebender::lifecycle::{
    boot_args_string, drive_body_string, iface_body_string, machine_body_string, plan_cleanup,
    plan_create, plan_delete, ConfigStep, CreateRequest,
};
use firebender::registry::Registry;

fn request(vcpu: u64, mem: u32, smt: bool, read_only: bool, bandwidth: u64) -> CreateRequest {
    CreateRequest { vcpu_count: vcpu, mem_size_mib: mem, smt_enabled: smt, read_only, bandwidth }
}

#[test]
fn identity_is_a_pure_function_of_order() {
    // ip = 172.16.0.<order> and tap_index = order - 2, for every
    // created instance.
    let mut reg = Registry::new();
    for _ in 0..4 {
        let plan = plan_create(&mut reg, &request(1, 64, false, true, 0)).unwrap();
        assert_eq!(
            plan.record.ip_address,
            format!("172.16.0.{}", plan.record.order)
        );
        assert_eq!(plan.tap_index, plan.record.order - 2);
        reg.insert(plan.record);
    }
}

#[test]
fn create_plan_lays_out_the_full_sequence() {
    let mut reg = Registry::new();
    let plan = plan_create(&mut reg, &request(2, 512, true, false, 4)).unwrap();
    let id = plan.record.id.clone();

    assert_eq!(plan.record.order, 2);
    assert_eq!(plan.record.ip_address, "172.16.0.2");
    assert_eq!(plan.tap_index, 0);

    // Tap attachment, in order, each fatal as a network-setup failure.
    assert_eq!(plan.network_failure, Error::NetworkSetupError);
    let cmds: Vec<Vec<&str>> = plan
        .network_cmds
        .iter()
        .map(|c| c.iter().map(|a| a.as_str()).collect())
        .collect();
    assert_eq!(
        cmds,
        vec![
            vec!["sudo", "ip", "tuntap", "add", "dev", "fc-tap0", "mode", "tap"],
            vec!["sudo", "ip", "link", "set", "fc-tap0", "master", "fc-br0"],
            vec!["sudo", "ip", "link", "set", "fc-tap0", "up"],
        ]
    );

    // Hypervisor spawn on the instance's private control socket.
    assert_eq!(plan.spawn_failure, Error::ProcessSpawnError);
    assert_eq!(plan.socket_path, format!("/tmp/firecracker-{}.socket", id));
    let spawn: Vec<&str> = plan.spawn_argv.iter().map(|a| a.as_str()).collect();
    assert_eq!(spawn, vec!["firecracker", "--api-sock", plan.socket_path.as_str()]);
    assert_eq!(plan.settle_millis, 50);

    // Configuration, strictly ordered; a writable instance copies both
    // shared images before the steps that reference the copies.
    assert_eq!(plan.config_failure, Error::ConfigurationError);
    assert_eq!(plan.config_steps.len(), 7);
    match &plan.config_steps[0] {
        ConfigStep::Request(r) => {
            assert_eq!(r.endpoint, "http://localhost/machine-config");
            assert_eq!(r.body, "{\"vcpu_count\": 2, \"mem_size_mib\": 512, \"smt\": true}");
        }
        _ => panic!("expected a request"),
    }
    match &plan.config_steps[1] {
        ConfigStep::CopyImage { from, to } => {
            assert_eq!(from, "/root/projects/firecrack-project/kernel.bin");
            assert_eq!(to, &format!("/root/projects/firecrack-project/kernel-{}.bin", id));
        }
        _ => panic!("expected a copy"),
    }
    match &plan.config_steps[2] {
        ConfigStep::Request(r) => {
            assert_eq!(r.endpoint, "http://localhost/boot-source");
            assert_eq!(
                r.body,
                format!(
                    "{{\"kernel_image_path\": \"/root/projects/firecrack-project/kernel-{}.bin\", \"boot_args\": \"console=ttyS0 reboot=k panic=1 pci=off ip=172.16.0.2::172.16.0.1:255.255.255.0::eth0:on i8042.noaux i8042.nomux i8042.nopnp i8042.dumbkbd\"}}",
                    id
                )
            );
        }
        _ => panic!("expected a request"),
    }
    match &plan.config_steps[3] {
        ConfigStep::CopyImage { from, to } => {
            assert_eq!(from, "/root/projects/firecrack-project/rootfs.ext4");
            assert_eq!(to, &format!("/root/projects/firecrack-project/rootfs-{}.ext4", id));
        }
        _ => panic!("expected a copy"),
    }
    match &plan.config_steps[4] {
        ConfigStep::Request(r) => {
            assert_eq!(r.endpoint, "http://localhost/drives/rootfs");
            assert_eq!(
                r.body,
                format!(
                    "{{\"drive_id\": \"rootfs\", \"path_on_host\": \"/root/projects/firecrack-project/rootfs-{}.ext4\", \"is_root_device\": true, \"is_read_only\": false}}",
                    id
                )
            );
        }
        _ => panic!("expected a request"),
    }
    match &plan.config_steps[5] {
        ConfigStep::Request(r) => {
            assert_eq!(r.endpoint, "http://localhost/network-interfaces/eth0");
            assert_eq!(
                r.body,
                "{\"iface_id\": \"eth0\", \"host_dev_name\": \"fc-tap0\", \"tx_rate_limiter\": {\"bandwidth\": {\"size\": 500000, \"refill_time\": 1000}}, \"rx_rate_limiter\": {\"bandwidth\": {\"size\": 500000, \"refill_time\": 1000}}}"
            );
        }
        _ => panic!("expected a request"),
    }
    match &plan.config_steps[6] {
        ConfigStep::Request(r) => {
            assert_eq!(r.endpoint, "http://localhost/actions");
            assert_eq!(r.body, "{\"action_type\": \"InstanceStart\"}");
        }
        _ => panic!("expected a request"),
    }
}

#[test]
fn read_only_creation_boots_shared_images_directly() {
    let mut reg = Registry::new();
    let plan = plan_create(&mut reg, &request(1, 256, false, true, 0)).unwrap();
    assert_eq!(plan.config_steps.len(), 5);
    for step in &plan.config_steps {
        assert!(matches!(step, ConfigStep::Request(_)));
    }
    match &plan.config_steps[1] {
        ConfigStep::Request(r) => {
            assert!(r.body.contains("/root/projects/firecrack-project/kernel.bin"));
        }
        _ => panic!("expected a request"),
    }
    match &plan.config_steps[2] {
        ConfigStep::Request(r) => {
            assert!(r.body.contains("/root/projects/firecrack-project/rootfs.ext4"));
            assert!(r.body.contains("\"is_read_only\": true"));
        }
        _ => panic!("expected a request"),
    }
}

#[test]
fn delete_unknown_yields_not_found_and_no_mutation() {
    // Deletion of an unknown identifier always yields NotFound and
    // never mutates the registry (and produces no teardown plan, so no
    // network state is touched either).
    let mut reg = Registry::new();
    let plan = plan_create(&mut reg, &request(1, 64, false, true, 0)).unwrap();
    let known = plan.record.id.clone();
    reg.insert(plan.record);

    let unknown = String::from("not-a-registered-identifier");
    let r = plan_delete(&mut reg, &unknown);
    assert!(matches!(r, Err(Error::NotFound)));
    assert_eq!(reg.next_order(), 3);
    let all = reg.list();
    assert_eq!(all.len(), 1);
    assert_eq!(all[0].id, known);
}

#[test]
fn delete_read_only_never_touches_shared_images() {
    // Deleting a read-only instance attempts no image removal at all.
    let mut reg = Registry::new();
    let plan = plan_create(&mut reg, &request(1, 64, false, true, 0)).unwrap();
    let id = plan.record.id.clone();
    reg.insert(plan.record);

    let del = plan_delete(&mut reg, &id).unwrap();
    assert!(del.image_removals.is_empty());
    assert_eq!(del.grace_seconds, 5);
    assert_eq!(del.shutdown_failure, Error::ShutdownError);
}

#[test]
fn delete_writable_removes_its_own_copies_exactly_once() {
    // Deleting a writable instance removes exactly its two per-instance
    // copies, never the shared images.
    let mut reg = Registry::new();
    let plan = plan_create(&mut reg, &request(1, 64, false, false, 0)).unwrap();
    let id = plan.record.id.clone();
    reg.insert(plan.record);

    let del = plan_delete(&mut reg, &id).unwrap();
    assert_eq!(del.image_removals.len(), 2);
    let kernel = format!("/root/projects/firecrack-project/kernel-{}.bin", id);
    let rootfs = format!("/root/projects/firecrack-project/rootfs-{}.ext4", id);
    assert_eq!(del.image_removals[0], kernel);
    assert_eq!(del.image_removals[1], rootfs);
    assert_ne!(del.image_removals[0], "/root/projects/firecrack-project/kernel.bin");
    assert_ne!(del.image_removals[1], "/root/projects/firecrack-project/rootfs.ext4");
    assert_ne!(del.image_removals[0], del.image_removals[1]);

    // Power-off and tap teardown are laid out too.
    assert_eq!(del.socket_path, format!("/tmp/firecracker-{}.socket", id));
    assert_eq!(del.poweroff.endpoint, "http://localhost/actions");
    assert_eq!(del.poweroff.body, "{\"action_type\": \"SendCtrlAltDel\"}");
    let detach: Vec<&str> = del.detach_cmd.iter().map(|a| a.as_str()).collect();
    assert_eq!(detach, vec!["sudo", "ip", "tuntap", "del", "dev", "fc-tap0", "mode", "tap"]);
}

#[test]
fn cleanup_sweeps_every_allocated_order() {
    let mut reg = Registry::new();
    let p1 = plan_create(&mut reg, &request(1, 64, false, true, 0)).unwrap();
    let id1 = p1.record.id.clone();
    reg.insert(p1.record);
    let p2 = plan_create(&mut reg, &request(1, 64, false, false, 0)).unwrap();
    let id2 = p2.record.id.clone();
    reg.insert(p2.record);
    // Delete the first individually; the sweep still re-attempts its tap.
    let _ = plan_delete(&mut reg, &id1).unwrap();

    let sweep = plan_cleanup(&reg);
    assert_eq!(sweep.len(), 2);
    assert_eq!(sweep[0].tap_index, 0);
    assert_eq!(sweep[1].tap_index, 1);
    let detach0: Vec<&str> = sweep[0].detach_cmd.iter().map(|a| a.as_str()).collect();
    assert_eq!(detach0, vec!["sudo", "ip", "tuntap", "del", "dev", "fc-tap0", "mode", "tap"]);
    // Order 2 is no longer registered: nothing to remove.
    assert!(sweep[0].image_removals.is_empty());
    // Order 3 is registered and writable: its two copies.
    assert_eq!(sweep[1].image_removals.len(), 2);
    assert_eq!(
        sweep[1].image_removals[0],
        format!("/root/projects/firecrack-project/kernel-{}.bin", id2)
    );
    assert_eq!(
        sweep[1].image_removals[1],
        format!("/root/projects/firecrack-project/rootfs-{}.ext4", id2)
    );
}

#[test]
fn end_to_end_create_list_delete() {
    // Create {vcpu 2, mem 512, smt false, read_only true, bandwidth 0}:
    // IP 172.16.0.2, order 2; the listing then holds exactly that
    // record; delete it; the listing is empty again.
    let mut reg = Registry::new();
    let plan = plan_create(&mut reg, &request(2, 512, false, true, 0)).unwrap();
    assert_eq!(plan.record.order, 2);
    assert_eq!(plan.record.ip_address, "172.16.0.2");
    assert_eq!(plan.record.vcpu_count, 2);
    assert_eq!(plan.record.mem_size_mib, 512);
    assert!(!plan.record.smt_enabled);
    assert!(plan.record.read_only);
    assert_eq!(plan.record.bandwidth, 0);
    let id = plan.record.id.clone();
    reg.insert(plan.record);

    let all = reg.list();
    assert_eq!(all.len(), 1);
    assert_eq!(all[0].id, id);
    assert_eq!(all[0].ip_address, "172.16.0.2");
    assert_eq!(all[0].order, 2);

    let del = plan_delete(&mut reg, &id);
    assert!(del.is_ok());
    assert_eq!(reg.list().len(), 0);
}

#[test]
fn rendered_bodies_match_the_protocol() {
    assert_eq!(
        machine_body_string(1, 1, true),
        "{\"vcpu_count\": 1, \"mem_size_mib\": 1, \"smt\": true}"
    );
    assert_eq!(
        boot_args_string(&String::from("172.16.0.9")),
        "console=ttyS0 reboot=k panic=1 pci=off ip=172.16.0.9::172.16.0.1:255.255.255.0::eth0:on i8042.noaux i8042.nomux i8042.nopnp i8042.dumbkbd"
    );
    assert_eq!(
        drive_body_string(&String::from("/root/projects/firecrack-project/rootfs.ext4"), true),
        "{\"drive_id\": \"rootfs\", \"path_on_host\": \"/root/projects/firecrack-project/rootfs.ext4\", \"is_root_device\": true, \"is_read_only\": true}"
    );
    // No rate limiter without a bandwidth cap; 8 Mbit/s is 1000000
    // bytes per one-second refill window.
    assert_eq!(
        iface_body_string(3, 0),
        "{\"iface_id\": \"eth0\", \"host_dev_name\": \"fc-tap3\"}"
    );
    assert_eq!(
        iface_body_string(3, 8),
        "{\"iface_id\": \"eth0\", \"host_dev_name\": \"fc-tap3\", \"tx_rate_limiter\": {\"bandwidth\": {\"size\": 1000000, \"refill_time\": 1000}}, \"rx_rate_limiter\": {\"bandwidth\": {\"size\": 1000000, \"refill_time\": 1000}}}"
    );
}

#[test]
fn error_messages_are_fixed() {
    assert_eq!(
        Error::InvalidRequest.message(),
        "Invalid vCPU or Memory values. vCPU must be > 0 and Memory must be > 0."
    );
    assert_eq!(Error::NotFound.message(), "Workstation not found");
    assert_eq!(Error::NetworkSetupError.message(), "Network setup command failed");
    assert_eq!(Error::ProcessSpawnError.message(), "Failed to spawn hypervisor process");
    assert_eq!(Error::ConfigurationError.message(), "Failed to configure the instance");
    assert_eq!(Error::ShutdownError.message(), "Failed to shut down the instance");
}
