use firebender::errors::Error;
use firebender::lifecycle::{plan_create, CreateRequest};
use firebender::registry::Registry;

fn request(vcpu: u64, mem: u32, smt: bool, read_only: bool, bandwidth: u64) -> CreateRequest {
    CreateRequest { vcpu_count: vcpu, mem_size_mib: mem, smt_enabled: smt, read_only, bandwidth }
}

fn create_ok(reg: &mut Registry, read_only: bool) -> firebender::registry::Workstation {
    let plan = plan_create(reg, &request(1, 128, false, read_only, 0)).unwrap();
    let record = plan.record;
    let copy = record.clone();
    reg.insert(record);
    copy
}

#[test]
fn counter_starts_at_two() {
    let reg = Registry::new();
    assert_eq!(reg.next_order(), 2);
    assert_eq!(reg.list().len(), 0);
}

#[test]
fn orders_strictly_increase_across_deletions() {
    // Create three, delete the second, create a fourth: its order must
    // exceed every order handed out before; nothing is reused.
    let mut reg = Registry::new();
    let w1 = create_ok(&mut reg, true);
    let w2 = create_ok(&mut reg, true);
    let w3 = create_ok(&mut reg, true);
    assert_eq!(w1.order, 2);
    assert_eq!(w2.order, 3);
    assert_eq!(w3.order, 4);

    let removed = reg.remove(&w2.id);
    assert!(removed.is_some());
    assert_eq!(removed.unwrap().order, 3);

    let w4 = create_ok(&mut reg, true);
    assert_eq!(w4.order, 5);
    assert!(w4.order > w1.order && w4.order > w2.order && w4.order > w3.order);
}

#[test]
fn allocation_run_is_contiguous() {
    // A run of creations receives distinct orders forming a contiguous
    // range with no gaps and no duplicates.
    let mut reg = Registry::new();
    let mut orders = Vec::new();
    for _ in 0..5 {
        orders.push(create_ok(&mut reg, true).order);
    }
    for (k, order) in orders.iter().enumerate() {
        assert_eq!(*order, 2 + k as u32);
    }
    for a in 0..orders.len() {
        for b in 0..orders.len() {
            if a != b {
                assert_ne!(orders[a], orders[b]);
            }
        }
    }
    assert_eq!(reg.next_order(), 7);
}

#[test]
fn get_and_list_reflect_contents() {
    let mut reg = Registry::new();
    let w1 = create_ok(&mut reg, false);
    let w2 = create_ok(&mut reg, true);
    assert_ne!(w1.id, w2.id);

    let found = reg.get(&w1.id).unwrap();
    assert_eq!(found.id, w1.id);
    assert_eq!(found.order, w1.order);
    assert_eq!(found.read_only, false);

    let missing = String::from("no-such-id");
    assert!(reg.get(&missing).is_none());

    let all = reg.list();
    assert_eq!(all.len(), 2);
    assert!(all.iter().any(|w| w.id == w1.id));
    assert!(all.iter().any(|w| w.id == w2.id));
}

#[test]
fn remove_unknown_is_none_and_changes_nothing() {
    let mut reg = Registry::new();
    let w = create_ok(&mut reg, true);
    let missing = String::from("0000-not-registered");
    assert!(reg.remove(&missing).is_none());
    assert_eq!(reg.next_order(), 3);
    let all = reg.list();
    assert_eq!(all.len(), 1);
    assert_eq!(all[0].id, w.id);
}

#[test]
fn find_by_order_matches() {
    let mut reg = Registry::new();
    let w1 = create_ok(&mut reg, true);
    let w2 = create_ok(&mut reg, false);
    let found = reg.find_by_order(w2.order).unwrap();
    assert_eq!(found.id, w2.id);
    assert!(reg.find_by_order(99).is_none());
    let _ = reg.remove(&w1.id);
    assert!(reg.find_by_order(w1.order).is_none());
}

#[test]
fn fresh_identifiers_are_distinct_and_36_chars() {
    let mut reg = Registry::new();
    let w1 = create_ok(&mut reg, true);
    let w2 = create_ok(&mut reg, true);
    assert_eq!(w1.id.len(), 36);
    assert_eq!(w2.id.len(), 36);
    assert_ne!(w1.id, w2.id);
}

#[test]
fn rejection_is_invalid_request_without_allocation() {
    // vcpu_count = 0 or mem_size_mib = 0 always fails with
    // InvalidRequest and performs no allocation at all.
    let mut reg = Registry::new();
    let r = plan_create(&mut reg, &request(0, 128, false, false, 0));
    assert!(matches!(r, Err(Error::InvalidRequest)));
    assert_eq!(reg.next_order(), 2);

    let r = plan_create(&mut reg, &request(1, 0, true, true, 5));
    assert!(matches!(r, Err(Error::InvalidRequest)));
    assert_eq!(reg.next_order(), 2);
    assert_eq!(reg.list().len(), 0);
}
