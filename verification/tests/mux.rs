use board_core::mux::Cancelled;
use board_core::mux::Mux;
use board_core::mux::MuxError;
use board_core::mux::Request;
use board_core::mux::Submitted;

fn mux_with_devices(capacity: usize, clients: &[usize]) -> (Mux, Vec<usize>) {
    let mut mux = Mux::new(capacity);
    let mut devices = Vec::new();
    for client in clients {
        let d = mux.register();
        mux.set_client(d, *client);
        devices.push(d);
    }
    (mux, devices)
}

#[test]
fn mux_capacity_two_takes_two_rejects_third() {
    // Capacity N = 2: of N + 1 = 3 submissions, exactly one capacity error.
    let (mut mux, d) = mux_with_devices(2, &[100, 200, 300]);
    assert_eq!(mux.submit(d[0], 10), Ok(Submitted::Started));
    assert_eq!(mux.submit(d[1], 20), Ok(Submitted::Queued));
    assert_eq!(mux.submit(d[2], 30), Err(MuxError::CapacityExceeded));
    assert_eq!(mux.in_flight(), 2);
}

#[test]
fn mux_completions_follow_submission_order() {
    let (mut mux, d) = mux_with_devices(3, &[100, 200, 300]);
    assert_eq!(mux.submit(d[0], 10), Ok(Submitted::Started));
    assert_eq!(mux.submit(d[1], 20), Ok(Submitted::Queued));
    assert_eq!(mux.submit(d[2], 30), Ok(Submitted::Queued));

    let mut order = Vec::new();
    while !mux.is_idle() {
        let (delivery, _next) = mux.complete(0);
        order.push(delivery.device);
    }
    assert_eq!(order, vec![d[0], d[1], d[2]]);
}

#[test]
fn mux_shared_alarm_fifo_scenario() {
    // Device A asks for time 10; while A is outstanding, device B asks for
    // time 5. Callbacks arrive [A, B], and B's physical request is issued
    // only after A's completes — FIFO, not earliest-deadline.
    let (mut mux, d) = mux_with_devices(2, &[100, 200]);
    let a = d[0];
    let b = d[1];

    assert_eq!(mux.submit(a, 10), Ok(Submitted::Started));
    assert_eq!(mux.submit(b, 5), Ok(Submitted::Queued));

    let (first, issued_after_a) = mux.complete(10);
    assert_eq!(first.device, a);
    assert_eq!(first.client, 100);
    assert_eq!(first.result, 10);
    // B's physical request goes out only now.
    assert_eq!(issued_after_a, Some(Request { device: b, op: 5 }));

    let (second, issued_after_b) = mux.complete(5);
    assert_eq!(second.device, b);
    assert_eq!(second.client, 200);
    assert_eq!(issued_after_b, None);
    assert!(mux.is_idle());
}

#[test]
fn mux_capacity_error_changes_nothing() {
    let (mut mux, d) = mux_with_devices(1, &[100, 200]);
    assert_eq!(mux.submit(d[0], 1), Ok(Submitted::Started));
    assert_eq!(mux.submit(d[1], 2), Err(MuxError::CapacityExceeded));

    // The rejected submission left no trace: the one completion is A's,
    // and nothing else was queued behind it.
    let (delivery, next) = mux.complete(0);
    assert_eq!(delivery.device, d[0]);
    assert_eq!(next, None);
    assert!(mux.is_idle());
}

#[test]
fn mux_cancel_queued_request() {
    let (mut mux, d) = mux_with_devices(3, &[100, 200, 300]);
    assert_eq!(mux.submit(d[0], 1), Ok(Submitted::Started));
    assert_eq!(mux.submit(d[1], 2), Ok(Submitted::Queued));
    assert_eq!(mux.submit(d[2], 3), Ok(Submitted::Queued));

    assert_eq!(mux.cancel(d[1]), Cancelled::WasQueued);

    let (first, next) = mux.complete(0);
    assert_eq!(first.device, d[0]);
    // The cancelled request is gone; the next queued one follows.
    assert_eq!(next, Some(Request { device: d[2], op: 3 }));
}

#[test]
fn mux_cancel_active_promotes_queue_head() {
    let (mut mux, d) = mux_with_devices(2, &[100, 200]);
    assert_eq!(mux.submit(d[0], 1), Ok(Submitted::Started));
    assert_eq!(mux.submit(d[1], 2), Ok(Submitted::Queued));

    let outcome = mux.cancel(d[0]);
    assert_eq!(outcome, Cancelled::WasActive(Some(Request { device: d[1], op: 2 })));

    let (delivery, next) = mux.complete(9);
    assert_eq!(delivery.device, d[1]);
    assert_eq!(next, None);
}

#[test]
fn mux_client_registry_reads_back() {
    let (mux, d) = mux_with_devices(1, &[7, 8]);
    assert_eq!(mux.device_count(), 2);
    assert_eq!(mux.client_of(d[0]), Some(7));
    assert_eq!(mux.client_of(d[1]), Some(8));
    assert_eq!(mux.capacity(), 1);
}
