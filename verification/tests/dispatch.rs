use board_core::dispatch::DeferredQueue;
use board_core::dispatch::DispatchTable;
use board_core::dispatch::Dispatched;
use board_core::dispatch::InterruptController;
use board_core::dispatch::service_pass;

#[test]
fn pass_drains_deferred_before_vectors_each_once() {
    // K = 2 deferred tasks, M = 2 pending vectors: all K dispatched before
    // any of the M, each of the K + M items exactly once.
    let mut deferred = DeferredQueue::new(4);
    deferred.post(2);
    deferred.post(0);

    let mut ctrl = InterruptController::new(5);
    ctrl.enable(1);
    ctrl.enable(3);
    ctrl.assert_irq(3);
    ctrl.assert_irq(1);

    let mut table = DispatchTable::new(5);
    table.map_handler(1, 11);
    table.map_handler(3, 13);

    let (trace, outcome) = service_pass(&mut deferred, &mut ctrl, &table);
    assert_eq!(outcome, Ok(()));
    assert_eq!(
        trace,
        vec![
            Dispatched::Deferred { task: 0 },
            Dispatched::Deferred { task: 2 },
            Dispatched::Vector { vector: 1, handler: 11 },
            Dispatched::Vector { vector: 3, handler: 13 },
        ]
    );
    assert!(!deferred.has_tasks());
    assert!(!ctrl.has_pending());
}

#[test]
fn serviced_vector_does_not_refire() {
    let mut deferred = DeferredQueue::new(1);
    let mut ctrl = InterruptController::new(3);
    let mut table = DispatchTable::new(3);
    table.map_handler(2, 9);
    ctrl.enable(2);
    ctrl.assert_irq(2);

    let (trace, outcome) = service_pass(&mut deferred, &mut ctrl, &table);
    assert_eq!(outcome, Ok(()));
    assert_eq!(trace, vec![Dispatched::Vector { vector: 2, handler: 9 }]);

    // After the handler ran and the loop cleared and re-enabled the
    // vector, its pending bit reads 0 — no residual re-fire.
    assert!(!ctrl.is_pending(2));
    assert!(ctrl.is_enabled(2));
    let (again, outcome2) = service_pass(&mut deferred, &mut ctrl, &table);
    assert_eq!(outcome2, Ok(()));
    assert!(again.is_empty());

    // Only a genuine new hardware assertion raises it again.
    ctrl.assert_irq(2);
    assert!(ctrl.is_pending(2));
    let (third, _) = service_pass(&mut deferred, &mut ctrl, &table);
    assert_eq!(third, vec![Dispatched::Vector { vector: 2, handler: 9 }]);
}

#[test]
fn unmapped_vector_halts_with_diagnostic() {
    // A vector with no registered handler fires: the pass halts with a
    // fault naming the vector instead of continuing silently.
    let mut deferred = DeferredQueue::new(1);
    let mut ctrl = InterruptController::new(4);
    let mut table = DispatchTable::new(4);
    table.map_handler(0, 5);
    ctrl.enable(0);
    ctrl.enable(2);
    ctrl.assert_irq(0);
    ctrl.assert_irq(2);

    let (trace, outcome) = service_pass(&mut deferred, &mut ctrl, &table);
    // Vector 0 is mapped and serviced first; vector 2 has no handler.
    assert_eq!(trace, vec![Dispatched::Vector { vector: 0, handler: 5 }]);
    let fault = outcome.unwrap_err();
    assert_eq!(fault.vector(), 2);
    assert_eq!(fault.message(), "unhandled interrupt vector 2");
    // The unserviced vector stays pending: the defect is visible.
    assert!(ctrl.is_pending(2));
    assert!(!ctrl.is_pending(0));
}

#[test]
fn disabled_vector_is_not_serviced() {
    let mut deferred = DeferredQueue::new(1);
    let mut ctrl = InterruptController::new(2);
    let table = DispatchTable::new(2);
    // Pending but never enabled: the pass owes it nothing.
    ctrl.assert_irq(1);

    let (trace, outcome) = service_pass(&mut deferred, &mut ctrl, &table);
    assert_eq!(outcome, Ok(()));
    assert!(trace.is_empty());
    assert!(ctrl.is_pending(1));
}

#[test]
fn deferred_set_absorbs_duplicate_posts() {
    let mut deferred = DeferredQueue::new(3);
    deferred.post(1);
    deferred.post(1);
    let mut ctrl = InterruptController::new(1);
    let table = DispatchTable::new(1);

    let (trace, outcome) = service_pass(&mut deferred, &mut ctrl, &table);
    assert_eq!(outcome, Ok(()));
    assert_eq!(trace, vec![Dispatched::Deferred { task: 1 }]);
}

#[test]
fn fault_message_renders_multi_digit_vectors() {
    let mut deferred = DeferredQueue::new(1);
    let mut ctrl = InterruptController::new(200);
    let table = DispatchTable::new(200);
    ctrl.enable(105);
    ctrl.assert_irq(105);

    let (_, outcome) = service_pass(&mut deferred, &mut ctrl, &table);
    let fault = outcome.unwrap_err();
    assert_eq!(fault.vector(), 105);
    assert_eq!(fault.message(), "unhandled interrupt vector 105");
}
