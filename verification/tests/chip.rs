use board_core::chip::Stm32f4xx;
use board_core::dispatch::Dispatched;

#[test]
fn chip_full_service_pass_in_priority_order() {
    let mut chip = Stm32f4xx::new(2, 8);
    chip.map_vector(5, 50);
    chip.map_vector(1, 10);
    chip.enable_vector(5);
    chip.enable_vector(1);

    // Hardware raises two vectors; drivers raise one deferred task.
    chip.assert_irq(5);
    chip.assert_irq(1);
    chip.post_deferred(1);
    assert!(chip.has_pending_interrupts());

    let (trace, outcome) = chip.service_pending_interrupts();
    assert_eq!(outcome, Ok(()));
    assert_eq!(
        trace,
        vec![
            Dispatched::Deferred { task: 1 },
            Dispatched::Vector { vector: 1, handler: 10 },
            Dispatched::Vector { vector: 5, handler: 50 },
        ]
    );
    assert!(!chip.has_pending_interrupts());
}

#[test]
fn chip_serviced_vector_cleared_and_reenabled() {
    let mut chip = Stm32f4xx::new(1, 4);
    chip.map_vector(3, 33);
    chip.enable_vector(3);
    chip.assert_irq(3);

    let (_, outcome) = chip.service_pending_interrupts();
    assert_eq!(outcome, Ok(()));
    assert!(!chip.vector_pending(3));
    assert!(chip.vector_enabled(3));
}

#[test]
fn chip_unmapped_vector_is_fatal() {
    let mut chip = Stm32f4xx::new(1, 4);
    chip.enable_vector(2);
    chip.assert_irq(2);

    let (trace, outcome) = chip.service_pending_interrupts();
    assert!(trace.is_empty());
    let fault = outcome.unwrap_err();
    assert_eq!(fault.vector(), 2);
}

#[test]
fn chip_idle_pass_is_empty() {
    let mut chip = Stm32f4xx::new(2, 2);
    assert!(!chip.has_pending_interrupts());
    let (trace, outcome) = chip.service_pending_interrupts();
    assert_eq!(outcome, Ok(()));
    assert!(trace.is_empty());
}
