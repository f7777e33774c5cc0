use board_core::can::Can;
use board_core::can::CanHalt;
use board_core::can::CanInterruptMode;
use board_core::can::CanOperatingMode;

#[test]
fn can_power_on_state() {
    let can = Can::new();
    assert_eq!(can.operating_mode(), CanOperatingMode::Sleep);
    assert!(!can.is_enabled_clock());
    let regs = can.registers();
    assert_eq!(regs.mcr, 0x0000_0002); // SLEEP requested
    assert_eq!(regs.msr, 0x0000_0002); // SLAK acknowledged
    assert_eq!(regs.btr, 0);
    assert_eq!(regs.ier, 0);
}

#[test]
fn can_enable_programs_control_and_bit_timing() {
    let mut can = Can::new();
    can.enable();
    assert_eq!(can.operating_mode(), CanOperatingMode::Initialization);
    let regs = can.registers();
    // SLEEP cleared; INRQ, ABOM, NART set.
    assert_eq!(regs.mcr, 0x0000_0051);
    // The modelled peripheral acknowledged the initialization request.
    assert_eq!(regs.msr & 0x1, 0x1);
    // Loopback plus TS1 = 5, TS2 = 1, SJW = 0, BRP = 4.
    assert_eq!(regs.btr, 0x4015_0004);
}

#[test]
fn can_enter_normal_mode_clears_request_and_ack() {
    let mut can = Can::new();
    can.enable();
    can.enter_normal_mode();
    assert_eq!(can.operating_mode(), CanOperatingMode::Normal);
    let regs = can.registers();
    assert_eq!(regs.mcr & 0x1, 0); // INRQ cleared
    assert_eq!(regs.msr & 0x1, 0); // INAK cleared
    assert_eq!(regs.btr, 0x4015_0004); // bit timing untouched
}

#[test]
fn can_config_filter_bank_zero_all_set() {
    let mut can = Can::new();
    can.enable();
    can.config_filter(0, true, true, true, true);
    let regs = can.registers();
    assert_eq!(regs.fmr, 0); // FINIT left again
    assert_eq!(regs.fa1r, 0x1); // bank 0 active
    assert_eq!(regs.fs1r, 0x1); // 32-bit scale
    assert_eq!(regs.fm1r, 0); // identifier-mask mode
    assert_eq!(regs.ffa1r, 0); // assigned to FIFO 0
    assert_eq!(regs.f0r1, 0);
    assert_eq!(regs.f0r2, 0);
}

#[test]
fn can_config_filter_other_bank_and_flags() {
    let mut can = Can::new();
    can.enable();
    can.config_filter(0, true, true, true, true);
    can.config_filter(3, false, false, false, false);
    let regs = can.registers();
    // Bank 3 stays inactive, register mode, FIFO 1 — and bank 0's earlier
    // configuration is untouched.
    assert_eq!(regs.fa1r, 0x1);
    assert_eq!(regs.fs1r, 0x1);
    assert_eq!(regs.fm1r, 0x8);
    assert_eq!(regs.ffa1r, 0x8);
}

#[test]
fn can_enable_irq_groups() {
    let mut can = Can::new();
    can.enable_irq(CanInterruptMode::TransmitInterrupt);
    assert_eq!(can.registers().ier, 0x1);
    can.enable_irq(CanInterruptMode::Fifo0Interrupt);
    assert_eq!(can.registers().ier, 0xF);
    can.enable_irq(CanInterruptMode::Fifo1Interrupt);
    assert_eq!(can.registers().ier, 0x7F);
    can.enable_irq(CanInterruptMode::ErrorAndStatusChangeInterrupt);
    assert_eq!(can.registers().ier, 0x0003_8F7F);
}

#[test]
fn can_disable_irq_groups() {
    let mut can = Can::new();
    can.enable_irqs();
    assert_eq!(can.registers().ier, 0x0003_8F7F);
    can.disable_irq(CanInterruptMode::Fifo0Interrupt);
    assert_eq!(can.registers().ier, 0x0003_8F71);
    can.disable_irqs();
    assert_eq!(can.registers().ier, 0);
}

#[test]
fn can_clock_switch() {
    let mut can = Can::new();
    assert!(!can.is_enabled_clock());
    can.enable_clock();
    assert!(can.is_enabled_clock());
    can.disable_clock();
    assert!(!can.is_enabled_clock());
}

#[test]
fn can_reset_requests_master_reset() {
    let mut can = Can::new();
    can.enable();
    can.reset();
    assert_eq!(can.operating_mode(), CanOperatingMode::Sleep);
    assert_eq!(can.registers().mcr & 0x8000, 0x8000);
}

#[test]
fn can_placeholder_handlers_halt() {
    let can = Can::new();
    assert_eq!(can.handle_transmit_interrupt(), CanHalt::Transmit);
    assert_eq!(can.handle_fifo0_interrupt(), CanHalt::ReceiveFifo0);
    assert_eq!(can.handle_fifo1_interrupt(), CanHalt::ReceiveFifo1);
    assert_eq!(can.handle_error_status_interrupt(), CanHalt::ErrorStatusChange);
}
