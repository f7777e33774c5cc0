//! Model of the bxCAN peripheral as board construction sees it: a register
//! file, an operating mode, and a peripheral clock.
//!
//! Only the behaviour this core relies on is modelled — mode transitions,
//! filter-bank configuration and interrupt masking, all of which are plain
//! bit arithmetic on the register file. The peripheral's acknowledge
//! behaviour (the `INAK` handshake that silicon performs while the driver
//! busy-waits) is folded into the register model synchronously, so a mode
//! request completes within the call that issues it. Frame transmission and
//! reception are outside this core; their interrupt handlers are deliberate
//! placeholders that halt.

use vstd::prelude::*;

verus! {

/// Master control register: initialization request.
pub const MCR_INRQ: u32 = 0x1;
/// Master control register: sleep mode request.
pub const MCR_SLEEP: u32 = 0x2;
/// Master control register: no automatic retransmission.
pub const MCR_NART: u32 = 0x10;
/// Master control register: automatic bus-off management.
pub const MCR_ABOM: u32 = 0x40;
/// Master control register: software master reset.
pub const MCR_RESET: u32 = 0x8000;

/// Master status register: initialization acknowledge.
pub const MSR_INAK: u32 = 0x1;
/// Master status register: sleep acknowledge.
pub const MSR_SLAK: u32 = 0x2;

/// Bit timing register: loop back mode (debug).
pub const BTR_LBKM: u32 = 0x4000_0000;

/// Interrupt enable register: transmit mailbox empty.
pub const IER_TMEIE: u32 = 0x1;
/// Interrupt enable register: FIFO 0 message pending.
pub const IER_FMPIE0: u32 = 0x2;
/// Interrupt enable register: FIFO 0 full.
pub const IER_FFIE0: u32 = 0x4;
/// Interrupt enable register: FIFO 0 overrun.
pub const IER_FOVIE0: u32 = 0x8;
/// Interrupt enable register: FIFO 1 message pending.
pub const IER_FMPIE1: u32 = 0x10;
/// Interrupt enable register: FIFO 1 full.
pub const IER_FFIE1: u32 = 0x20;
/// Interrupt enable register: FIFO 1 overrun.
pub const IER_FOVIE1: u32 = 0x40;
/// Interrupt enable register: error warning.
pub const IER_EWGIE: u32 = 0x100;
/// Interrupt enable register: error passive.
pub const IER_EPVIE: u32 = 0x200;
/// Interrupt enable register: bus-off.
pub const IER_BOFIE: u32 = 0x400;
/// Interrupt enable register: last error code.
pub const IER_LECIE: u32 = 0x800;
/// Interrupt enable register: error.
pub const IER_ERRIE: u32 = 0x8000;
/// Interrupt enable register: wakeup.
pub const IER_WKUIE: u32 = 0x1_0000;
/// Interrupt enable register: sleep.
pub const IER_SLKIE: u32 = 0x2_0000;

/// All interrupt-enable bits behind [`CanInterruptMode::Fifo0Interrupt`].
pub const IER_FIFO0_MASK: u32 = IER_FMPIE0 | IER_FFIE0 | IER_FOVIE0;
/// All interrupt-enable bits behind [`CanInterruptMode::Fifo1Interrupt`].
pub const IER_FIFO1_MASK: u32 = IER_FMPIE1 | IER_FFIE1 | IER_FOVIE1;
/// All interrupt-enable bits behind
/// [`CanInterruptMode::ErrorAndStatusChangeInterrupt`].
pub const IER_ERROR_MASK: u32 =
    IER_ERRIE | IER_EWGIE | IER_EPVIE | IER_BOFIE | IER_LECIE | IER_WKUIE | IER_SLKIE;
/// Every interrupt-enable bit the driver manages.
pub const IER_ALL_MASK: u32 = IER_TMEIE | IER_FIFO0_MASK | IER_FIFO1_MASK | IER_ERROR_MASK;

/// Filter master register: filter initialization mode.
pub const FMR_FINIT: u32 = 0x1;

/// Bit timing: time segment 1, in time quanta minus one (6 tq).
pub const BTR_TS1_6TQ: u32 = 5;
/// Bit timing: time segment 2, in time quanta minus one (2 tq).
pub const BTR_TS2_2TQ: u32 = 1;
/// Bit timing: resynchronization jump width, in time quanta minus one (1 tq).
pub const BTR_SJW_1TQ: u32 = 0;
/// Bit timing: baud rate prescaler.
pub const BTR_BRP_DEFAULT: u32 = 4;

/// Whether bit `i` of `r` is set.
pub open spec fn bit_set(r: u32, i: u32) -> bool {
    r & (1u32 << i) != 0
}

/// `r` with the multi-bit field `(mask << off)` replaced by `v`.
pub open spec fn field_set(r: u32, mask: u32, off: u32, v: u32) -> u32 {
    (r & !(mask << off)) | ((v & mask) << off)
}

/// The value of the multi-bit field `(mask << off)` of `r`.
pub open spec fn field_get(r: u32, mask: u32, off: u32) -> u32 {
    (r >> off) & mask
}

/// Setting bit `b` leaves every other bit as it was and makes bit `b` one.
pub proof fn lemma_bit_or(x: u32, b: u32, j: u32)
    requires
        b < 32,
        j < 32,
    ensures
        bit_set(x | (1u32 << b), b),
        j != b ==> bit_set(x | (1u32 << b), j) == bit_set(x, j),
{
    assert((x | (1u32 << b)) & (1u32 << b) != 0) by (bit_vector)
        requires
            b < 32,
    ;
    assert(j != b ==> ((x | (1u32 << b)) & (1u32 << j) != 0) == (x & (1u32 << j) != 0))
        by (bit_vector)
        requires
            b < 32 && j < 32,
    ;
}

/// Clearing bit `b` leaves every other bit as it was and makes bit `b` zero.
pub proof fn lemma_bit_clear(x: u32, b: u32, j: u32)
    requires
        b < 32,
        j < 32,
    ensures
        !bit_set(x & !(1u32 << b), b),
        j != b ==> bit_set(x & !(1u32 << b), j) == bit_set(x, j),
{
    assert((x & !(1u32 << b)) & (1u32 << b) == 0) by (bit_vector)
        requires
            b < 32,
    ;
    assert(j != b ==> ((x & !(1u32 << b)) & (1u32 << j) != 0) == (x & (1u32 << j) != 0))
        by (bit_vector)
        requires
            b < 32 && j < 32,
    ;
}

/// The registers of the CAN peripheral that this core reads or writes.
#[derive(Clone, Copy, PartialEq, Eq, Structural, Debug)]
pub struct CanRegisters {
    /// Master control register.
    pub mcr: u32,
    /// Master status register.
    pub msr: u32,
    /// Bit timing register.
    pub btr: u32,
    /// Interrupt enable register.
    pub ier: u32,
    /// Filter master register.
    pub fmr: u32,
    /// Filter mode register.
    pub fm1r: u32,
    /// Filter scale register.
    pub fs1r: u32,
    /// Filter FIFO assignment register.
    pub ffa1r: u32,
    /// Filter activation register.
    pub fa1r: u32,
    /// Filter bank 0, register 1.
    pub f0r1: u32,
    /// Filter bank 0, register 2.
    pub f0r2: u32,
}

/// The mode the controller is in, tracked alongside the hardware handshake.
#[derive(Clone, Copy, PartialEq, Eq, Structural, Debug)]
pub enum CanOperatingMode {
    /// Initialization mode: filters and bit timing may be programmed.
    Initialization,
    /// Normal mode: the controller takes part in bus traffic.
    Normal,
    /// Sleep mode: the power-on and post-reset state.
    Sleep,
}

/// The interrupt groups the driver can mask or unmask as one unit.
#[derive(Clone, Copy, PartialEq, Eq, Structural, Debug)]
pub enum CanInterruptMode {
    /// Transmit mailbox empty.
    TransmitInterrupt,
    /// Receive FIFO 0 pending, full, or overrun.
    Fifo0Interrupt,
    /// Receive FIFO 1 pending, full, or overrun.
    Fifo1Interrupt,
    /// Error and status change conditions.
    ErrorAndStatusChangeInterrupt,
}

/// The interrupt-enable bits that one [`CanInterruptMode`] stands for.
pub open spec fn irq_mask(interrupt: CanInterruptMode) -> u32 {
    match interrupt {
        CanInterruptMode::TransmitInterrupt => IER_TMEIE,
        CanInterruptMode::Fifo0Interrupt => IER_FIFO0_MASK,
        CanInterruptMode::Fifo1Interrupt => IER_FIFO1_MASK,
        CanInterruptMode::ErrorAndStatusChangeInterrupt => IER_ERROR_MASK,
    }
}

/// A fatal outcome of a CAN interrupt: the event's real servicing is outside
/// this core, so letting it pass silently would lose a hardware event.
/// The caller halts the board with this diagnostic.
#[derive(Clone, Copy, PartialEq, Eq, Structural, Debug)]
pub enum CanHalt {
    /// A transmit-mailbox-empty interrupt fired.
    Transmit,
    /// A receive-FIFO-0 interrupt fired.
    ReceiveFifo0,
    /// A receive-FIFO-1 interrupt fired.
    ReceiveFifo1,
    /// An error or status-change interrupt fired.
    ErrorStatusChange,
}

/// The peripheral clock switch feeding the CAN controller.
pub struct CanClock {
    enabled: bool,
}

impl CanClock {
    /// Whether the switch lets the clock through.
    pub closed spec fn spec_is_enabled(&self) -> bool {
        self.enabled
    }

    /// A switch that starts open-circuit, as after reset.
    pub fn new() -> (c: CanClock)
        ensures
            !c.spec_is_enabled(),
    {
        CanClock { enabled: false }
    }

    /// Whether the switch lets the clock through.
    pub fn is_enabled(&self) -> (b: bool)
        ensures
            b == self.spec_is_enabled(),
    {
        self.enabled
    }

    /// Turns the clock on.
    pub fn enable(&mut self)
        ensures
            final(self).spec_is_enabled(),
    {
        self.enabled = true;
    }

    /// Turns the clock off.
    pub fn disable(&mut self)
        ensures
            !final(self).spec_is_enabled(),
    {
        self.enabled = false;
    }
}

/// The CAN controller: register file, mode, and peripheral clock.
pub struct Can {
    registers: CanRegisters,
    clock: CanClock,
    operating_mode: CanOperatingMode,
}

impl Can {
    /// The register file as the driver last left it.
    pub closed spec fn regs(&self) -> CanRegisters {
        self.registers
    }

    /// The tracked operating mode.
    pub closed spec fn mode(&self) -> CanOperatingMode {
        self.operating_mode
    }

    /// Whether the peripheral clock is switched on.
    pub closed spec fn clock_on(&self) -> bool {
        self.clock.spec_is_enabled()
    }

    /// A controller in its power-on state: asleep, clock switched off, sleep
    /// bits set and every other register zero.
    pub fn new() -> (c: Can)
        ensures
            c.mode() == CanOperatingMode::Sleep,
            !c.clock_on(),
            c.regs().mcr == MCR_SLEEP,
            c.regs().msr == MSR_SLAK,
            c.regs().btr == 0u32,
            c.regs().ier == 0u32,
            c.regs().fmr == 0u32,
            c.regs().fm1r == 0u32,
            c.regs().fs1r == 0u32,
            c.regs().ffa1r == 0u32,
            c.regs().fa1r == 0u32,
            c.regs().f0r1 == 0u32,
            c.regs().f0r2 == 0u32,
    {
        Can {
            registers: CanRegisters {
                mcr: MCR_SLEEP,
                msr: MSR_SLAK,
                btr: 0,
                ier: 0,
                fmr: 0,
                fm1r: 0,
                fs1r: 0,
                ffa1r: 0,
                fa1r: 0,
                f0r1: 0,
                f0r2: 0,
            },
            clock: CanClock::new(),
            operating_mode: CanOperatingMode::Sleep,
        }
    }

    /// The register file as the driver last left it, for inspection.
    pub fn registers(&self) -> (r: CanRegisters)
        ensures
            r == self.regs(),
    {
        self.registers
    }

    /// The tracked operating mode.
    pub fn operating_mode(&self) -> (m: CanOperatingMode)
        ensures
            m == self.mode(),
    {
        self.operating_mode
    }

    /// Wakes the controller, requests initialization mode, and programs the
    /// debug-loopback bit timing.
    ///
    /// The modelled peripheral acknowledges the initialization request
    /// synchronously (`INAK` in the status register); on silicon the driver
    /// busy-waits for that bit here.
    pub fn enable(&mut self)
        ensures
            final(self).mode() == CanOperatingMode::Initialization,
            final(self).regs().mcr == (old(self).regs().mcr & !MCR_SLEEP) | MCR_INRQ | MCR_ABOM
                | MCR_NART,
            final(self).regs().msr == old(self).regs().msr | MSR_INAK,
            final(self).regs().btr == field_set(
                field_set(
                    field_set(
                        field_set(old(self).regs().btr | BTR_LBKM, 0xFu32, 16u32, BTR_TS1_6TQ),
                        0x7u32,
                        20u32,
                        BTR_TS2_2TQ,
                    ),
                    0x3u32,
                    24u32,
                    BTR_SJW_1TQ,
                ),
                0x3FFu32,
                0u32,
                BTR_BRP_DEFAULT,
            ),
            field_get(final(self).regs().btr, 0xFu32, 16u32) == BTR_TS1_6TQ,
            field_get(final(self).regs().btr, 0x7u32, 20u32) == BTR_TS2_2TQ,
            field_get(final(self).regs().btr, 0x3u32, 24u32) == BTR_SJW_1TQ,
            field_get(final(self).regs().btr, 0x3FFu32, 0u32) == BTR_BRP_DEFAULT,
            final(self).regs().btr & BTR_LBKM == BTR_LBKM,
            final(self).regs().ier == old(self).regs().ier,
            final(self).regs().fmr == old(self).regs().fmr,
            final(self).regs().fa1r == old(self).regs().fa1r,
            final(self).clock_on() == old(self).clock_on(),
    {
        self.registers.mcr = self.registers.mcr & !MCR_SLEEP;
        self.registers.mcr = self.registers.mcr | MCR_INRQ;
        // The peripheral model acknowledges the initialization request at
        // once; hardware raises INAK only after the bus is idle.
        self.registers.msr = self.registers.msr | MSR_INAK;
        self.operating_mode = CanOperatingMode::Initialization;

        self.registers.mcr = self.registers.mcr | MCR_ABOM;
        self.registers.mcr = self.registers.mcr | MCR_NART;

        // Loopback for debug, then the bit timing fields.
        self.registers.btr = self.registers.btr | BTR_LBKM;
        self.registers.btr = write_field(self.registers.btr, 0xF, 16, BTR_TS1_6TQ);
        self.registers.btr = write_field(self.registers.btr, 0x7, 20, BTR_TS2_2TQ);
        self.registers.btr = write_field(self.registers.btr, 0x3, 24, BTR_SJW_1TQ);
        self.registers.btr = write_field(self.registers.btr, 0x3FF, 0, BTR_BRP_DEFAULT);
        proof {
            let b = old(self).regs().btr;
            let w = field_set(
                field_set(
                    field_set(
                        field_set(b | BTR_LBKM, 0xFu32, 16u32, BTR_TS1_6TQ),
                        0x7u32,
                        20u32,
                        BTR_TS2_2TQ,
                    ),
                    0x3u32,
                    24u32,
                    BTR_SJW_1TQ,
                ),
                0x3FFu32,
                0u32,
                BTR_BRP_DEFAULT,
            );
            assert(field_get(w, 0xFu32, 16u32) == BTR_TS1_6TQ && field_get(w, 0x7u32, 20u32)
                == BTR_TS2_2TQ && field_get(w, 0x3u32, 24u32) == BTR_SJW_1TQ && field_get(
                w,
                0x3FFu32,
                0u32,
            ) == BTR_BRP_DEFAULT && w & BTR_LBKM == BTR_LBKM) by (bit_vector)
                requires
                    w == field_set(
                        field_set(
                            field_set(
                                field_set(b | BTR_LBKM, 0xFu32, 16u32, BTR_TS1_6TQ),
                                0x7u32,
                                20u32,
                                BTR_TS2_2TQ,
                            ),
                            0x3u32,
                            24u32,
                            BTR_SJW_1TQ,
                        ),
                        0x3FFu32,
                        0u32,
                        BTR_BRP_DEFAULT,
                    ),
            ;
        }
    }

    /// Programs one filter bank while the filter banks are held in
    /// initialization mode, and leaves filter initialization mode again.
    ///
    /// On return, bank `filter_bank` is active exactly when `filter_enable`
    /// was passed, scaled as one 32-bit filter exactly when `scale_32bits`,
    /// in identifier-mask mode exactly when `id_mask`, assigned to receive
    /// FIFO 0 exactly when `filter_fifo0` — and no other bank's
    /// configuration moves.
    pub fn config_filter(
        &mut self,
        filter_bank: u32,
        scale_32bits: bool,
        id_mask: bool,
        filter_fifo0: bool,
        filter_enable: bool,
    )
        requires
            filter_bank < 28,
        ensures
            final(self).regs().fmr == (old(self).regs().fmr | FMR_FINIT) & !FMR_FINIT,
            !bit_set(final(self).regs().fmr, 0u32),
            final(self).regs().f0r1 == 0u32,
            final(self).regs().f0r2 == 0u32,
            bit_set(final(self).regs().fa1r, filter_bank) == filter_enable,
            bit_set(final(self).regs().fs1r, filter_bank) == scale_32bits,
            bit_set(final(self).regs().fm1r, filter_bank) == !id_mask,
            bit_set(final(self).regs().ffa1r, filter_bank) == !filter_fifo0,
            forall|j: u32|
                j < 32 && j != filter_bank ==> {
                    &&& bit_set(final(self).regs().fa1r, j) == bit_set(old(self).regs().fa1r, j)
                    &&& bit_set(final(self).regs().fs1r, j) == bit_set(old(self).regs().fs1r, j)
                    &&& bit_set(final(self).regs().fm1r, j) == bit_set(old(self).regs().fm1r, j)
                    &&& bit_set(final(self).regs().ffa1r, j) == bit_set(
                        old(self).regs().ffa1r,
                        j,
                    )
                },
            final(self).regs().mcr == old(self).regs().mcr,
            final(self).regs().msr == old(self).regs().msr,
            final(self).regs().btr == old(self).regs().btr,
            final(self).regs().ier == old(self).regs().ier,
            final(self).mode() == old(self).mode(),
            final(self).clock_on() == old(self).clock_on(),
    {
        let filter_number: u32 = 1u32 << filter_bank;

        // Enter filter initialization mode; deactivate the bank first.
        self.registers.fmr = self.registers.fmr | FMR_FINIT;
        self.registers.fa1r = self.registers.fa1r & !filter_number;

        if scale_32bits {
            self.registers.fs1r = self.registers.fs1r | filter_number;
        } else {
            self.registers.fs1r = self.registers.fs1r & !filter_number;
        }

        // The bank's filter registers accept everything.
        self.registers.f0r1 = 0;
        self.registers.f0r2 = 0;

        if id_mask {
            self.registers.fm1r = self.registers.fm1r & !filter_number;
        } else {
            self.registers.fm1r = self.registers.fm1r | filter_number;
        }

        if filter_fifo0 {
            self.registers.ffa1r = self.registers.ffa1r & !filter_number;
        } else {
            self.registers.ffa1r = self.registers.ffa1r | filter_number;
        }

        if filter_enable {
            self.registers.fa1r = self.registers.fa1r | filter_number;
        }

        // Leave filter initialization mode: filters take effect.
        self.registers.fmr = self.registers.fmr & !FMR_FINIT;

        proof {
            let f = old(self).regs().fmr;
            assert(((f | FMR_FINIT) & !FMR_FINIT) & (1u32 << 0u32) == 0) by (bit_vector);
            assert forall|j: u32| j < 32 implies {
                &&& (bit_set(self.regs().fa1r, j) == filter_enable || j != filter_bank)
                &&& (j != filter_bank ==> bit_set(self.regs().fa1r, j) == bit_set(
                    old(self).regs().fa1r,
                    j,
                ))
                &&& (j == filter_bank ==> bit_set(self.regs().fa1r, j) == filter_enable)
                &&& (j == filter_bank ==> bit_set(self.regs().fs1r, j) == scale_32bits)
                &&& (j != filter_bank ==> bit_set(self.regs().fs1r, j) == bit_set(
                    old(self).regs().fs1r,
                    j,
                ))
                &&& (j == filter_bank ==> bit_set(self.regs().fm1r, j) == !id_mask)
                &&& (j != filter_bank ==> bit_set(self.regs().fm1r, j) == bit_set(
                    old(self).regs().fm1r,
                    j,
                ))
                &&& (j == filter_bank ==> bit_set(self.regs().ffa1r, j) == !filter_fifo0)
                &&& (j != filter_bank ==> bit_set(self.regs().ffa1r, j) == bit_set(
                    old(self).regs().ffa1r,
                    j,
                ))
            } by {
                lemma_bit_clear(old(self).regs().fa1r, filter_bank, j);
                lemma_bit_or(old(self).regs().fa1r & !(1u32 << filter_bank), filter_bank, j);
                lemma_bit_or(old(self).regs().fs1r, filter_bank, j);
                lemma_bit_clear(old(self).regs().fs1r, filter_bank, j);
                lemma_bit_or(old(self).regs().fm1r, filter_bank, j);
                lemma_bit_clear(old(self).regs().fm1r, filter_bank, j);
                lemma_bit_or(old(self).regs().ffa1r, filter_bank, j);
                lemma_bit_clear(old(self).regs().ffa1r, filter_bank, j);
            }
        }
    }

    /// Leaves initialization mode and runs as a bus participant.
    ///
    /// The modelled peripheral drops `INAK` synchronously; on silicon the
    /// driver busy-waits for the bit to clear here.
    pub fn enter_normal_mode(&mut self)
        ensures
            final(self).mode() == CanOperatingMode::Normal,
            final(self).regs().mcr == old(self).regs().mcr & !MCR_INRQ,
            final(self).regs().msr == old(self).regs().msr & !MSR_INAK,
            final(self).regs().btr == old(self).regs().btr,
            final(self).regs().ier == old(self).regs().ier,
            final(self).regs().fa1r == old(self).regs().fa1r,
            final(self).clock_on() == old(self).clock_on(),
    {
        self.registers.mcr = self.registers.mcr & !MCR_INRQ;
        // The peripheral model acknowledges at once; hardware clears INAK
        // after synchronizing to the bus.
        self.registers.msr = self.registers.msr & !MSR_INAK;
        self.operating_mode = CanOperatingMode::Normal;
    }

    /// Whether the peripheral clock is switched on.
    pub fn is_enabled_clock(&self) -> (b: bool)
        ensures
            b == self.clock_on(),
    {
        self.clock.is_enabled()
    }

    /// Gates the peripheral clock on.
    pub fn enable_clock(&mut self)
        ensures
            final(self).clock_on(),
            final(self).regs() == old(self).regs(),
            final(self).mode() == old(self).mode(),
    {
        self.clock.enable();
    }

    /// Gates the peripheral clock off.
    pub fn disable_clock(&mut self)
        ensures
            !final(self).clock_on(),
            final(self).regs() == old(self).regs(),
            final(self).mode() == old(self).mode(),
    {
        self.clock.disable();
    }

    /// Placeholder handler: a transmit interrupt is fatal until a real
    /// mailbox service routine exists.
    pub fn handle_transmit_interrupt(&self) -> (h: CanHalt)
        ensures
            h == CanHalt::Transmit,
    {
        CanHalt::Transmit
    }

    /// Placeholder handler: a FIFO 0 interrupt is fatal until a real
    /// receive routine exists.
    pub fn handle_fifo0_interrupt(&self) -> (h: CanHalt)
        ensures
            h == CanHalt::ReceiveFifo0,
    {
        CanHalt::ReceiveFifo0
    }

    /// Placeholder handler: a FIFO 1 interrupt is fatal until a real
    /// receive routine exists.
    pub fn handle_fifo1_interrupt(&self) -> (h: CanHalt)
        ensures
            h == CanHalt::ReceiveFifo1,
    {
        CanHalt::ReceiveFifo1
    }

    /// Placeholder handler: an error or status-change interrupt is fatal
    /// until a real recovery routine exists.
    pub fn handle_error_status_interrupt(&self) -> (h: CanHalt)
        ensures
            h == CanHalt::ErrorStatusChange,
    {
        CanHalt::ErrorStatusChange
    }

    /// Unmasks the interrupt-enable bits of one group.
    pub fn enable_irq(&mut self, interrupt: CanInterruptMode)
        ensures
            final(self).regs().ier == old(self).regs().ier | irq_mask(interrupt),
            final(self).regs().mcr == old(self).regs().mcr,
            final(self).regs().fa1r == old(self).regs().fa1r,
            final(self).mode() == old(self).mode(),
            final(self).clock_on() == old(self).clock_on(),
    {
        match interrupt {
            CanInterruptMode::TransmitInterrupt => {
                self.registers.ier = self.registers.ier | IER_TMEIE;
            },
            CanInterruptMode::Fifo0Interrupt => {
                self.registers.ier = self.registers.ier | IER_FIFO0_MASK;
            },
            CanInterruptMode::Fifo1Interrupt => {
                self.registers.ier = self.registers.ier | IER_FIFO1_MASK;
            },
            CanInterruptMode::ErrorAndStatusChangeInterrupt => {
                self.registers.ier = self.registers.ier | IER_ERROR_MASK;
            },
        }
    }

    /// Masks the interrupt-enable bits of one group.
    pub fn disable_irq(&mut self, interrupt: CanInterruptMode)
        ensures
            final(self).regs().ier == old(self).regs().ier & !irq_mask(interrupt),
            final(self).regs().mcr == old(self).regs().mcr,
            final(self).regs().fa1r == old(self).regs().fa1r,
            final(self).mode() == old(self).mode(),
            final(self).clock_on() == old(self).clock_on(),
    {
        match interrupt {
            CanInterruptMode::TransmitInterrupt => {
                self.registers.ier = self.registers.ier & !IER_TMEIE;
            },
            CanInterruptMode::Fifo0Interrupt => {
                self.registers.ier = self.registers.ier & !IER_FIFO0_MASK;
            },
            CanInterruptMode::Fifo1Interrupt => {
                self.registers.ier = self.registers.ier & !IER_FIFO1_MASK;
            },
            CanInterruptMode::ErrorAndStatusChangeInterrupt => {
                self.registers.ier = self.registers.ier & !IER_ERROR_MASK;
            },
        }
    }

    /// Unmasks every interrupt group.
    pub fn enable_irqs(&mut self)
        ensures
            final(self).regs().ier == old(self).regs().ier | IER_ALL_MASK,
            final(self).regs().mcr == old(self).regs().mcr,
            final(self).mode() == old(self).mode(),
            final(self).clock_on() == old(self).clock_on(),
    {
        self.enable_irq(CanInterruptMode::TransmitInterrupt);
        self.enable_irq(CanInterruptMode::Fifo0Interrupt);
        self.enable_irq(CanInterruptMode::Fifo1Interrupt);
        self.enable_irq(CanInterruptMode::ErrorAndStatusChangeInterrupt);
        proof {
            let x = old(self).regs().ier;
            assert(x | IER_TMEIE | IER_FIFO0_MASK | IER_FIFO1_MASK | IER_ERROR_MASK == x | (
            IER_TMEIE | IER_FIFO0_MASK | IER_FIFO1_MASK | IER_ERROR_MASK)) by (bit_vector);
        }
    }

    /// Masks every interrupt group.
    pub fn disable_irqs(&mut self)
        ensures
            final(self).regs().ier == old(self).regs().ier & !IER_ALL_MASK,
            final(self).regs().mcr == old(self).regs().mcr,
            final(self).mode() == old(self).mode(),
            final(self).clock_on() == old(self).clock_on(),
    {
        self.disable_irq(CanInterruptMode::TransmitInterrupt);
        self.disable_irq(CanInterruptMode::Fifo0Interrupt);
        self.disable_irq(CanInterruptMode::Fifo1Interrupt);
        self.disable_irq(CanInterruptMode::ErrorAndStatusChangeInterrupt);
        proof {
            let x = old(self).regs().ier;
            assert(x & !IER_TMEIE & !IER_FIFO0_MASK & !IER_FIFO1_MASK & !IER_ERROR_MASK == x & !(
            IER_TMEIE | IER_FIFO0_MASK | IER_FIFO1_MASK | IER_ERROR_MASK)) by (bit_vector);
        }
    }

    /// Requests a software master reset and returns the mode tracking to
    /// sleep, the post-reset state.
    pub fn reset(&mut self)
        ensures
            final(self).mode() == CanOperatingMode::Sleep,
            final(self).regs().mcr == old(self).regs().mcr | MCR_RESET,
            final(self).clock_on() == old(self).clock_on(),
    {
        self.registers.mcr = self.registers.mcr | MCR_RESET;
        self.operating_mode = CanOperatingMode::Sleep;
    }
}

/// `r` with the multi-bit field `(mask << off)` replaced by `v`, as a
/// runtime computation.
fn write_field(r: u32, mask: u32, off: u32, v: u32) -> (w: u32)
    requires
        off < 32,
    ensures
        w == field_set(r, mask, off, v),
{
    (r & !(mask << off)) | ((v & mask) << off)
}

} // verus!
