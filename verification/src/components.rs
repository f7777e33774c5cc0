//! One-shot component builders: each consumes its configuration and a
//! [`Slot`], constructs a driver, stores it in the board's registry, and
//! performs all intra-graph linkage — registering the new driver as the
//! client of its already-finalized dependencies — exactly once, before the
//! permanent [`Handle`] is returned.
//!
//! A component is consumed by move and a slot claims its cell by move, so a
//! double `finalize` does not compile; no runtime branch guards reuse.

use vstd::prelude::*;

use crate::grant::GrantRegion;
use crate::grant::Kernel;
use crate::mux::Mux;
use crate::storage::Handle;
use crate::storage::Slot;
use crate::storage::Storage;

verus! {

/// One physical peripheral's completion hook: the single client that its
/// interrupt-driven completions are delivered to, set exactly once during
/// construction.
pub struct Peripheral {
    client: Option<usize>,
}

impl Peripheral {
    /// The registered client, if one is wired yet.
    pub closed spec fn spec_client(&self) -> Option<usize> {
        self.client
    }

    /// A peripheral with no client wired.
    pub fn new() -> (p: Peripheral)
        ensures
            p.spec_client() is None,
    {
        Peripheral { client: None }
    }

    /// Wires the peripheral's one client. Done exactly once, during
    /// construction; the contract rules a second call out.
    pub fn set_client(&mut self, client: usize)
        requires
            old(self).spec_client() is None,
        ensures
            final(self).spec_client() == Some(client),
    {
        self.client = Some(client);
    }

    /// The registered client, if one is wired yet.
    pub fn client(&self) -> (r: Option<usize>)
        ensures
            r == self.spec_client(),
    {
        self.client
    }
}

/// A virtual analog-to-digital converter channel: a private handle onto the
/// shared converter, bound to one hardware channel.
pub struct AdcDevice {
    /// The registry cell of the converter's mux.
    pub adc_mux: Handle,
    /// This device's id on that mux.
    pub device: usize,
    /// The hardware channel the device samples.
    pub channel: u32,
}

/// The system-call driver fronting a set of virtual converter channels,
/// with its per-process grant region.
pub struct AdcSyscall {
    /// The driver's grant region for per-process state.
    pub grant: GrantRegion,
    /// The mux device ids of the channels the driver fans out to.
    pub channels: Vec<usize>,
}

/// A bus driver speaking through one virtual device of the SPI mux.
pub struct SpiBus {
    /// The bus's device id on the SPI mux.
    pub device: usize,
}

/// Which screen controller an `ST77XX` driver is wired for.
#[derive(Clone, Copy, PartialEq, Eq, Structural, Debug)]
pub enum ScreenKind {
    /// The ST7735 controller.
    St7735,
    /// The ST7789H2 controller.
    St7789h2,
    /// The ILI9341 controller.
    Ili9341,
}

/// The ST7735 display driver: a bus client plus a virtual alarm for its
/// command sequencing delays.
pub struct St7735 {
    /// The registry cell of the alarm mux the driver's timer lives on.
    pub alarm_mux: Handle,
    /// The driver's device id on that alarm mux.
    pub alarm_device: usize,
    /// The data/command pin, if the wiring has one.
    pub dc: Option<u32>,
    /// The reset pin.
    pub reset: u32,
}

/// A display driver for the ST77XX family: as [`St7735`], plus the screen
/// variant it initializes.
pub struct St77xx {
    /// The registry cell of the alarm mux the driver's timer lives on.
    pub alarm_mux: Handle,
    /// The driver's device id on that alarm mux.
    pub alarm_device: usize,
    /// The data/command pin, if the wiring has one.
    pub dc: Option<u32>,
    /// The reset pin.
    pub reset: u32,
    /// The screen controller wired to the bus.
    pub screen: ScreenKind,
}

/// Builds the mux that shares one analog-to-digital converter among many
/// virtual channels, and registers it as the converter's client.
pub struct AdcMuxComponent {
    adc: usize,
    capacity: usize,
}

impl AdcMuxComponent {
    /// The physical converter the mux will own.
    pub closed spec fn spec_adc(&self) -> int {
        self.adc as int
    }

    /// The request bound the mux is built with.
    pub closed spec fn spec_capacity(&self) -> int {
        self.capacity as int
    }

    /// Configuration: the physical converter's id and the bound on
    /// outstanding conversion requests.
    pub fn new(adc: usize, capacity: usize) -> (c: AdcMuxComponent)
        requires
            capacity >= 1,
        ensures
            c.spec_adc() == adc,
            c.spec_capacity() == capacity,
            c.spec_capacity() >= 1,
    {
        AdcMuxComponent { adc, capacity }
    }

    /// Consumes the builder and the slot: stores a fresh, idle mux in the
    /// registry and wires it as the converter's one completion client.
    pub fn finalize(self, storage: &mut Storage<Mux>, slot: Slot, adc: &mut Peripheral) -> (h:
        Handle)
        requires
            self.spec_capacity() >= 1,
            old(storage)@.wf(),
            old(storage)@.accepts(slot),
            old(adc).spec_client() is None,
        ensures
            final(storage)@.wf(),
            h.cell() == slot.cell(),
            final(storage)@.issued == old(storage)@.issued,
            final(storage)@.cells.len() == old(storage)@.cells.len(),
            ({
                let cell = final(storage)@.cells[h.cell()];
                &&& cell matches Some(m)
                &&& m@.wf()
                &&& m@.capacity == self.spec_capacity()
                &&& m@.active is None
                &&& m@.queue.len() == 0
                &&& m@.clients.len() == 0
            }),
            forall|j: int|
                0 <= j < old(storage)@.cells.len() && j != slot.cell()
                    ==> final(storage)@.cells[j] == old(storage)@.cells[j],
            final(adc).spec_client() matches Some(c) && c as int == h.cell(),
    {
        let mux = Mux::new(self.capacity);
        let handle = storage.finalize(slot, mux);
        adc.set_client(handle.index());
        handle
    }
}

/// Builds one virtual converter channel on an already-finalized converter
/// mux and adds it to that mux's device registry.
pub struct AdcComponent {
    adc_mux: Handle,
    channel: u32,
}

impl AdcComponent {
    /// The registry cell of the mux the channel will live on.
    pub closed spec fn spec_adc_mux(&self) -> Handle {
        self.adc_mux
    }

    /// The hardware channel to sample.
    pub closed spec fn spec_channel(&self) -> u32 {
        self.channel
    }

    /// Configuration: the finalized converter mux and a hardware channel.
    pub fn new(mux: Handle, channel: u32) -> (c: AdcComponent)
        ensures
            c.spec_adc_mux() == mux,
            c.spec_channel() == channel,
    {
        AdcComponent { adc_mux: mux, channel }
    }

    /// Consumes the builder and the slot: registers one more device on the
    /// converter mux and stores the channel driver bound to it.
    pub fn finalize(self, storage: &mut Storage<AdcDevice>, slot: Slot, mux: &mut Mux) -> (h:
        Handle)
        requires
            old(storage)@.wf(),
            old(storage)@.accepts(slot),
            old(mux)@.wf(),
            old(mux)@.clients.len() < usize::MAX,
        ensures
            final(storage)@.wf(),
            final(mux)@.wf(),
            h.cell() == slot.cell(),
            final(storage)@.issued == old(storage)@.issued,
            final(storage)@.cells.len() == old(storage)@.cells.len(),
            ({
                let cell = final(storage)@.cells[h.cell()];
                &&& cell matches Some(d)
                &&& d.adc_mux == self.spec_adc_mux()
                &&& d.channel == self.spec_channel()
                &&& d.device == old(mux)@.clients.len()
            }),
            forall|j: int|
                0 <= j < old(storage)@.cells.len() && j != slot.cell()
                    ==> final(storage)@.cells[j] == old(storage)@.cells[j],
            final(mux)@.clients == old(mux)@.clients.push(None),
            final(mux)@.active == old(mux)@.active,
            final(mux)@.queue == old(mux)@.queue,
            final(mux)@.capacity == old(mux)@.capacity,
    {
        let device = mux.register();
        let driver = AdcDevice { adc_mux: self.adc_mux, device, channel: self.channel };
        storage.finalize(slot, driver)
    }
}

/// Builds the system-call converter driver: creates its grant region
/// through the one-time capability check, stores the driver, and wires it
/// as the client of every one of its virtual channels.
pub struct AdcSyscallComponent {}

impl AdcSyscallComponent {
    /// Configuration: the builder carries none; the kernel and channel set
    /// arrive at finalization.
    pub fn new() -> (c: AdcSyscallComponent) {
        AdcSyscallComponent {  }
    }

    /// Consumes the builder and the slot: mints a memory-allocation
    /// capability (construction must still be running), spends it on a
    /// fresh grant region, stores the driver, and registers it as the
    /// completion client of each of its channels' mux devices.
    pub fn finalize(
        self,
        storage: &mut Storage<AdcSyscall>,
        slot: Slot,
        kernel: &mut Kernel,
        mux: &mut Mux,
        devices: &Vec<usize>,
    ) -> (h: Handle)
        requires
            old(storage)@.wf(),
            old(storage)@.accepts(slot),
            !old(kernel).started(),
            old(kernel).grant_count() < usize::MAX,
            old(mux)@.wf(),
            forall|k: int|
                0 <= k < devices@.len() ==> #[trigger] devices@[k] < old(mux)@.clients.len()
                    && old(mux)@.clients[devices@[k] as int] is None,
            forall|k1: int, k2: int|
                0 <= k1 < k2 < devices@.len() ==> devices@[k1] != devices@[k2],
        ensures
            final(storage)@.wf(),
            final(mux)@.wf(),
            h.cell() == slot.cell(),
            final(kernel).grant_count() == old(kernel).grant_count() + 1,
            final(kernel).started() == old(kernel).started(),
            final(storage)@.issued == old(storage)@.issued,
            final(storage)@.cells.len() == old(storage)@.cells.len(),
            ({
                let cell = final(storage)@.cells[h.cell()];
                &&& cell matches Some(d)
                &&& d.grant.id() == old(kernel).grant_count()
                &&& d.channels@ == devices@
            }),
            forall|j: int|
                0 <= j < old(storage)@.cells.len() && j != slot.cell()
                    ==> final(storage)@.cells[j] == old(storage)@.cells[j],
            final(mux)@.clients.len() == old(mux)@.clients.len(),
            final(mux)@.active == old(mux)@.active,
            final(mux)@.queue == old(mux)@.queue,
            final(mux)@.capacity == old(mux)@.capacity,
            forall|k: int|
                0 <= k < devices@.len() ==> (final(mux)@.clients[#[trigger] devices@[k] as int]
                    matches Some(c) && c as int == h.cell()),
            forall|j: int|
                0 <= j < old(mux)@.clients.len() && (forall|k: int|
                    0 <= k < devices@.len() ==> #[trigger] devices@[k] != j)
                    ==> final(mux)@.clients[j] == old(mux)@.clients[j],
    {
        let capability = match kernel.create_capability() {
            Some(c) => c,
            None => {
                proof {
                    assert(false);
                }
                vstd::pervasive::unreached()
            },
        };
        let grant = kernel.create_grant(capability);

        let mut channels: Vec<usize> = Vec::new();
        let mut i: usize = 0;
        while i < devices.len()
            invariant
                i <= devices.len(),
                channels@ =~= devices@.take(i as int),
            decreases devices.len() - i,
        {
            channels.push(devices[i]);
            i = i + 1;
        }
        proof {
            assert(channels@ =~= devices@);
        }

        let driver = AdcSyscall { grant, channels };
        let handle = storage.finalize(slot, driver);

        let client = handle.index();
        let mut n: usize = 0;
        while n < devices.len()
            invariant
                n <= devices.len(),
                mux@.wf(),
                mux@.clients.len() == old(mux)@.clients.len(),
                mux@.active == old(mux)@.active,
                mux@.queue == old(mux)@.queue,
                mux@.capacity == old(mux)@.capacity,
                client as int == slot.cell(),
                forall|k: int|
                    0 <= k < devices@.len() ==> #[trigger] devices@[k]
                        < old(mux)@.clients.len() && old(mux)@.clients[devices@[k] as int]
                        is None,
                forall|k1: int, k2: int|
                    0 <= k1 < k2 < devices@.len() ==> devices@[k1] != devices@[k2],
                forall|k: int|
                    0 <= k < n ==> mux@.clients[#[trigger] devices@[k] as int] == Some(client),
                forall|j: int|
                    0 <= j < old(mux)@.clients.len() && (forall|k: int|
                        0 <= k < n ==> #[trigger] devices@[k] != j) ==> mux@.clients[j] == old(
                        mux,
                    )@.clients[j],
            decreases devices.len() - n,
        {
            let device = devices[n];
            proof {
                assert(mux@.clients[device as int] == old(mux)@.clients[device as int]) by {
                    assert(forall|k: int| 0 <= k < n ==> #[trigger] devices@[k] != device as int);
                }
            }
            mux.set_client(device, client);
            n = n + 1;
            proof {
                assert forall|j: int|
                    0 <= j < old(mux)@.clients.len() && (forall|k: int|
                        0 <= k < n ==> #[trigger] devices@[k] != j) implies mux@.clients[j]
                    == old(mux)@.clients[j] by {
                    assert(devices@[n - 1] != j);
                }
            }
        }
        handle
    }
}

/// Builds the bus driver over an already-finalized virtual SPI device and
/// registers the bus as that device's client.
pub struct SpiBusComponent {}

impl SpiBusComponent {
    /// Configuration: the builder carries none; the SPI mux and the bus's
    /// virtual device arrive at finalization.
    pub fn new() -> (c: SpiBusComponent) {
        SpiBusComponent {  }
    }

    /// Consumes the builder and the slot: stores the bus driver bound to
    /// its virtual SPI device and wires the bus as that device's
    /// completion client.
    pub fn finalize(
        self,
        storage: &mut Storage<SpiBus>,
        slot: Slot,
        spi_mux: &mut Mux,
        device: usize,
    ) -> (h: Handle)
        requires
            old(storage)@.wf(),
            old(storage)@.accepts(slot),
            old(spi_mux)@.wf(),
            device < old(spi_mux)@.clients.len(),
            old(spi_mux)@.clients[device as int] is None,
        ensures
            final(storage)@.wf(),
            final(spi_mux)@.wf(),
            h.cell() == slot.cell(),
            final(storage)@.issued == old(storage)@.issued,
            final(storage)@.cells.len() == old(storage)@.cells.len(),
            ({
                let cell = final(storage)@.cells[h.cell()];
                &&& cell matches Some(b)
                &&& b.device == device
            }),
            forall|j: int|
                0 <= j < old(storage)@.cells.len() && j != slot.cell()
                    ==> final(storage)@.cells[j] == old(storage)@.cells[j],
            final(spi_mux)@.clients == old(spi_mux)@.clients.update(
                device as int,
                Some(slot.cell() as usize),
            ),
            final(spi_mux)@.active == old(spi_mux)@.active,
            final(spi_mux)@.queue == old(spi_mux)@.queue,
            final(spi_mux)@.capacity == old(spi_mux)@.capacity,
    {
        let bus = SpiBus { device };
        let handle = storage.finalize(slot, bus);
        spi_mux.set_client(device, handle.index());
        handle
    }
}

/// Builds the ST7735 display driver: a virtual alarm on the shared timer
/// mux for its delays, the driver record, and both client registrations —
/// on the bus and on the alarm.
pub struct ST7735Component {
    alarm_mux: Handle,
}

impl ST7735Component {
    /// The registry cell of the alarm mux the driver's timer lives on.
    pub closed spec fn spec_alarm_mux(&self) -> Handle {
        self.alarm_mux
    }

    /// Configuration: the finalized alarm mux.
    pub fn new(alarm_mux: Handle) -> (c: ST7735Component)
        ensures
            c.spec_alarm_mux() == alarm_mux,
    {
        ST7735Component { alarm_mux }
    }

    /// Consumes the builder and the slot: registers a virtual alarm for
    /// the driver, stores the driver, and wires it as the client of both
    /// the bus and its alarm.
    pub fn finalize(
        self,
        storage: &mut Storage<St7735>,
        slot: Slot,
        alarm_mux: &mut Mux,
        bus: &mut Peripheral,
        dc: Option<u32>,
        reset: u32,
    ) -> (h: Handle)
        requires
            old(storage)@.wf(),
            old(storage)@.accepts(slot),
            old(alarm_mux)@.wf(),
            old(alarm_mux)@.clients.len() < usize::MAX,
            old(bus).spec_client() is None,
        ensures
            final(storage)@.wf(),
            final(alarm_mux)@.wf(),
            h.cell() == slot.cell(),
            final(storage)@.issued == old(storage)@.issued,
            final(storage)@.cells.len() == old(storage)@.cells.len(),
            ({
                let cell = final(storage)@.cells[h.cell()];
                &&& cell matches Some(d)
                &&& d.alarm_mux == self.spec_alarm_mux()
                &&& d.alarm_device == old(alarm_mux)@.clients.len()
                &&& d.dc == dc
                &&& d.reset == reset
            }),
            forall|j: int|
                0 <= j < old(storage)@.cells.len() && j != slot.cell()
                    ==> final(storage)@.cells[j] == old(storage)@.cells[j],
            final(alarm_mux)@.clients == old(alarm_mux)@.clients.push(
                Some(slot.cell() as usize),
            ),
            final(alarm_mux)@.active == old(alarm_mux)@.active,
            final(alarm_mux)@.queue == old(alarm_mux)@.queue,
            final(alarm_mux)@.capacity == old(alarm_mux)@.capacity,
            final(bus).spec_client() == Some(slot.cell() as usize),
    {
        let alarm_device = alarm_mux.register();
        let driver = St7735 { alarm_mux: self.alarm_mux, alarm_device, dc, reset };
        let handle = storage.finalize(slot, driver);
        bus.set_client(handle.index());
        alarm_mux.set_client(alarm_device, handle.index());
        proof {
            assert(alarm_mux@.clients =~= old(alarm_mux)@.clients.push(
                Some(slot.cell() as usize),
            ));
        }
        handle
    }
}

/// Builds an ST77XX-family display driver: as [`ST7735Component`], with
/// the screen variant as one more piece of configuration.
pub struct ST77XXComponent {
    alarm_mux: Handle,
}

impl ST77XXComponent {
    /// The registry cell of the alarm mux the driver's timer lives on.
    pub closed spec fn spec_alarm_mux(&self) -> Handle {
        self.alarm_mux
    }

    /// Configuration: the finalized alarm mux.
    pub fn new(alarm_mux: Handle) -> (c: ST77XXComponent)
        ensures
            c.spec_alarm_mux() == alarm_mux,
    {
        ST77XXComponent { alarm_mux }
    }

    /// Consumes the builder and the slot: registers a virtual alarm for
    /// the driver, stores the driver for the given screen variant, and
    /// wires it as the client of both the bus and its alarm.
    pub fn finalize(
        self,
        storage: &mut Storage<St77xx>,
        slot: Slot,
        alarm_mux: &mut Mux,
        bus: &mut Peripheral,
        dc: Option<u32>,
        reset: u32,
        screen: ScreenKind,
    ) -> (h: Handle)
        requires
            old(storage)@.wf(),
            old(storage)@.accepts(slot),
            old(alarm_mux)@.wf(),
            old(alarm_mux)@.clients.len() < usize::MAX,
            old(bus).spec_client() is None,
        ensures
            final(storage)@.wf(),
            final(alarm_mux)@.wf(),
            h.cell() == slot.cell(),
            final(storage)@.issued == old(storage)@.issued,
            final(storage)@.cells.len() == old(storage)@.cells.len(),
            ({
                let cell = final(storage)@.cells[h.cell()];
                &&& cell matches Some(d)
                &&& d.alarm_mux == self.spec_alarm_mux()
                &&& d.alarm_device == old(alarm_mux)@.clients.len()
                &&& d.dc == dc
                &&& d.reset == reset
                &&& d.screen == screen
            }),
            forall|j: int|
                0 <= j < old(storage)@.cells.len() && j != slot.cell()
                    ==> final(storage)@.cells[j] == old(storage)@.cells[j],
            final(alarm_mux)@.clients == old(alarm_mux)@.clients.push(
                Some(slot.cell() as usize),
            ),
            final(alarm_mux)@.active == old(alarm_mux)@.active,
            final(alarm_mux)@.queue == old(alarm_mux)@.queue,
            final(alarm_mux)@.capacity == old(alarm_mux)@.capacity,
            final(bus).spec_client() == Some(slot.cell() as usize),
    {
        let alarm_device = alarm_mux.register();
        let driver = St77xx { alarm_mux: self.alarm_mux, alarm_device, dc, reset, screen };
        let handle = storage.finalize(slot, driver);
        bus.set_client(handle.index());
        alarm_mux.set_client(alarm_device, handle.index());
        proof {
            assert(alarm_mux@.clients =~= old(alarm_mux)@.clients.push(
                Some(slot.cell() as usize),
            ));
        }
        handle
    }
}

} // verus!
