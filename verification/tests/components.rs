use board_core::components::AdcComponent;
use board_core::components::AdcDevice;
use board_core::components::AdcMuxComponent;
use board_core::components::AdcSyscall;
use board_core::components::AdcSyscallComponent;
use board_core::components::Peripheral;
use board_core::components::ScreenKind;
use board_core::components::SpiBus;
use board_core::components::SpiBusComponent;
use board_core::components::ST77XXComponent;
use board_core::components::ST7735Component;
use board_core::components::St77xx;
use board_core::components::St7735;
use board_core::grant::Kernel;
use board_core::mux::Mux;
use board_core::storage::Storage;

#[test]
fn adc_mux_component_wires_converter_client() {
    let mut muxes: Storage<Mux> = Storage::new(1);
    let mut adc = Peripheral::new();
    assert_eq!(adc.client(), None);

    let slot = muxes.reserve().unwrap();
    let mux_handle = AdcMuxComponent::new(0, 4).finalize(&mut muxes, slot, &mut adc);

    // The sole client registration happens inside finalize.
    assert_eq!(adc.client(), Some(mux_handle.index()));
    let mux = muxes.get(mux_handle);
    assert!(mux.is_idle());
    assert_eq!(mux.capacity(), 4);
    assert_eq!(mux.device_count(), 0);
}

#[test]
fn adc_component_registers_device_on_mux() {
    let mut muxes: Storage<Mux> = Storage::new(1);
    let mut adc = Peripheral::new();
    let slot = muxes.reserve().unwrap();
    let mux_handle = AdcMuxComponent::new(0, 4).finalize(&mut muxes, slot, &mut adc);

    let mut devices: Storage<AdcDevice> = Storage::new(2);
    let s0 = devices.reserve().unwrap();
    let s1 = devices.reserve().unwrap();

    let d0 = AdcComponent::new(mux_handle, 7).finalize(&mut devices, s0, muxes.get_mut(mux_handle));
    let d1 = AdcComponent::new(mux_handle, 9).finalize(&mut devices, s1, muxes.get_mut(mux_handle));

    assert_eq!(muxes.get(mux_handle).device_count(), 2);
    let rec0 = devices.get(d0);
    let rec1 = devices.get(d1);
    assert_eq!(rec0.channel, 7);
    assert_eq!(rec0.device, 0);
    assert_eq!(rec1.channel, 9);
    assert_eq!(rec1.device, 1);
    // Virtual devices are registered but their client is not yet set.
    assert_eq!(muxes.get(mux_handle).client_of(0), None);
    assert_eq!(muxes.get(mux_handle).client_of(1), None);
}

#[test]
fn adc_syscall_component_creates_grant_and_fans_out() {
    let mut kernel = Kernel::new();
    let mut mux = Mux::new(4);
    let d0 = mux.register();
    let d1 = mux.register();

    let mut syscalls: Storage<AdcSyscall> = Storage::new(1);
    let slot = syscalls.reserve().unwrap();
    let channels = vec![d0, d1];

    let handle = AdcSyscallComponent::new().finalize(
        &mut syscalls,
        slot,
        &mut kernel,
        &mut mux,
        &channels,
    );

    // One grant region was created through the capability check.
    assert_eq!(kernel.create_capability().is_some(), true);
    let driver = syscalls.get(handle);
    assert_eq!(driver.grant.index(), 0);
    assert_eq!(driver.channels, channels);
    // The driver is the client of each of its channels.
    assert_eq!(mux.client_of(d0), Some(handle.index()));
    assert_eq!(mux.client_of(d1), Some(handle.index()));
}

#[test]
fn spi_bus_component_wires_virtual_device() {
    let mut spi_mux = Mux::new(2);
    let device = spi_mux.register();

    let mut buses: Storage<SpiBus> = Storage::new(1);
    let slot = buses.reserve().unwrap();
    let handle = SpiBusComponent::new().finalize(&mut buses, slot, &mut spi_mux, device);

    assert_eq!(buses.get(handle).device, device);
    assert_eq!(spi_mux.client_of(device), Some(handle.index()));
}

#[test]
fn st7735_component_wires_bus_and_alarm() {
    let mut alarm_mux = Mux::new(3);
    let mut bus = Peripheral::new();
    let mut screens: Storage<St7735> = Storage::new(1);

    let mut alarm_muxes: Storage<Mux> = Storage::new(1);
    let am_slot = alarm_muxes.reserve().unwrap();
    let am_handle = alarm_muxes.finalize(am_slot, Mux::new(3));

    let slot = screens.reserve().unwrap();
    let handle = ST7735Component::new(am_handle).finalize(
        &mut screens,
        slot,
        &mut alarm_mux,
        &mut bus,
        Some(17),
        23,
    );

    let driver = screens.get(handle);
    assert_eq!(driver.alarm_device, 0);
    assert_eq!(driver.dc, Some(17));
    assert_eq!(driver.reset, 23);
    // Both registrations happened: on the bus and on the alarm mux.
    assert_eq!(bus.client(), Some(handle.index()));
    assert_eq!(alarm_mux.client_of(driver.alarm_device), Some(handle.index()));
}

#[test]
fn st77xx_component_carries_screen_kind() {
    let mut alarm_mux = Mux::new(3);
    let d_existing = alarm_mux.register();
    alarm_mux.set_client(d_existing, 99);

    let mut bus = Peripheral::new();
    let mut screens: Storage<St77xx> = Storage::new(1);

    let mut alarm_muxes: Storage<Mux> = Storage::new(1);
    let am_slot = alarm_muxes.reserve().unwrap();
    let am_handle = alarm_muxes.finalize(am_slot, Mux::new(3));

    let slot = screens.reserve().unwrap();
    let handle = ST77XXComponent::new(am_handle).finalize(
        &mut screens,
        slot,
        &mut alarm_mux,
        &mut bus,
        None,
        4,
        ScreenKind::St7789h2,
    );

    let driver = screens.get(handle);
    assert_eq!(driver.screen, ScreenKind::St7789h2);
    assert_eq!(driver.dc, None);
    // The new alarm device comes after the existing one, whose client is
    // untouched.
    assert_eq!(driver.alarm_device, 1);
    assert_eq!(alarm_mux.client_of(d_existing), Some(99));
    assert_eq!(alarm_mux.client_of(driver.alarm_device), Some(handle.index()));
}
