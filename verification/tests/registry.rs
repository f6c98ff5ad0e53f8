use esp_hal::peripherals::{OptionalPeripherals, Peripherals, UART0};

#[test]
fn take_once_yields_full_registry() {
    let mut taken = false;
    let registry = Peripherals::take(&mut taken);
    assert!(taken);
    let registry = registry.expect("first take must succeed");
    // Every configured identity is there, exactly once, and usable.
    let optional = OptionalPeripherals::from(registry);
    assert!(optional.UART0.is_some());
    assert!(optional.UART1.is_some());
    assert!(optional.SPI2.is_some());
    assert!(optional.I2C0.is_some());
    assert!(optional.TIMG0.is_some());
    assert!(optional.SW_INTERRUPT.is_some());
    assert!(optional.RADIO_CLK.is_some());
}

#[test]
fn take_twice_is_refused() {
    let mut taken = false;
    let first = Peripherals::take(&mut taken);
    assert!(first.is_some());
    let second = Peripherals::take(&mut taken);
    assert!(second.is_none());
    assert!(taken);
}

#[test]
fn take_with_flag_already_set_is_refused() {
    let mut taken = true;
    assert!(Peripherals::take(&mut taken).is_none());
    assert!(taken);
}

#[test]
fn registry_steal_skips_the_flag() {
    let mut taken = false;
    let first = Peripherals::take(&mut taken);
    assert!(first.is_some());
    // The unchecked bulk path ignores the "already initialized" flag.
    let _second = Peripherals::steal();
    assert!(taken);
}

#[test]
fn optional_registry_claims_leave_slots_absent() {
    let registry = Peripherals::steal();
    let mut optional = OptionalPeripherals::from(registry);
    // Pin slots start absent, to be populated by the pin layer later.
    assert!(optional.GPIO_0.is_none());
    assert!(optional.GPIO_1.is_none());
    assert!(optional.GPIO_2.is_none());
    assert!(optional.GPIO_3.is_none());
    // Claiming a present slot moves the identity out and leaves it absent.
    let claimed: UART0 = optional.UART0.take().expect("slot starts present");
    assert!(optional.UART0.is_none());
    // The claimed identity is the configured one: its register block sits
    // at the configured fixed address.
    assert_eq!(UART0::ptr(), 0x6000_0000);
    drop(claimed);
    // The other slots are untouched by the claim.
    assert!(optional.UART1.is_some());
    assert!(optional.RADIO_CLK.is_some());
}

#[test]
fn pin_slots_are_populated_by_the_pin_layer() {
    let registry = Peripherals::steal();
    let mut optional = OptionalPeripherals::from(registry);
    assert!(optional.GPIO_2.is_none());
    // The pin abstraction layer brings the pin identities up later and
    // populates the reserved slots.
    optional.GPIO_2 = Some(esp_hal::gpio::GPIO_2::steal());
    assert!(optional.GPIO_2.is_some());
}
