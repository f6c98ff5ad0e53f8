use esp_hal::interrupt::{Interrupt, InterruptController};
use esp_hal::peripherals::TIMG0;

#[test]
fn fresh_controller_has_no_registrations() {
    let controller = InterruptController::new();
    assert_eq!(controller.bound_handler(Interrupt::Uart0), None);
    assert_eq!(controller.bound_handler(Interrupt::Uart1), None);
    assert_eq!(controller.bound_handler(Interrupt::Spi2), None);
    assert_eq!(controller.bound_handler(Interrupt::Tg0T0Level), None);
    assert_eq!(controller.bound_handler(Interrupt::Tg0WdtLevel), None);
}

#[test]
fn two_lines_of_one_peripheral_hold_independent_handlers() {
    let mut timer_group = TIMG0::steal();
    let mut controller = InterruptController::new();
    timer_group.bind_tg0_t0_level_interrupt(&mut controller, 0x4008_0000);
    timer_group.bind_tg0_wdt_level_interrupt(&mut controller, 0x4008_0100);
    // Both registrations are in the table, each under its own line.
    assert_eq!(
        controller.bound_handler(Interrupt::Tg0T0Level),
        Some(0x4008_0000)
    );
    assert_eq!(
        controller.bound_handler(Interrupt::Tg0WdtLevel),
        Some(0x4008_0100)
    );
    // Lines of other peripherals are untouched.
    assert_eq!(controller.bound_handler(Interrupt::Uart0), None);
}

#[test]
fn rebinding_a_line_replaces_its_handler_only() {
    let mut controller = InterruptController::new();
    controller.bind_interrupt(Interrupt::Spi2, 0x4200_0000);
    controller.bind_interrupt(Interrupt::Uart1, 0x4200_0040);
    controller.bind_interrupt(Interrupt::Spi2, 0x4200_0080);
    assert_eq!(controller.bound_handler(Interrupt::Spi2), Some(0x4200_0080));
    assert_eq!(controller.bound_handler(Interrupt::Uart1), Some(0x4200_0040));
}
