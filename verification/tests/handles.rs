use esp_hal::interrupt::{Interrupt, InterruptController};
use esp_hal::peripheral::{Peripheral, PeripheralRef};
use esp_hal::peripherals::{SPI2, TIMG0, UART0, UART1};

#[test]
fn ptr_returns_the_configured_address_on_every_call() {
    assert_eq!(UART0::ptr(), 0x6000_0000);
    assert_eq!(UART0::ptr(), UART0::ptr());
    assert_eq!(UART1::ptr(), 0x6001_0000);
    assert_eq!(SPI2::ptr(), 0x6002_4000);
    assert_eq!(TIMG0::ptr(), 0x6001_f000);
}

#[test]
fn steal_twice_yields_independently_usable_values() {
    // Nothing checks this path at run time: both instances work.
    let mut first = UART0::steal();
    let mut second = UART0::steal();
    let mut controller = InterruptController::new();
    first.bind_uart0_interrupt(&mut controller, 0x4000_1000);
    second.bind_uart0_interrupt(&mut controller, 0x4000_2000);
    assert_eq!(controller.bound_handler(Interrupt::Uart0), Some(0x4000_2000));
}

#[test]
fn reborrowed_parent_is_usable_after_child_scope_ends() {
    let uart = UART0::steal();
    let mut parent: PeripheralRef<'_, UART0> = uart.into_ref();
    let mut controller = InterruptController::new();
    {
        let mut child = parent.reborrow();
        // While the child lives, the parent is statically unusable; the
        // child gives the same access the parent would.
        child.inner_mut().bind_uart0_interrupt(&mut controller, 0x4000_3000);
    }
    // The child's scope has ended: the parent works again.
    parent.inner_mut().bind_uart0_interrupt(&mut controller, 0x4000_4000);
    assert_eq!(controller.bound_handler(Interrupt::Uart0), Some(0x4000_4000));
}

#[test]
fn into_ref_on_a_mutable_borrow_keeps_the_owner() {
    let mut uart = UART0::steal();
    let mut controller = InterruptController::new();
    {
        let mut borrowed: PeripheralRef<'_, UART0> = (&mut uart).into_ref();
        borrowed.inner_mut().bind_uart0_interrupt(&mut controller, 0x4000_5000);
    }
    // The borrow has ended: the owned identity is usable again.
    uart.bind_uart0_interrupt(&mut controller, 0x4000_6000);
    assert_eq!(controller.bound_handler(Interrupt::Uart0), Some(0x4000_6000));
}

#[test]
fn clone_unchecked_duplicates_the_handle() {
    let uart = UART0::steal();
    let mut parent: PeripheralRef<'static, UART0> = uart.into_ref();
    let mut duplicate = parent.clone_unchecked();
    let mut controller = InterruptController::new();
    duplicate.inner_mut().bind_uart0_interrupt(&mut controller, 0x4000_7000);
    parent.inner_mut().bind_uart0_interrupt(&mut controller, 0x4000_8000);
    assert_eq!(controller.bound_handler(Interrupt::Uart0), Some(0x4000_8000));
}

#[test]
fn virtual_identities_support_the_capability_contract() {
    // A virtual peripheral has no address or register access; the
    // capability contract is all there is to it.
    let sw = esp_hal::peripherals::SW_INTERRUPT::steal();
    let mut handle = sw.into_ref();
    let child = handle.reborrow();
    drop(child);
    let again = handle.reborrow();
    drop(again);
}
