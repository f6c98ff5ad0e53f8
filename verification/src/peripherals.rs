//! The configured peripheral set: one identity type per peripheral, the
//! registry that owns one instance of each, and the claimable registry.
//!
//! This module is the expansion of the declarative peripheral table for one
//! hardware variant. Each entry names the peripheral, says whether it is
//! backed by a register block (and at which fixed base address) or virtual,
//! and lists the interrupt lines it may bind handlers on:
//!
//! | peripheral     | backing              | interrupt lines            |
//! |----------------|----------------------|----------------------------|
//! | `UART0`        | `0x6000_0000`        | `Uart0`                    |
//! | `UART1`        | `0x6001_0000`        | `Uart1`                    |
//! | `SPI2`         | `0x6002_4000`        | `Spi2`                     |
//! | `I2C0`         | `0x6001_3000`        | —                          |
//! | `TIMG0`        | `0x6001_f000`        | `Tg0T0Level`, `Tg0WdtLevel`|
//! | `SW_INTERRUPT` | virtual              | —                          |
//! | `RADIO_CLK`    | virtual              | —                          |
//!
//! Supporting another hardware variant means changing this table and its
//! expansion, not the capability contract or the handle type.

use crate::interrupt::{Interrupt, InterruptController};
use crate::peripheral::{Identified, Peripheral, PeripheralRef};
use vstd::prelude::*;

verus! {

/// Identity number of `UART0`.
pub const UART0_ID: u8 = 1;

/// Identity number of `UART1`.
pub const UART1_ID: u8 = 2;

/// Identity number of `SPI2`.
pub const SPI2_ID: u8 = 3;

/// Identity number of `I2C0`.
pub const I2C0_ID: u8 = 4;

/// Identity number of `TIMG0`.
pub const TIMG0_ID: u8 = 5;

/// Identity number of `SW_INTERRUPT`.
pub const SW_INTERRUPT_ID: u8 = 6;

/// Identity number of `RADIO_CLK`.
pub const RADIO_CLK_ID: u8 = 7;

/// Fixed base address of the `UART0` register block.
pub const UART0_BASE: usize = 0x6000_0000;

/// Fixed base address of the `UART1` register block.
pub const UART1_BASE: usize = 0x6001_0000;

/// Fixed base address of the `SPI2` register block.
pub const SPI2_BASE: usize = 0x6002_4000;

/// Fixed base address of the `I2C0` register block.
pub const I2C0_BASE: usize = 0x6001_3000;

/// Fixed base address of the `TIMG0` register block.
pub const TIMG0_BASE: usize = 0x6001_f000;

/// Identity of the `UART0` peripheral: register block at `UART0_BASE`,
/// one interrupt line.
pub struct UART0 {
    _inner: (),
}

impl UART0 {
    /// Create an instance of this peripheral out of thin air, with no
    /// uniqueness tracking: the caller must ensure that only one instance
    /// is in use at a time.
    pub fn steal() -> (r: Self)
        ensures
            r.id() == UART0_ID as int,
    {
        Self { _inner: () }
    }

    /// The fixed base address of this peripheral's register block: the
    /// same configured address on every call. The address is trusted as
    /// configured; no liveness or bounds checking stands behind it.
    pub fn ptr() -> (r: usize)
        ensures
            r == UART0_BASE,
    {
        UART0_BASE
    }

    /// Register `handler` with the interrupt controller for this
    /// peripheral's `Uart0` line. `handler` is the address of the service
    /// routine; that it is a sound routine is the caller's obligation.
    pub fn bind_uart0_interrupt(&mut self, ctl: &mut InterruptController, handler: usize)
        ensures
            (*final(ctl)).handler(Interrupt::Uart0) == Some(handler),
            forall|other: Interrupt|
                other != Interrupt::Uart0 ==> (*final(ctl)).handler(other) == old(
                    ctl,
                ).handler(other),
            *final(self) == *old(self),
    {
        ctl.bind_interrupt(Interrupt::Uart0, handler)
    }
}

impl Identified for UART0 {
    open spec fn id(&self) -> int {
        UART0_ID as int
    }
}

impl Peripheral for UART0 {
    type P = UART0;

    fn clone_unchecked(&mut self) -> (r: UART0) {
        UART0::steal()
    }

    fn into_ref<'a>(self) -> (r: PeripheralRef<'a, UART0>) {
        let mut this = self;
        PeripheralRef::new(this.clone_unchecked())
    }
}

impl crate::private::Sealed for UART0 {
}

/// Identity of the `UART1` peripheral: register block at `UART1_BASE`,
/// one interrupt line.
pub struct UART1 {
    _inner: (),
}

impl UART1 {
    /// Create an instance of this peripheral out of thin air, with no
    /// uniqueness tracking: the caller must ensure that only one instance
    /// is in use at a time.
    pub fn steal() -> (r: Self)
        ensures
            r.id() == UART1_ID as int,
    {
        Self { _inner: () }
    }

    /// The fixed base address of this peripheral's register block: the
    /// same configured address on every call. The address is trusted as
    /// configured; no liveness or bounds checking stands behind it.
    pub fn ptr() -> (r: usize)
        ensures
            r == UART1_BASE,
    {
        UART1_BASE
    }

    /// Register `handler` with the interrupt controller for this
    /// peripheral's `Uart1` line. `handler` is the address of the service
    /// routine; that it is a sound routine is the caller's obligation.
    pub fn bind_uart1_interrupt(&mut self, ctl: &mut InterruptController, handler: usize)
        ensures
            (*final(ctl)).handler(Interrupt::Uart1) == Some(handler),
            forall|other: Interrupt|
                other != Interrupt::Uart1 ==> (*final(ctl)).handler(other) == old(
                    ctl,
                ).handler(other),
            *final(self) == *old(self),
    {
        ctl.bind_interrupt(Interrupt::Uart1, handler)
    }
}

impl Identified for UART1 {
    open spec fn id(&self) -> int {
        UART1_ID as int
    }
}

impl Peripheral for UART1 {
    type P = UART1;

    fn clone_unchecked(&mut self) -> (r: UART1) {
        UART1::steal()
    }

    fn into_ref<'a>(self) -> (r: PeripheralRef<'a, UART1>) {
        let mut this = self;
        PeripheralRef::new(this.clone_unchecked())
    }
}

impl crate::private::Sealed for UART1 {
}

/// Identity of the `SPI2` peripheral: register block at `SPI2_BASE`,
/// one interrupt line.
pub struct SPI2 {
    _inner: (),
}

impl SPI2 {
    /// Create an instance of this peripheral out of thin air, with no
    /// uniqueness tracking: the caller must ensure that only one instance
    /// is in use at a time.
    pub fn steal() -> (r: Self)
        ensures
            r.id() == SPI2_ID as int,
    {
        Self { _inner: () }
    }

    /// The fixed base address of this peripheral's register block: the
    /// same configured address on every call. The address is trusted as
    /// configured; no liveness or bounds checking stands behind it.
    pub fn ptr() -> (r: usize)
        ensures
            r == SPI2_BASE,
    {
        SPI2_BASE
    }

    /// Register `handler` with the interrupt controller for this
    /// peripheral's `Spi2` line. `handler` is the address of the service
    /// routine; that it is a sound routine is the caller's obligation.
    pub fn bind_spi2_interrupt(&mut self, ctl: &mut InterruptController, handler: usize)
        ensures
            (*final(ctl)).handler(Interrupt::Spi2) == Some(handler),
            forall|other: Interrupt|
                other != Interrupt::Spi2 ==> (*final(ctl)).handler(other) == old(
                    ctl,
                ).handler(other),
            *final(self) == *old(self),
    {
        ctl.bind_interrupt(Interrupt::Spi2, handler)
    }
}

impl Identified for SPI2 {
    open spec fn id(&self) -> int {
        SPI2_ID as int
    }
}

impl Peripheral for SPI2 {
    type P = SPI2;

    fn clone_unchecked(&mut self) -> (r: SPI2) {
        SPI2::steal()
    }

    fn into_ref<'a>(self) -> (r: PeripheralRef<'a, SPI2>) {
        let mut this = self;
        PeripheralRef::new(this.clone_unchecked())
    }
}

impl crate::private::Sealed for SPI2 {
}

/// Identity of the `I2C0` peripheral: register block at `I2C0_BASE`,
/// no interrupt line.
pub struct I2C0 {
    _inner: (),
}

impl I2C0 {
    /// Create an instance of this peripheral out of thin air, with no
    /// uniqueness tracking: the caller must ensure that only one instance
    /// is in use at a time.
    pub fn steal() -> (r: Self)
        ensures
            r.id() == I2C0_ID as int,
    {
        Self { _inner: () }
    }

    /// The fixed base address of this peripheral's register block: the
    /// same configured address on every call. The address is trusted as
    /// configured; no liveness or bounds checking stands behind it.
    pub fn ptr() -> (r: usize)
        ensures
            r == I2C0_BASE,
    {
        I2C0_BASE
    }
}

impl Identified for I2C0 {
    open spec fn id(&self) -> int {
        I2C0_ID as int
    }
}

impl Peripheral for I2C0 {
    type P = I2C0;

    fn clone_unchecked(&mut self) -> (r: I2C0) {
        I2C0::steal()
    }

    fn into_ref<'a>(self) -> (r: PeripheralRef<'a, I2C0>) {
        let mut this = self;
        PeripheralRef::new(this.clone_unchecked())
    }
}

impl crate::private::Sealed for I2C0 {
}

/// Identity of the `TIMG0` peripheral: register block at `TIMG0_BASE`,
/// two interrupt lines.
pub struct TIMG0 {
    _inner: (),
}

impl TIMG0 {
    /// Create an instance of this peripheral out of thin air, with no
    /// uniqueness tracking: the caller must ensure that only one instance
    /// is in use at a time.
    pub fn steal() -> (r: Self)
        ensures
            r.id() == TIMG0_ID as int,
    {
        Self { _inner: () }
    }

    /// The fixed base address of this peripheral's register block: the
    /// same configured address on every call. The address is trusted as
    /// configured; no liveness or bounds checking stands behind it.
    pub fn ptr() -> (r: usize)
        ensures
            r == TIMG0_BASE,
    {
        TIMG0_BASE
    }

    /// Register `handler` with the interrupt controller for this
    /// peripheral's `Tg0T0Level` line. `handler` is the address of the service
    /// routine; that it is a sound routine is the caller's obligation.
    pub fn bind_tg0_t0_level_interrupt(&mut self, ctl: &mut InterruptController, handler: usize)
        ensures
            (*final(ctl)).handler(Interrupt::Tg0T0Level) == Some(handler),
            forall|other: Interrupt|
                other != Interrupt::Tg0T0Level ==> (*final(ctl)).handler(other) == old(
                    ctl,
                ).handler(other),
            *final(self) == *old(self),
    {
        ctl.bind_interrupt(Interrupt::Tg0T0Level, handler)
    }

    /// Register `handler` with the interrupt controller for this
    /// peripheral's `Tg0WdtLevel` line. `handler` is the address of the service
    /// routine; that it is a sound routine is the caller's obligation.
    pub fn bind_tg0_wdt_level_interrupt(&mut self, ctl: &mut InterruptController, handler: usize)
        ensures
            (*final(ctl)).handler(Interrupt::Tg0WdtLevel) == Some(handler),
            forall|other: Interrupt|
                other != Interrupt::Tg0WdtLevel ==> (*final(ctl)).handler(other) == old(
                    ctl,
                ).handler(other),
            *final(self) == *old(self),
    {
        ctl.bind_interrupt(Interrupt::Tg0WdtLevel, handler)
    }
}

impl Identified for TIMG0 {
    open spec fn id(&self) -> int {
        TIMG0_ID as int
    }
}

impl Peripheral for TIMG0 {
    type P = TIMG0;

    fn clone_unchecked(&mut self) -> (r: TIMG0) {
        TIMG0::steal()
    }

    fn into_ref<'a>(self) -> (r: PeripheralRef<'a, TIMG0>) {
        let mut this = self;
        PeripheralRef::new(this.clone_unchecked())
    }
}

impl crate::private::Sealed for TIMG0 {
}

/// Identity of the `SW_INTERRUPT` peripheral: virtual, with no backing
/// hardware, so no register-block address and no register access are
/// exposed on it.
#[allow(non_camel_case_types)]
pub struct SW_INTERRUPT {
    _inner: (),
}

impl SW_INTERRUPT {
    /// Create an instance of this peripheral out of thin air, with no
    /// uniqueness tracking: the caller must ensure that only one instance
    /// is in use at a time.
    pub fn steal() -> (r: Self)
        ensures
            r.id() == SW_INTERRUPT_ID as int,
    {
        Self { _inner: () }
    }
}

impl Identified for SW_INTERRUPT {
    open spec fn id(&self) -> int {
        SW_INTERRUPT_ID as int
    }
}

impl Peripheral for SW_INTERRUPT {
    type P = SW_INTERRUPT;

    fn clone_unchecked(&mut self) -> (r: SW_INTERRUPT) {
        SW_INTERRUPT::steal()
    }

    fn into_ref<'a>(self) -> (r: PeripheralRef<'a, SW_INTERRUPT>) {
        let mut this = self;
        PeripheralRef::new(this.clone_unchecked())
    }
}

impl crate::private::Sealed for SW_INTERRUPT {
}

/// Identity of the `RADIO_CLK` peripheral: virtual, with no backing
/// hardware, so no register-block address and no register access are
/// exposed on it.
#[allow(non_camel_case_types)]
pub struct RADIO_CLK {
    _inner: (),
}

impl RADIO_CLK {
    /// Create an instance of this peripheral out of thin air, with no
    /// uniqueness tracking: the caller must ensure that only one instance
    /// is in use at a time.
    pub fn steal() -> (r: Self)
        ensures
            r.id() == RADIO_CLK_ID as int,
    {
        Self { _inner: () }
    }
}

impl Identified for RADIO_CLK {
    open spec fn id(&self) -> int {
        RADIO_CLK_ID as int
    }
}

impl Peripheral for RADIO_CLK {
    type P = RADIO_CLK;

    fn clone_unchecked(&mut self) -> (r: RADIO_CLK) {
        RADIO_CLK::steal()
    }

    fn into_ref<'a>(self) -> (r: PeripheralRef<'a, RADIO_CLK>) {
        let mut this = self;
        PeripheralRef::new(this.clone_unchecked())
    }
}

impl crate::private::Sealed for RADIO_CLK {
}

/// The registry: a fixed-shape aggregate holding exactly one instance of
/// every configured peripheral identity.
///
/// At most one `Peripherals` is ever materialized through the guarded
/// [`Peripherals::take`] path per process run; [`Peripherals::steal`] is
/// the explicitly unchecked escape from that invariant.
#[allow(non_snake_case)]
pub struct Peripherals {
    /// The `UART0` peripheral identity.
    pub UART0: UART0,
    /// The `UART1` peripheral identity.
    pub UART1: UART1,
    /// The `SPI2` peripheral identity.
    pub SPI2: SPI2,
    /// The `I2C0` peripheral identity.
    pub I2C0: I2C0,
    /// The `TIMG0` peripheral identity.
    pub TIMG0: TIMG0,
    /// The `SW_INTERRUPT` peripheral identity.
    pub SW_INTERRUPT: SW_INTERRUPT,
    /// The `RADIO_CLK` peripheral identity.
    pub RADIO_CLK: RADIO_CLK,
}

impl Peripherals {
    /// Every slot of the registry holds the identity it is configured for.
    pub open spec fn configured(self) -> bool {
        &&& self.UART0.id() == UART0_ID as int
        &&& self.UART1.id() == UART1_ID as int
        &&& self.SPI2.id() == SPI2_ID as int
        &&& self.I2C0.id() == I2C0_ID as int
        &&& self.TIMG0.id() == TIMG0_ID as int
        &&& self.SW_INTERRUPT.id() == SW_INTERRUPT_ID as int
        &&& self.RADIO_CLK.id() == RADIO_CLK_ID as int
    }

    /// The identities of the registry's slots, in configuration order.
    pub open spec fn slot_ids(self) -> Seq<int> {
        seq![
            self.UART0.id(),
            self.UART1.id(),
            self.SPI2.id(),
            self.I2C0.id(),
            self.TIMG0.id(),
            self.SW_INTERRUPT.id(),
            self.RADIO_CLK.id(),
        ]
    }

    /// Returns all the peripherals, once per process run.
    ///
    /// `taken` is the process-wide "already initialized" flag. The platform
    /// layer owns one such flag for the whole process, initially false, and
    /// must pass it in under a critical section, so that the check-and-set
    /// here is atomic with respect to interrupt contexts.
    ///
    /// The first call finds the flag clear, sets it, and yields the one
    /// sanctioned registry. Every later call finds the flag set and yields
    /// `None`: a programming error ("init called more than once"), on which
    /// the platform layer halts rather than continuing with two owners.
    pub fn take(taken: &mut bool) -> (r: Option<Peripherals>)
        ensures
            *final(taken) == true,
            r is Some <==> *old(taken) == false,
            r matches Some(p) ==> p.configured(),
    {
        if *taken {
            None
        } else {
            *taken = true;
            Some(Self::steal())
        }
    }

    /// Create an instance of the whole registry out of thin air, with no
    /// uniqueness tracking: the bulk equivalent of the per-peripheral
    /// `steal`, skipping the "already initialized" flag entirely. The
    /// caller must ensure that only one instance of each peripheral is in
    /// use at a time.
    pub fn steal() -> (r: Self)
        ensures
            r.configured(),
    {
        Self {
            UART0: UART0::steal(),
            UART1: UART1::steal(),
            SPI2: SPI2::steal(),
            I2C0: I2C0::steal(),
            TIMG0: TIMG0::steal(),
            SW_INTERRUPT: SW_INTERRUPT::steal(),
            RADIO_CLK: RADIO_CLK::steal(),
        }
    }
}

/// The claimable registry: structurally the `Peripherals` with each slot
/// wrapped in `Option`, plus one slot per pin, populated later by the pin
/// abstraction layer.
///
/// A subsystem claims a slot by moving the identity out (for example with
/// `Option::take`), leaving the slot `None`; a slot, once claimed, is never
/// claimed again.
#[allow(non_snake_case)]
pub struct OptionalPeripherals {
    /// The `UART0` slot.
    pub UART0: Option<UART0>,
    /// The `UART1` slot.
    pub UART1: Option<UART1>,
    /// The `SPI2` slot.
    pub SPI2: Option<SPI2>,
    /// The `I2C0` slot.
    pub I2C0: Option<I2C0>,
    /// The `TIMG0` slot.
    pub TIMG0: Option<TIMG0>,
    /// The `SW_INTERRUPT` slot.
    pub SW_INTERRUPT: Option<SW_INTERRUPT>,
    /// The `RADIO_CLK` slot.
    pub RADIO_CLK: Option<RADIO_CLK>,
    /// The pin 0 slot, populated by the pin abstraction layer.
    pub GPIO_0: Option<crate::gpio::GPIO_0>,
    /// The pin 1 slot, populated by the pin abstraction layer.
    pub GPIO_1: Option<crate::gpio::GPIO_1>,
    /// The pin 2 slot, populated by the pin abstraction layer.
    pub GPIO_2: Option<crate::gpio::GPIO_2>,
    /// The pin 3 slot, populated by the pin abstraction layer.
    pub GPIO_3: Option<crate::gpio::GPIO_3>,
}

impl OptionalPeripherals {
    /// Create an `OptionalPeripherals`, consuming a `Peripherals`.
    ///
    /// Every configured slot starts present, holding exactly the identity
    /// the registry held; every pin slot starts absent, to be populated
    /// later by the pin abstraction layer.
    pub fn from(p: Peripherals) -> (r: Self)
        ensures
            r.UART0 == Some(p.UART0),
            r.UART1 == Some(p.UART1),
            r.SPI2 == Some(p.SPI2),
            r.I2C0 == Some(p.I2C0),
            r.TIMG0 == Some(p.TIMG0),
            r.SW_INTERRUPT == Some(p.SW_INTERRUPT),
            r.RADIO_CLK == Some(p.RADIO_CLK),
            r.GPIO_0 is None,
            r.GPIO_1 is None,
            r.GPIO_2 is None,
            r.GPIO_3 is None,
    {
        Self {
            UART0: Some(p.UART0),
            UART1: Some(p.UART1),
            SPI2: Some(p.SPI2),
            I2C0: Some(p.I2C0),
            TIMG0: Some(p.TIMG0),
            SW_INTERRUPT: Some(p.SW_INTERRUPT),
            RADIO_CLK: Some(p.RADIO_CLK),
            GPIO_0: None,
            GPIO_1: None,
            GPIO_2: None,
            GPIO_3: None,
        }
    }
}

/// A configured registry holds every configured identity exactly once:
/// slots in two different positions hold two different identities.
pub proof fn lemma_registry_slots_distinct(p: Peripherals)
    requires
        p.configured(),
    ensures
        forall|i: int, j: int|
            0 <= i < j < p.slot_ids().len() ==> p.slot_ids()[i] != p.slot_ids()[j],
{
}

} // verus!
