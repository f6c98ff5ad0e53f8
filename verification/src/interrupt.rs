//! The registration hook of the platform's interrupt controller.
//!
//! Only registration is modelled here: the controller keeps one handler slot
//! per interrupt line, and binding writes exactly one slot. Dispatch, the
//! vector table itself and the execution of handlers are outside this core.

use vstd::prelude::*;

verus! {

/// An interrupt line of the platform's interrupt controller.
#[derive(Clone, Copy, PartialEq, Eq, Structural)]
pub enum Interrupt {
    Uart0,
    Uart1,
    Spi2,
    Tg0T0Level,
    Tg0WdtLevel,
}

/// The interrupt controller's observable registration table: one slot per
/// interrupt line, holding the address of the bound interrupt service
/// routine, if any.
///
/// A handler is carried as a plain address. Nothing here checks that the
/// address points at a routine with the calling convention and reentrancy
/// behaviour the platform expects: that is an explicit caller obligation.
pub struct InterruptController {
    uart0: Option<usize>,
    uart1: Option<usize>,
    spi2: Option<usize>,
    tg0_t0_level: Option<usize>,
    tg0_wdt_level: Option<usize>,
}

impl InterruptController {
    /// The handler bound to `line`, if any.
    pub closed spec fn handler(self, line: Interrupt) -> Option<usize> {
        match line {
            Interrupt::Uart0 => self.uart0,
            Interrupt::Uart1 => self.uart1,
            Interrupt::Spi2 => self.spi2,
            Interrupt::Tg0T0Level => self.tg0_t0_level,
            Interrupt::Tg0WdtLevel => self.tg0_wdt_level,
        }
    }

    /// A controller with no handler bound to any line.
    pub fn new() -> (r: Self)
        ensures
            forall|line: Interrupt| r.handler(line) is None,
    {
        Self {
            uart0: None,
            uart1: None,
            spi2: None,
            tg0_t0_level: None,
            tg0_wdt_level: None,
        }
    }

    /// Register `handler` for `line`, replacing whatever was bound there;
    /// every other line keeps its registration.
    pub fn bind_interrupt(&mut self, line: Interrupt, handler: usize)
        ensures
            (*final(self)).handler(line) == Some(handler),
            forall|other: Interrupt|
                other != line ==> (*final(self)).handler(other) == old(self).handler(other),
    {
        match line {
            Interrupt::Uart0 => self.uart0 = Some(handler),
            Interrupt::Uart1 => self.uart1 = Some(handler),
            Interrupt::Spi2 => self.spi2 = Some(handler),
            Interrupt::Tg0T0Level => self.tg0_t0_level = Some(handler),
            Interrupt::Tg0WdtLevel => self.tg0_wdt_level = Some(handler),
        }
    }

    /// Look a registration up in the table.
    pub fn bound_handler(&self, line: Interrupt) -> (r: Option<usize>)
        ensures
            r == self.handler(line),
    {
        match line {
            Interrupt::Uart0 => self.uart0,
            Interrupt::Uart1 => self.uart1,
            Interrupt::Spi2 => self.spi2,
            Interrupt::Tg0T0Level => self.tg0_t0_level,
            Interrupt::Tg0WdtLevel => self.tg0_wdt_level,
        }
    }
}

/// Binding handlers on two different interrupt lines registers two
/// independent handlers: after the second binding, both are still in the
/// table, each under its own line.
pub proof fn lemma_independent_bindings(
    mid: InterruptController,
    after: InterruptController,
    first: Interrupt,
    second: Interrupt,
    h1: usize,
    h2: usize,
)
    requires
        first != second,
        mid.handler(first) == Some(h1),
        after.handler(second) == Some(h2),
        forall|other: Interrupt| other != second ==> after.handler(other) == mid.handler(other),
    ensures
        after.handler(first) == Some(h1),
        after.handler(second) == Some(h2),
{
}

} // verus!
