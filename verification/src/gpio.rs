//! Pin identities populated into the optional registry by a higher-level
//! subsystem once the pin abstraction layer is brought up.

use crate::peripheral::{Identified, Peripheral, PeripheralRef};
use vstd::prelude::*;

verus! {

/// Identity number of the pin `GPIO_0`.
pub const GPIO_0_ID: u8 = 8;

/// Identity number of the pin `GPIO_1`.
pub const GPIO_1_ID: u8 = 9;

/// Identity number of the pin `GPIO_2`.
pub const GPIO_2_ID: u8 = 10;

/// Identity number of the pin `GPIO_3`.
pub const GPIO_3_ID: u8 = 11;

/// Identity of the physical pin 0. Virtual in the sense of this core: no
/// register block of its own is exposed here.
#[allow(non_camel_case_types)]
pub struct GPIO_0 {
    _inner: (),
}

impl GPIO_0 {
    /// Create an instance of this pin identity out of thin air, with no
    /// uniqueness tracking: the caller must ensure that only one instance
    /// is in use at a time.
    pub fn steal() -> (r: Self)
        ensures
            r.id() == GPIO_0_ID as int,
    {
        Self { _inner: () }
    }
}

impl Identified for GPIO_0 {
    open spec fn id(&self) -> int {
        GPIO_0_ID as int
    }
}

impl Peripheral for GPIO_0 {
    type P = GPIO_0;

    fn clone_unchecked(&mut self) -> (r: GPIO_0) {
        GPIO_0::steal()
    }

    fn into_ref<'a>(self) -> (r: PeripheralRef<'a, GPIO_0>) {
        let mut this = self;
        PeripheralRef::new(this.clone_unchecked())
    }
}

impl crate::private::Sealed for GPIO_0 {
}

/// Identity of the physical pin 1. Virtual in the sense of this core: no
/// register block of its own is exposed here.
#[allow(non_camel_case_types)]
pub struct GPIO_1 {
    _inner: (),
}

impl GPIO_1 {
    /// Create an instance of this pin identity out of thin air, with no
    /// uniqueness tracking: the caller must ensure that only one instance
    /// is in use at a time.
    pub fn steal() -> (r: Self)
        ensures
            r.id() == GPIO_1_ID as int,
    {
        Self { _inner: () }
    }
}

impl Identified for GPIO_1 {
    open spec fn id(&self) -> int {
        GPIO_1_ID as int
    }
}

impl Peripheral for GPIO_1 {
    type P = GPIO_1;

    fn clone_unchecked(&mut self) -> (r: GPIO_1) {
        GPIO_1::steal()
    }

    fn into_ref<'a>(self) -> (r: PeripheralRef<'a, GPIO_1>) {
        let mut this = self;
        PeripheralRef::new(this.clone_unchecked())
    }
}

impl crate::private::Sealed for GPIO_1 {
}

/// Identity of the physical pin 2. Virtual in the sense of this core: no
/// register block of its own is exposed here.
#[allow(non_camel_case_types)]
pub struct GPIO_2 {
    _inner: (),
}

impl GPIO_2 {
    /// Create an instance of this pin identity out of thin air, with no
    /// uniqueness tracking: the caller must ensure that only one instance
    /// is in use at a time.
    pub fn steal() -> (r: Self)
        ensures
            r.id() == GPIO_2_ID as int,
    {
        Self { _inner: () }
    }
}

impl Identified for GPIO_2 {
    open spec fn id(&self) -> int {
        GPIO_2_ID as int
    }
}

impl Peripheral for GPIO_2 {
    type P = GPIO_2;

    fn clone_unchecked(&mut self) -> (r: GPIO_2) {
        GPIO_2::steal()
    }

    fn into_ref<'a>(self) -> (r: PeripheralRef<'a, GPIO_2>) {
        let mut this = self;
        PeripheralRef::new(this.clone_unchecked())
    }
}

impl crate::private::Sealed for GPIO_2 {
}

/// Identity of the physical pin 3. Virtual in the sense of this core: no
/// register block of its own is exposed here.
#[allow(non_camel_case_types)]
pub struct GPIO_3 {
    _inner: (),
}

impl GPIO_3 {
    /// Create an instance of this pin identity out of thin air, with no
    /// uniqueness tracking: the caller must ensure that only one instance
    /// is in use at a time.
    pub fn steal() -> (r: Self)
        ensures
            r.id() == GPIO_3_ID as int,
    {
        Self { _inner: () }
    }
}

impl Identified for GPIO_3 {
    open spec fn id(&self) -> int {
        GPIO_3_ID as int
    }
}

impl Peripheral for GPIO_3 {
    type P = GPIO_3;

    fn clone_unchecked(&mut self) -> (r: GPIO_3) {
        GPIO_3::steal()
    }

    fn into_ref<'a>(self) -> (r: PeripheralRef<'a, GPIO_3>) {
        let mut this = self;
        PeripheralRef::new(this.clone_unchecked())
    }
}

impl crate::private::Sealed for GPIO_3 {
}

} // verus!
