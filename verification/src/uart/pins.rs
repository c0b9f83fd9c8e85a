//! Which pin can carry which signal of which serial controller, and the
//! alternate function that routes the signal to the pin.

use vstd::prelude::*;
use crate::peripherals::{
    PIN_0, PIN_1, PIN_12, PIN_13, PIN_2, PIN_3, PIN_4, PIN_5, PIN_8, UART0, UART1, UART2, UART3,
};
use crate::uart::Instance;

verus! {

/// A pin that can carry the receive signal of controller `T`.
pub trait RxPin<T: Instance>: crate::gpio::Pin {
    /// The alternate function that routes the signal to the pin.
    spec fn function(&self) -> u8;

    /// The alternate function that routes the signal to the pin.
    fn af_num(&self) -> (function: u8)
        ensures
            function == self.function(),
            function <= 7,
    ;
}

/// A pin that can carry the transmit signal of controller `T`.
pub trait TxPin<T: Instance>: crate::gpio::Pin {
    /// The alternate function that routes the signal to the pin.
    spec fn function(&self) -> u8;

    /// The alternate function that routes the signal to the pin.
    fn af_num(&self) -> (function: u8)
        ensures
            function == self.function(),
            function <= 7,
    ;
}

/// A pin that can carry the request-to-send signal of controller `T`.
pub trait RtsPin<T: Instance>: crate::gpio::Pin {
    /// The alternate function that routes the signal to the pin.
    spec fn function(&self) -> u8;

    /// The alternate function that routes the signal to the pin.
    fn af_num(&self) -> (function: u8)
        ensures
            function == self.function(),
            function <= 7,
    ;
}

/// A pin that can carry the clear-to-send signal of controller `T`.
pub trait CtsPin<T: Instance>: crate::gpio::Pin {
    /// The alternate function that routes the signal to the pin.
    spec fn function(&self) -> u8;

    /// The alternate function that routes the signal to the pin.
    fn af_num(&self) -> (function: u8)
        ensures
            function == self.function(),
            function <= 7,
    ;
}

impl TxPin<UART0> for PIN_12 {
    open spec fn function(&self) -> u8 {
        0
    }

    #[inline(always)]
    fn af_num(&self) -> (function: u8) {
        0
    }
}

impl RxPin<UART0> for PIN_13 {
    open spec fn function(&self) -> u8 {
        0
    }

    #[inline(always)]
    fn af_num(&self) -> (function: u8) {
        0
    }
}

impl TxPin<UART1> for PIN_12 {
    open spec fn function(&self) -> u8 {
        4
    }

    #[inline(always)]
    fn af_num(&self) -> (function: u8) {
        4
    }
}

impl RxPin<UART1> for PIN_13 {
    open spec fn function(&self) -> u8 {
        4
    }

    #[inline(always)]
    fn af_num(&self) -> (function: u8) {
        4
    }
}

impl RtsPin<UART1> for PIN_2 {
    open spec fn function(&self) -> u8 {
        4
    }

    #[inline(always)]
    fn af_num(&self) -> (function: u8) {
        4
    }
}

impl CtsPin<UART1> for PIN_3 {
    open spec fn function(&self) -> u8 {
        4
    }

    #[inline(always)]
    fn af_num(&self) -> (function: u8) {
        4
    }
}

impl TxPin<UART1> for PIN_2 {
    open spec fn function(&self) -> u8 {
        6
    }

    #[inline(always)]
    fn af_num(&self) -> (function: u8) {
        6
    }
}

impl RxPin<UART1> for PIN_3 {
    open spec fn function(&self) -> u8 {
        6
    }

    #[inline(always)]
    fn af_num(&self) -> (function: u8) {
        6
    }
}

impl TxPin<UART1> for PIN_0 {
    open spec fn function(&self) -> u8 {
        1
    }

    #[inline(always)]
    fn af_num(&self) -> (function: u8) {
        1
    }
}

impl TxPin<UART2> for PIN_0 {
    open spec fn function(&self) -> u8 {
        2
    }

    #[inline(always)]
    fn af_num(&self) -> (function: u8) {
        2
    }
}

impl RxPin<UART1> for PIN_1 {
    open spec fn function(&self) -> u8 {
        1
    }

    #[inline(always)]
    fn af_num(&self) -> (function: u8) {
        1
    }
}

impl RxPin<UART2> for PIN_1 {
    open spec fn function(&self) -> u8 {
        2
    }

    #[inline(always)]
    fn af_num(&self) -> (function: u8) {
        2
    }
}

impl TxPin<UART2> for PIN_4 {
    open spec fn function(&self) -> u8 {
        2
    }

    #[inline(always)]
    fn af_num(&self) -> (function: u8) {
        2
    }
}

impl TxPin<UART3> for PIN_4 {
    open spec fn function(&self) -> u8 {
        5
    }

    #[inline(always)]
    fn af_num(&self) -> (function: u8) {
        5
    }
}

impl RxPin<UART2> for PIN_5 {
    open spec fn function(&self) -> u8 {
        2
    }

    #[inline(always)]
    fn af_num(&self) -> (function: u8) {
        2
    }
}

impl RxPin<UART3> for PIN_5 {
    open spec fn function(&self) -> u8 {
        5
    }

    #[inline(always)]
    fn af_num(&self) -> (function: u8) {
        5
    }
}

impl RtsPin<UART3> for PIN_8 {
    open spec fn function(&self) -> u8 {
        5
    }

    #[inline(always)]
    fn af_num(&self) -> (function: u8) {
        5
    }
}

} // verus!
