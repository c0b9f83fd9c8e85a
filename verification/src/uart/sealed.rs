//! What the crate implements for every serial controller that a session can
//! be opened on.

use vstd::prelude::*;
use crate::peripherals::{UART0, UART1, UART2, UART3};
use crate::regs::UartPort;

verus! {

pub trait Instance {
    /// The register block of the controller.
    spec fn port() -> UartPort;

    /// The register block of the controller.
    fn regs() -> (port: UartPort)
        ensures
            port == Self::port(),
    ;

    /// Brings the controller out of reset. The controllers of this chip run
    /// from power-on, so there is nothing to do.
    fn enable_and_reset() {
    }
}

impl Instance for UART0 {
    open spec fn port() -> UartPort {
        UartPort::Uart0
    }

    fn regs() -> (port: UartPort) {
        UartPort::Uart0
    }
}

impl Instance for UART1 {
    open spec fn port() -> UartPort {
        UartPort::Uart1
    }

    fn regs() -> (port: UartPort) {
        UartPort::Uart1
    }
}

impl Instance for UART2 {
    open spec fn port() -> UartPort {
        UartPort::Uart2
    }

    fn regs() -> (port: UartPort) {
        UartPort::Uart2
    }
}

impl Instance for UART3 {
    open spec fn port() -> UartPort {
        UartPort::Uart3
    }

    fn regs() -> (port: UartPort) {
        UartPort::Uart3
    }
}

} // verus!
