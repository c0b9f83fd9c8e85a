//! The claimable peripherals: one handle type per pin and per serial
//! controller, the set of all of them, and the registry that hands the set
//! out once.

#![allow(non_camel_case_types, non_snake_case)]

use vstd::prelude::*;

verus! {

/// The one-time gate of the peripheral set. A system keeps one registry for
/// its whole life; the set of handles can be taken from it once.
#[derive(Debug)]
pub struct Registry {
    taken: bool,
}

/// What an attempt to take the set does, given whether it was taken before:
/// whether the attempt succeeds, and whether the set counts as taken after.
pub open spec fn attempt(taken: bool) -> (bool, bool) {
    (!taken, true)
}

/// How many of `attempts` attempts in a row succeed.
pub open spec fn successes(taken: bool, attempts: nat) -> nat
    decreases attempts,
{
    if attempts == 0 {
        0
    } else {
        (if attempt(taken).0 {
            1nat
        } else {
            0nat
        }) + successes(attempt(taken).1, (attempts - 1) as nat)
    }
}

/// However often the set is asked for, it is handed out once if the registry
/// was fresh and there was an attempt at all, and never otherwise; a second
/// attempt always fails.
pub proof fn lemma_taken_at_most_once(taken: bool, attempts: nat)
    ensures
        successes(taken, attempts) == (if !taken && attempts > 0 {
            1nat
        } else {
            0nat
        }),
        !attempt(attempt(taken).1).0,
    decreases attempts,
{
    if attempts > 0 {
        lemma_taken_at_most_once(true, (attempts - 1) as nat);
    }
}

impl Registry {
    /// Whether the set has been taken from this registry.
    pub closed spec fn taken(&self) -> bool {
        self.taken
    }

    /// A registry from which nothing has been taken.
    pub fn new() -> (registry: Self)
        ensures
            !registry.taken(),
    {
        Registry { taken: false }
    }

    /// The registry of a system that keeps the flag itself, in the state
    /// that the flag tells: taken where it is set.
    pub fn restored(taken: bool) -> (registry: Self)
        ensures
            registry.taken() == taken,
    {
        Registry { taken }
    }

    /// Tells whether the set has been taken from this registry.
    pub fn is_taken(&self) -> (taken: bool)
        ensures
            taken == self.taken(),
    {
        self.taken
    }
}

/// Serial controller 0.
///
/// An exclusive handle: it cannot be copied, and a registry hands it out
/// once.
#[derive(Debug)]
pub struct UART0 {
    _private: (),
}

impl UART0 {
    /// Makes a handle without asking the registry. Whoever calls this must
    /// see to it that no second handle of the resource is in use.
    #[inline]
    pub fn steal() -> Self {
        Self { _private: () }
    }
}

/// Serial controller 1.
///
/// An exclusive handle: it cannot be copied, and a registry hands it out
/// once.
#[derive(Debug)]
pub struct UART1 {
    _private: (),
}

impl UART1 {
    /// Makes a handle without asking the registry. Whoever calls this must
    /// see to it that no second handle of the resource is in use.
    #[inline]
    pub fn steal() -> Self {
        Self { _private: () }
    }
}

/// Serial controller 2.
///
/// An exclusive handle: it cannot be copied, and a registry hands it out
/// once.
#[derive(Debug)]
pub struct UART2 {
    _private: (),
}

impl UART2 {
    /// Makes a handle without asking the registry. Whoever calls this must
    /// see to it that no second handle of the resource is in use.
    #[inline]
    pub fn steal() -> Self {
        Self { _private: () }
    }
}

/// Serial controller 3.
///
/// An exclusive handle: it cannot be copied, and a registry hands it out
/// once.
#[derive(Debug)]
pub struct UART3 {
    _private: (),
}

impl UART3 {
    /// Makes a handle without asking the registry. Whoever calls this must
    /// see to it that no second handle of the resource is in use.
    #[inline]
    pub fn steal() -> Self {
        Self { _private: () }
    }
}

/// Serial controller 4.
///
/// An exclusive handle: it cannot be copied, and a registry hands it out
/// once.
#[derive(Debug)]
pub struct UART4 {
    _private: (),
}

impl UART4 {
    /// Makes a handle without asking the registry. Whoever calls this must
    /// see to it that no second handle of the resource is in use.
    #[inline]
    pub fn steal() -> Self {
        Self { _private: () }
    }
}

/// Header pin 0.
///
/// An exclusive handle: it cannot be copied, and a registry hands it out
/// once.
#[derive(Debug)]
pub struct PIN_0 {
    _private: (),
}

impl PIN_0 {
    /// Makes a handle without asking the registry. Whoever calls this must
    /// see to it that no second handle of the resource is in use.
    #[inline]
    pub fn steal() -> Self {
        Self { _private: () }
    }
}

/// Header pin 1.
///
/// An exclusive handle: it cannot be copied, and a registry hands it out
/// once.
#[derive(Debug)]
pub struct PIN_1 {
    _private: (),
}

impl PIN_1 {
    /// Makes a handle without asking the registry. Whoever calls this must
    /// see to it that no second handle of the resource is in use.
    #[inline]
    pub fn steal() -> Self {
        Self { _private: () }
    }
}

/// Header pin 2.
///
/// An exclusive handle: it cannot be copied, and a registry hands it out
/// once.
#[derive(Debug)]
pub struct PIN_2 {
    _private: (),
}

impl PIN_2 {
    /// Makes a handle without asking the registry. Whoever calls this must
    /// see to it that no second handle of the resource is in use.
    #[inline]
    pub fn steal() -> Self {
        Self { _private: () }
    }
}

/// Header pin 3.
///
/// An exclusive handle: it cannot be copied, and a registry hands it out
/// once.
#[derive(Debug)]
pub struct PIN_3 {
    _private: (),
}

impl PIN_3 {
    /// Makes a handle without asking the registry. Whoever calls this must
    /// see to it that no second handle of the resource is in use.
    #[inline]
    pub fn steal() -> Self {
        Self { _private: () }
    }
}

/// Header pin 4.
///
/// An exclusive handle: it cannot be copied, and a registry hands it out
/// once.
#[derive(Debug)]
pub struct PIN_4 {
    _private: (),
}

impl PIN_4 {
    /// Makes a handle without asking the registry. Whoever calls this must
    /// see to it that no second handle of the resource is in use.
    #[inline]
    pub fn steal() -> Self {
        Self { _private: () }
    }
}

/// Header pin 5.
///
/// An exclusive handle: it cannot be copied, and a registry hands it out
/// once.
#[derive(Debug)]
pub struct PIN_5 {
    _private: (),
}

impl PIN_5 {
    /// Makes a handle without asking the registry. Whoever calls this must
    /// see to it that no second handle of the resource is in use.
    #[inline]
    pub fn steal() -> Self {
        Self { _private: () }
    }
}

/// Header pin 6.
///
/// An exclusive handle: it cannot be copied, and a registry hands it out
/// once.
#[derive(Debug)]
pub struct PIN_6 {
    _private: (),
}

impl PIN_6 {
    /// Makes a handle without asking the registry. Whoever calls this must
    /// see to it that no second handle of the resource is in use.
    #[inline]
    pub fn steal() -> Self {
        Self { _private: () }
    }
}

/// Header pin 7.
///
/// An exclusive handle: it cannot be copied, and a registry hands it out
/// once.
#[derive(Debug)]
pub struct PIN_7 {
    _private: (),
}

impl PIN_7 {
    /// Makes a handle without asking the registry. Whoever calls this must
    /// see to it that no second handle of the resource is in use.
    #[inline]
    pub fn steal() -> Self {
        Self { _private: () }
    }
}

/// Header pin 8.
///
/// An exclusive handle: it cannot be copied, and a registry hands it out
/// once.
#[derive(Debug)]
pub struct PIN_8 {
    _private: (),
}

impl PIN_8 {
    /// Makes a handle without asking the registry. Whoever calls this must
    /// see to it that no second handle of the resource is in use.
    #[inline]
    pub fn steal() -> Self {
        Self { _private: () }
    }
}

/// Header pin 9.
///
/// An exclusive handle: it cannot be copied, and a registry hands it out
/// once.
#[derive(Debug)]
pub struct PIN_9 {
    _private: (),
}

impl PIN_9 {
    /// Makes a handle without asking the registry. Whoever calls this must
    /// see to it that no second handle of the resource is in use.
    #[inline]
    pub fn steal() -> Self {
        Self { _private: () }
    }
}

/// Header pin 10.
///
/// An exclusive handle: it cannot be copied, and a registry hands it out
/// once.
#[derive(Debug)]
pub struct PIN_10 {
    _private: (),
}

impl PIN_10 {
    /// Makes a handle without asking the registry. Whoever calls this must
    /// see to it that no second handle of the resource is in use.
    #[inline]
    pub fn steal() -> Self {
        Self { _private: () }
    }
}

/// Header pin 11.
///
/// An exclusive handle: it cannot be copied, and a registry hands it out
/// once.
#[derive(Debug)]
pub struct PIN_11 {
    _private: (),
}

impl PIN_11 {
    /// Makes a handle without asking the registry. Whoever calls this must
    /// see to it that no second handle of the resource is in use.
    #[inline]
    pub fn steal() -> Self {
        Self { _private: () }
    }
}

/// Header pin 12.
///
/// An exclusive handle: it cannot be copied, and a registry hands it out
/// once.
#[derive(Debug)]
pub struct PIN_12 {
    _private: (),
}

impl PIN_12 {
    /// Makes a handle without asking the registry. Whoever calls this must
    /// see to it that no second handle of the resource is in use.
    #[inline]
    pub fn steal() -> Self {
        Self { _private: () }
    }
}

/// Header pin 13.
///
/// An exclusive handle: it cannot be copied, and a registry hands it out
/// once.
#[derive(Debug)]
pub struct PIN_13 {
    _private: (),
}

impl PIN_13 {
    /// Makes a handle without asking the registry. Whoever calls this must
    /// see to it that no second handle of the resource is in use.
    #[inline]
    pub fn steal() -> Self {
        Self { _private: () }
    }
}

/// Header pin 14.
///
/// An exclusive handle: it cannot be copied, and a registry hands it out
/// once.
#[derive(Debug)]
pub struct PIN_14 {
    _private: (),
}

impl PIN_14 {
    /// Makes a handle without asking the registry. Whoever calls this must
    /// see to it that no second handle of the resource is in use.
    #[inline]
    pub fn steal() -> Self {
        Self { _private: () }
    }
}

/// Header pin 15.
///
/// An exclusive handle: it cannot be copied, and a registry hands it out
/// once.
#[derive(Debug)]
pub struct PIN_15 {
    _private: (),
}

impl PIN_15 {
    /// Makes a handle without asking the registry. Whoever calls this must
    /// see to it that no second handle of the resource is in use.
    #[inline]
    pub fn steal() -> Self {
        Self { _private: () }
    }
}

/// Header pin 16.
///
/// An exclusive handle: it cannot be copied, and a registry hands it out
/// once.
#[derive(Debug)]
pub struct PIN_16 {
    _private: (),
}

impl PIN_16 {
    /// Makes a handle without asking the registry. Whoever calls this must
    /// see to it that no second handle of the resource is in use.
    #[inline]
    pub fn steal() -> Self {
        Self { _private: () }
    }
}

/// Header pin 17.
///
/// An exclusive handle: it cannot be copied, and a registry hands it out
/// once.
#[derive(Debug)]
pub struct PIN_17 {
    _private: (),
}

impl PIN_17 {
    /// Makes a handle without asking the registry. Whoever calls this must
    /// see to it that no second handle of the resource is in use.
    #[inline]
    pub fn steal() -> Self {
        Self { _private: () }
    }
}

/// Header pin 18.
///
/// An exclusive handle: it cannot be copied, and a registry hands it out
/// once.
#[derive(Debug)]
pub struct PIN_18 {
    _private: (),
}

impl PIN_18 {
    /// Makes a handle without asking the registry. Whoever calls this must
    /// see to it that no second handle of the resource is in use.
    #[inline]
    pub fn steal() -> Self {
        Self { _private: () }
    }
}

/// Header pin 19.
///
/// An exclusive handle: it cannot be copied, and a registry hands it out
/// once.
#[derive(Debug)]
pub struct PIN_19 {
    _private: (),
}

impl PIN_19 {
    /// Makes a handle without asking the registry. Whoever calls this must
    /// see to it that no second handle of the resource is in use.
    #[inline]
    pub fn steal() -> Self {
        Self { _private: () }
    }
}

/// Header pin 20.
///
/// An exclusive handle: it cannot be copied, and a registry hands it out
/// once.
#[derive(Debug)]
pub struct PIN_20 {
    _private: (),
}

impl PIN_20 {
    /// Makes a handle without asking the registry. Whoever calls this must
    /// see to it that no second handle of the resource is in use.
    #[inline]
    pub fn steal() -> Self {
        Self { _private: () }
    }
}

/// Header pin 21.
///
/// An exclusive handle: it cannot be copied, and a registry hands it out
/// once.
#[derive(Debug)]
pub struct PIN_21 {
    _private: (),
}

impl PIN_21 {
    /// Makes a handle without asking the registry. Whoever calls this must
    /// see to it that no second handle of the resource is in use.
    #[inline]
    pub fn steal() -> Self {
        Self { _private: () }
    }
}

/// Header pin 22.
///
/// An exclusive handle: it cannot be copied, and a registry hands it out
/// once.
#[derive(Debug)]
pub struct PIN_22 {
    _private: (),
}

impl PIN_22 {
    /// Makes a handle without asking the registry. Whoever calls this must
    /// see to it that no second handle of the resource is in use.
    #[inline]
    pub fn steal() -> Self {
        Self { _private: () }
    }
}

/// Header pin 25, wired to the LED.
///
/// An exclusive handle: it cannot be copied, and a registry hands it out
/// once.
#[derive(Debug)]
pub struct PIN_25 {
    _private: (),
}

impl PIN_25 {
    /// Makes a handle without asking the registry. Whoever calls this must
    /// see to it that no second handle of the resource is in use.
    #[inline]
    pub fn steal() -> Self {
        Self { _private: () }
    }
}

/// Header pin 26, ADC1.
///
/// An exclusive handle: it cannot be copied, and a registry hands it out
/// once.
#[derive(Debug)]
pub struct PIN_26 {
    _private: (),
}

impl PIN_26 {
    /// Makes a handle without asking the registry. Whoever calls this must
    /// see to it that no second handle of the resource is in use.
    #[inline]
    pub fn steal() -> Self {
        Self { _private: () }
    }
}

/// Header pin 27, USB_VBUS_DET.
///
/// An exclusive handle: it cannot be copied, and a registry hands it out
/// once.
#[derive(Debug)]
pub struct PIN_27 {
    _private: (),
}

impl PIN_27 {
    /// Makes a handle without asking the registry. Whoever calls this must
    /// see to it that no second handle of the resource is in use.
    #[inline]
    pub fn steal() -> Self {
        Self { _private: () }
    }
}

/// Microphone input.
///
/// An exclusive handle: it cannot be copied, and a registry hands it out
/// once.
#[derive(Debug)]
pub struct PIN_MIC_IN {
    _private: (),
}

impl PIN_MIC_IN {
    /// Makes a handle without asking the registry. Whoever calls this must
    /// see to it that no second handle of the resource is in use.
    #[inline]
    pub fn steal() -> Self {
        Self { _private: () }
    }
}

/// Audio output.
///
/// An exclusive handle: it cannot be copied, and a registry hands it out
/// once.
#[derive(Debug)]
pub struct PIN_AUDIO_OUT {
    _private: (),
}

impl PIN_AUDIO_OUT {
    /// Makes a handle without asking the registry. Whoever calls this must
    /// see to it that no second handle of the resource is in use.
    #[inline]
    pub fn steal() -> Self {
        Self { _private: () }
    }
}

/// Camera interface, lane pin DN0.
///
/// An exclusive handle: it cannot be copied, and a registry hands it out
/// once.
#[derive(Debug)]
pub struct PIN_MIPI0_DN0 {
    _private: (),
}

impl PIN_MIPI0_DN0 {
    /// Makes a handle without asking the registry. Whoever calls this must
    /// see to it that no second handle of the resource is in use.
    #[inline]
    pub fn steal() -> Self {
        Self { _private: () }
    }
}

/// Camera interface, lane pin DP0.
///
/// An exclusive handle: it cannot be copied, and a registry hands it out
/// once.
#[derive(Debug)]
pub struct PIN_MIPI0_DP0 {
    _private: (),
}

impl PIN_MIPI0_DP0 {
    /// Makes a handle without asking the registry. Whoever calls this must
    /// see to it that no second handle of the resource is in use.
    #[inline]
    pub fn steal() -> Self {
        Self { _private: () }
    }
}

/// Camera interface, lane pin DN1.
///
/// An exclusive handle: it cannot be copied, and a registry hands it out
/// once.
#[derive(Debug)]
pub struct PIN_MIPI0_DN1 {
    _private: (),
}

impl PIN_MIPI0_DN1 {
    /// Makes a handle without asking the registry. Whoever calls this must
    /// see to it that no second handle of the resource is in use.
    #[inline]
    pub fn steal() -> Self {
        Self { _private: () }
    }
}

/// Camera interface, lane pin DP1.
///
/// An exclusive handle: it cannot be copied, and a registry hands it out
/// once.
#[derive(Debug)]
pub struct PIN_MIPI0_DP1 {
    _private: (),
}

impl PIN_MIPI0_DP1 {
    /// Makes a handle without asking the registry. Whoever calls this must
    /// see to it that no second handle of the resource is in use.
    #[inline]
    pub fn steal() -> Self {
        Self { _private: () }
    }
}

/// Camera interface, lane pin CKN.
///
/// An exclusive handle: it cannot be copied, and a registry hands it out
/// once.
#[derive(Debug)]
pub struct PIN_MIPI0_CKN {
    _private: (),
}

impl PIN_MIPI0_CKN {
    /// Makes a handle without asking the registry. Whoever calls this must
    /// see to it that no second handle of the resource is in use.
    #[inline]
    pub fn steal() -> Self {
        Self { _private: () }
    }
}

/// Camera interface, lane pin CKP.
///
/// An exclusive handle: it cannot be copied, and a registry hands it out
/// once.
#[derive(Debug)]
pub struct PIN_MIPI0_CKP {
    _private: (),
}

impl PIN_MIPI0_CKP {
    /// Makes a handle without asking the registry. Whoever calls this must
    /// see to it that no second handle of the resource is in use.
    #[inline]
    pub fn steal() -> Self {
        Self { _private: () }
    }
}

/// Camera sensor reset.
///
/// An exclusive handle: it cannot be copied, and a registry hands it out
/// once.
#[derive(Debug)]
pub struct PIN_SENSOR_RSTN {
    _private: (),
}

impl PIN_SENSOR_RSTN {
    /// Makes a handle without asking the registry. Whoever calls this must
    /// see to it that no second handle of the resource is in use.
    #[inline]
    pub fn steal() -> Self {
        Self { _private: () }
    }
}

/// Camera sensor clock.
///
/// An exclusive handle: it cannot be copied, and a registry hands it out
/// once.
#[derive(Debug)]
pub struct PIN_SENSOR_CLK {
    _private: (),
}

impl PIN_SENSOR_CLK {
    /// Makes a handle without asking the registry. Whoever calls this must
    /// see to it that no second handle of the resource is in use.
    #[inline]
    pub fn steal() -> Self {
        Self { _private: () }
    }
}

/// The core-select pin, pulled up on the board.
///
/// An exclusive handle: it cannot be copied, and a registry hands it out
/// once.
#[derive(Debug)]
pub struct PIN_ARM_RV_SWITCH {
    _private: (),
}

impl PIN_ARM_RV_SWITCH {
    /// Makes a handle without asking the registry. Whoever calls this must
    /// see to it that no second handle of the resource is in use.
    #[inline]
    pub fn steal() -> Self {
        Self { _private: () }
    }
}

/// SD card slot, CD.
///
/// An exclusive handle: it cannot be copied, and a registry hands it out
/// once.
#[derive(Debug)]
pub struct PIN_SD0_CD {
    _private: (),
}

impl PIN_SD0_CD {
    /// Makes a handle without asking the registry. Whoever calls this must
    /// see to it that no second handle of the resource is in use.
    #[inline]
    pub fn steal() -> Self {
        Self { _private: () }
    }
}

/// SD card slot, D0.
///
/// An exclusive handle: it cannot be copied, and a registry hands it out
/// once.
#[derive(Debug)]
pub struct PIN_SD0_D0 {
    _private: (),
}

impl PIN_SD0_D0 {
    /// Makes a handle without asking the registry. Whoever calls this must
    /// see to it that no second handle of the resource is in use.
    #[inline]
    pub fn steal() -> Self {
        Self { _private: () }
    }
}

/// SD card slot, D1.
///
/// An exclusive handle: it cannot be copied, and a registry hands it out
/// once.
#[derive(Debug)]
pub struct PIN_SD0_D1 {
    _private: (),
}

impl PIN_SD0_D1 {
    /// Makes a handle without asking the registry. Whoever calls this must
    /// see to it that no second handle of the resource is in use.
    #[inline]
    pub fn steal() -> Self {
        Self { _private: () }
    }
}

/// SD card slot, D2.
///
/// An exclusive handle: it cannot be copied, and a registry hands it out
/// once.
#[derive(Debug)]
pub struct PIN_SD0_D2 {
    _private: (),
}

impl PIN_SD0_D2 {
    /// Makes a handle without asking the registry. Whoever calls this must
    /// see to it that no second handle of the resource is in use.
    #[inline]
    pub fn steal() -> Self {
        Self { _private: () }
    }
}

/// SD card slot, D3.
///
/// An exclusive handle: it cannot be copied, and a registry hands it out
/// once.
#[derive(Debug)]
pub struct PIN_SD0_D3 {
    _private: (),
}

impl PIN_SD0_D3 {
    /// Makes a handle without asking the registry. Whoever calls this must
    /// see to it that no second handle of the resource is in use.
    #[inline]
    pub fn steal() -> Self {
        Self { _private: () }
    }
}

/// SD card slot, CMD.
///
/// An exclusive handle: it cannot be copied, and a registry hands it out
/// once.
#[derive(Debug)]
pub struct PIN_SD0_CMD {
    _private: (),
}

impl PIN_SD0_CMD {
    /// Makes a handle without asking the registry. Whoever calls this must
    /// see to it that no second handle of the resource is in use.
    #[inline]
    pub fn steal() -> Self {
        Self { _private: () }
    }
}

/// SD card slot, CLK.
///
/// An exclusive handle: it cannot be copied, and a registry hands it out
/// once.
#[derive(Debug)]
pub struct PIN_SD0_CLK {
    _private: (),
}

impl PIN_SD0_CLK {
    /// Makes a handle without asking the registry. Whoever calls this must
    /// see to it that no second handle of the resource is in use.
    #[inline]
    pub fn steal() -> Self {
        Self { _private: () }
    }
}

/// The set of all claimable peripherals, one handle each. Every field can
/// be moved out on its own.
#[derive(Debug)]
pub struct Peripherals {
    pub UART0: UART0,
    pub UART1: UART1,
    pub UART2: UART2,
    pub UART3: UART3,
    pub UART4: UART4,
    pub PIN_0: PIN_0,
    pub PIN_1: PIN_1,
    pub PIN_2: PIN_2,
    pub PIN_3: PIN_3,
    pub PIN_4: PIN_4,
    pub PIN_5: PIN_5,
    pub PIN_6: PIN_6,
    pub PIN_7: PIN_7,
    pub PIN_8: PIN_8,
    pub PIN_9: PIN_9,
    pub PIN_10: PIN_10,
    pub PIN_11: PIN_11,
    pub PIN_12: PIN_12,
    pub PIN_13: PIN_13,
    pub PIN_14: PIN_14,
    pub PIN_15: PIN_15,
    pub PIN_16: PIN_16,
    pub PIN_17: PIN_17,
    pub PIN_18: PIN_18,
    pub PIN_19: PIN_19,
    pub PIN_20: PIN_20,
    pub PIN_21: PIN_21,
    pub PIN_22: PIN_22,
    pub PIN_25: PIN_25,
    pub PIN_26: PIN_26,
    pub PIN_27: PIN_27,
    pub PIN_MIC_IN: PIN_MIC_IN,
    pub PIN_AUDIO_OUT: PIN_AUDIO_OUT,
    pub PIN_MIPI0_DN0: PIN_MIPI0_DN0,
    pub PIN_MIPI0_DP0: PIN_MIPI0_DP0,
    pub PIN_MIPI0_DN1: PIN_MIPI0_DN1,
    pub PIN_MIPI0_DP1: PIN_MIPI0_DP1,
    pub PIN_MIPI0_CKN: PIN_MIPI0_CKN,
    pub PIN_MIPI0_CKP: PIN_MIPI0_CKP,
    pub PIN_SENSOR_RSTN: PIN_SENSOR_RSTN,
    pub PIN_SENSOR_CLK: PIN_SENSOR_CLK,
    pub PIN_ARM_RV_SWITCH: PIN_ARM_RV_SWITCH,
    pub PIN_SD0_CD: PIN_SD0_CD,
    pub PIN_SD0_D0: PIN_SD0_D0,
    pub PIN_SD0_D1: PIN_SD0_D1,
    pub PIN_SD0_D2: PIN_SD0_D2,
    pub PIN_SD0_D3: PIN_SD0_D3,
    pub PIN_SD0_CMD: PIN_SD0_CMD,
    pub PIN_SD0_CLK: PIN_SD0_CLK,
}

impl Peripherals {
    /// Takes the set of handles from a registry whose set has not been
    /// taken. To take it a second time is an error of the program.
    pub fn take(registry: &mut Registry) -> (set: Self)
        requires
            !old(registry).taken(),
        ensures
            final(registry).taken(),
    {
        registry.taken = true;
        Self::steal()
    }

    /// Takes the set of handles if it has not been taken: the first attempt
    /// on a registry gets the set, every later one gets nothing.
    pub fn try_take(registry: &mut Registry) -> (set: Option<Self>)
        ensures
            set.is_some() == attempt(old(registry).taken()).0,
            final(registry).taken() == attempt(old(registry).taken()).1,
    {
        if registry.taken {
            None
        } else {
            Some(Self::take(registry))
        }
    }

    /// Makes a set of handles without asking a registry. Whoever calls this
    /// must see to it that no second handle of any resource is in use.
    pub fn steal() -> Self {
        Self {
            UART0: UART0::steal(),
            UART1: UART1::steal(),
            UART2: UART2::steal(),
            UART3: UART3::steal(),
            UART4: UART4::steal(),
            PIN_0: PIN_0::steal(),
            PIN_1: PIN_1::steal(),
            PIN_2: PIN_2::steal(),
            PIN_3: PIN_3::steal(),
            PIN_4: PIN_4::steal(),
            PIN_5: PIN_5::steal(),
            PIN_6: PIN_6::steal(),
            PIN_7: PIN_7::steal(),
            PIN_8: PIN_8::steal(),
            PIN_9: PIN_9::steal(),
            PIN_10: PIN_10::steal(),
            PIN_11: PIN_11::steal(),
            PIN_12: PIN_12::steal(),
            PIN_13: PIN_13::steal(),
            PIN_14: PIN_14::steal(),
            PIN_15: PIN_15::steal(),
            PIN_16: PIN_16::steal(),
            PIN_17: PIN_17::steal(),
            PIN_18: PIN_18::steal(),
            PIN_19: PIN_19::steal(),
            PIN_20: PIN_20::steal(),
            PIN_21: PIN_21::steal(),
            PIN_22: PIN_22::steal(),
            PIN_25: PIN_25::steal(),
            PIN_26: PIN_26::steal(),
            PIN_27: PIN_27::steal(),
            PIN_MIC_IN: PIN_MIC_IN::steal(),
            PIN_AUDIO_OUT: PIN_AUDIO_OUT::steal(),
            PIN_MIPI0_DN0: PIN_MIPI0_DN0::steal(),
            PIN_MIPI0_DP0: PIN_MIPI0_DP0::steal(),
            PIN_MIPI0_DN1: PIN_MIPI0_DN1::steal(),
            PIN_MIPI0_DP1: PIN_MIPI0_DP1::steal(),
            PIN_MIPI0_CKN: PIN_MIPI0_CKN::steal(),
            PIN_MIPI0_CKP: PIN_MIPI0_CKP::steal(),
            PIN_SENSOR_RSTN: PIN_SENSOR_RSTN::steal(),
            PIN_SENSOR_CLK: PIN_SENSOR_CLK::steal(),
            PIN_ARM_RV_SWITCH: PIN_ARM_RV_SWITCH::steal(),
            PIN_SD0_CD: PIN_SD0_CD::steal(),
            PIN_SD0_D0: PIN_SD0_D0::steal(),
            PIN_SD0_D1: PIN_SD0_D1::steal(),
            PIN_SD0_D2: PIN_SD0_D2::steal(),
            PIN_SD0_D3: PIN_SD0_D3::steal(),
            PIN_SD0_CMD: PIN_SD0_CMD::steal(),
            PIN_SD0_CLK: PIN_SD0_CLK::steal(),
        }
    }
}

} // verus!
