//! The clock plan: the requested core and bus frequencies and the USB clock
//! source, and the check that the plan can be locked before any of it is
//! applied to the hardware.
use vstd::prelude::*;

verus! {

/// Highest core clock the part runs at.
pub const MAX_CORE_HZ: u32 = 80_000_000;

/// Core clock the keyboard runs at.
pub const CORE_HZ: u32 = 80_000_000;

/// Requested AHB and APB bus clocks; also the USB domain's frequency.
pub const BUS_HZ: u32 = 48_000_000;

/// Requested clocks and the source of the 48 MHz USB domain.
#[derive(Clone, Copy, Debug, PartialEq, Eq, Structural)]
pub struct ClockConfig {
    pub sysclk_hz: u32,
    pub hclk_hz: u32,
    pub pclk1_hz: u32,
    pub pclk2_hz: u32,
    /// The internal 48 MHz oscillator feeds the USB domain.
    pub hsi48: bool,
    /// The oscillator is trimmed continuously against the USB start-of-frame.
    pub usb_trim: bool,
}

/// Why a clock plan cannot be locked. Each is fatal at boot.
#[derive(Clone, Copy, Debug, PartialEq, Eq, Structural)]
pub enum ClockConfigError {
    /// The core clock exceeds the part's maximum.
    CoreTooFast,
    /// The AHB clock is zero or faster than the core clock.
    AhbUnreachable,
    /// An APB clock is zero or faster than the AHB clock.
    ApbUnreachable,
    /// The internal 48 MHz oscillator is not selected.
    NoInternalUsbOscillator,
    /// Continuous trimming of the 48 MHz oscillator is off.
    TrimmingDisabled,
}

/// The first reason, in the order checked, why `c` cannot be locked.
pub open spec fn clock_error(c: ClockConfig) -> Option<ClockConfigError> {
    if c.sysclk_hz > MAX_CORE_HZ {
        Some(ClockConfigError::CoreTooFast)
    } else if c.hclk_hz == 0 || c.hclk_hz > c.sysclk_hz {
        Some(ClockConfigError::AhbUnreachable)
    } else if c.pclk1_hz == 0 || c.pclk1_hz > c.hclk_hz || c.pclk2_hz == 0 || c.pclk2_hz > c.hclk_hz {
        Some(ClockConfigError::ApbUnreachable)
    } else if !c.hsi48 {
        Some(ClockConfigError::NoInternalUsbOscillator)
    } else if !c.usb_trim {
        Some(ClockConfigError::TrimmingDisabled)
    } else {
        None
    }
}

impl ClockConfig {
    /// The keyboard's clock plan: 80 MHz core, 48 MHz buses, USB clocked
    /// from the internal 48 MHz oscillator under continuous trimming.
    pub fn usb_keyboard() -> (c: ClockConfig)
        ensures
            c.sysclk_hz == CORE_HZ,
            c.hclk_hz == BUS_HZ,
            c.pclk1_hz == BUS_HZ,
            c.pclk2_hz == BUS_HZ,
            c.hsi48,
            c.usb_trim,
            clock_error(c) is None,
    {
        ClockConfig {
            sysclk_hz: CORE_HZ,
            hclk_hz: BUS_HZ,
            pclk1_hz: BUS_HZ,
            pclk2_hz: BUS_HZ,
            hsi48: true,
            usb_trim: true,
        }
    }

    /// Checks that the plan can be locked and keeps USB timing accurate
    /// without an external crystal.
    pub fn validate(&self) -> (r: Result<(), ClockConfigError>)
        ensures
            r is Ok <==> clock_error(*self) is None,
            r matches Err(e) ==> clock_error(*self) == Some(e),
    {
        if self.sysclk_hz > MAX_CORE_HZ {
            Err(ClockConfigError::CoreTooFast)
        } else if self.hclk_hz == 0 || self.hclk_hz > self.sysclk_hz {
            Err(ClockConfigError::AhbUnreachable)
        } else if self.pclk1_hz == 0 || self.pclk1_hz > self.hclk_hz || self.pclk2_hz == 0
            || self.pclk2_hz > self.hclk_hz {
            Err(ClockConfigError::ApbUnreachable)
        } else if !self.hsi48 {
            Err(ClockConfigError::NoInternalUsbOscillator)
        } else if !self.usb_trim {
            Err(ClockConfigError::TrimmingDisabled)
        } else {
            Ok(())
        }
    }
}

} // verus!
