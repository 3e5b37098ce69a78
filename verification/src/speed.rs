//! Bus speed modes, their timing constraints and the SCL count settings.

use vstd::prelude::*;
use crate::i2c::I2cError;

verus! {

/// The bus speed modes of the controller, numbered as in `IC_CON.SPEED`.
#[derive(Clone, Copy, Debug, PartialEq, Eq, Structural)]
pub enum I2cSpeedMode {
    /// Up to 100 kbit/s.
    Standard,
    /// Up to 400 kbit/s.
    Quick,
    /// Up to 3.4 Mbit/s.
    High,
}

/// The value of `IC_CON.SPEED` for a mode.
pub open spec fn spec_speed_field(m: I2cSpeedMode) -> u32 {
    match m {
        I2cSpeedMode::Standard => 1,
        I2cSpeedMode::Quick => 2,
        I2cSpeedMode::High => 3,
    }
}

/// The value of `IC_CON.SPEED` for `mode`.
pub fn speed_field(mode: I2cSpeedMode) -> (v: u32)
    ensures
        v == spec_speed_field(mode),
{
    match mode {
        I2cSpeedMode::Standard => 1,
        I2cSpeedMode::Quick => 2,
        I2cSpeedMode::High => 3,
    }
}

/// Timing constraints of a speed mode, in nanoseconds.
#[derive(Clone, Copy, Debug, PartialEq, Eq)]
pub struct I2cSpeedModeInfo {
    pub min_scl_high_time_ns: u32,
    pub min_scl_low_time_ns: u32,
    pub def_rise_time_ns: u32,
    pub def_fall_time_ns: u32,
}

/// The timing constraints of each speed mode.
pub open spec fn spec_mode_info(m: I2cSpeedMode) -> I2cSpeedModeInfo {
    match m {
        I2cSpeedMode::Standard => I2cSpeedModeInfo {
            min_scl_high_time_ns: 4000,
            min_scl_low_time_ns: 4700,
            def_rise_time_ns: 1000,
            def_fall_time_ns: 300,
        },
        I2cSpeedMode::Quick => I2cSpeedModeInfo {
            min_scl_high_time_ns: 600,
            min_scl_low_time_ns: 1300,
            def_rise_time_ns: 300,
            def_fall_time_ns: 300,
        },
        I2cSpeedMode::High => I2cSpeedModeInfo {
            min_scl_high_time_ns: 390,
            min_scl_low_time_ns: 460,
            def_rise_time_ns: 60,
            def_fall_time_ns: 160,
        },
    }
}

impl I2cSpeedModeInfo {
    /// The timing constraints of `speed_mode`.
    pub fn get_speed_mode_info(speed_mode: I2cSpeedMode) -> (info: Self)
        ensures
            info == spec_mode_info(speed_mode),
    {
        match speed_mode {
            I2cSpeedMode::Standard => Self {
                min_scl_high_time_ns: 4000,
                min_scl_low_time_ns: 4700,
                def_rise_time_ns: 1000,
                def_fall_time_ns: 300,
            },
            I2cSpeedMode::Quick => Self {
                min_scl_high_time_ns: 600,
                min_scl_low_time_ns: 1300,
                def_rise_time_ns: 300,
                def_fall_time_ns: 300,
            },
            I2cSpeedMode::High => Self {
                min_scl_high_time_ns: 390,
                min_scl_low_time_ns: 460,
                def_rise_time_ns: 60,
                def_fall_time_ns: 160,
            },
        }
    }
}

/// The SCL count registers' values for a speed mode. The SCL frequency is
/// `I2C_CLK_FREQ / (SCL_L_CNT + SCL_H_CNT + 1 + 7 + I2C_SPKLEN)`.
#[derive(Clone, Copy, Debug, PartialEq, Eq)]
pub struct I2cSpeedCfg {
    /// `None` until a mode is chosen.
    pub speed_mode: Option<I2cSpeedMode>,
    pub scl_lcnt: u32,
    pub scl_hcnt: u32,
    pub sda_hold: u32,
}

/// The built-in `(scl_lcnt, scl_hcnt, sda_hold)` of each mode.
pub open spec fn spec_default_counts(m: I2cSpeedMode) -> (u32, u32, u32) {
    match m {
        I2cSpeedMode::Standard => (232, 205, 15),
        I2cSpeedMode::Quick => (79, 18, 15),
        I2cSpeedMode::High => (31, 6, 15),
    }
}

impl I2cSpeedCfg {
    /// No mode chosen, all counts zero.
    pub fn new() -> (c: Self)
        ensures
            c == (I2cSpeedCfg { speed_mode: None, scl_lcnt: 0, scl_hcnt: 0, sda_hold: 0 }),
    {
        Self { speed_mode: None, scl_lcnt: 0, scl_hcnt: 0, sda_hold: 0 }
    }

    /// Loads the built-in counts of the chosen mode; without a mode nothing
    /// changes and `SpeedModeUnset` is returned.
    pub fn set_default_cfg(&mut self) -> (r: Result<(), I2cError>)
        ensures
            final(self).speed_mode == old(self).speed_mode,
            match old(self).speed_mode {
                Some(m) => {
                    &&& (final(self).scl_lcnt, final(self).scl_hcnt, final(self).sda_hold)
                        == spec_default_counts(m)
                    &&& r == Ok::<(), I2cError>(())
                },
                None => {
                    &&& *final(self) == *old(self)
                    &&& r == Err::<(), I2cError>(I2cError::SpeedModeUnset)
                },
            },
    {
        match self.speed_mode {
            Some(I2cSpeedMode::Standard) => {
                self.scl_lcnt = 232;
                self.scl_hcnt = 205;
                self.sda_hold = 15;
            },
            Some(I2cSpeedMode::Quick) => {
                self.scl_lcnt = 79;
                self.scl_hcnt = 18;
                self.sda_hold = 15;
            },
            Some(I2cSpeedMode::High) => {
                self.scl_lcnt = 31;
                self.scl_hcnt = 6;
                self.sda_hold = 15;
            },
            None => {
                return Err(I2cError::SpeedModeUnset);
            },
        }
        Ok(())
    }
}

} // verus!
