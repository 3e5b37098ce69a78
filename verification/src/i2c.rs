//! The I2C controller driver: configuration, bus timing, addressing and the
//! master-mode interrupt handlers.

use vstd::prelude::*;
use crate::field::{
    Field, FieldValue, bit_value, spec_field_val, spec_bit_field, spec_modify, spec_combine,
};
use crate::frame::{I2cTxFrame, I2cRxFrame};
use crate::regs::{
    RegOp, I2cRegSnapshot, IntrClear, ceil_div, div_round_up, i2c_get_enable, bit_set,
    i2c_clear_intr_bits, i2c_read_data, I2C_IIC_FIFO_MAX_LVL, I2C_DATA_MASK, IC_CON, IC_TAR, IC_SAR, IC_DATA_CMD,
    IC_SS_SCL_HCNT, IC_SS_SCL_LCNT, IC_FS_SCL_HCNT, IC_FS_SCL_LCNT, IC_HS_SCL_HCNT,
    IC_HS_SCL_LCNT, IC_INTR_MASK, IC_RX_TL, IC_TX_TL, IC_CLR_TX_ABRT, IC_ENABLE, IC_SDA_HOLD,
    CON_SPEED_SHIFT, CON_SPEED_MASK, CON_MASTER_MODE_BIT, CON_10BITADDR_SLAVE_BIT,
    CON_RESTART_EN_BIT, CON_SLAVE_DISABLE_BIT, TAR_ADDR_MASK, TAR_10BITADDR_MASTER_BIT,
    SAR_ADDR_MASK, DATA_CMD_CMD_BIT, DATA_CMD_STOP_BIT, INTR_RX_FULL, INTR_TX_EMPTY,
    INTR_TX_ABRT, INTR_ACTIVITY,
};
use crate::speed::{
    I2cSpeedMode, I2cSpeedModeInfo, I2cSpeedCfg, spec_mode_info, spec_speed_field,
    spec_default_counts, speed_field,
};

verus! {

/// Nanoseconds per millisecond: converts `kHz * ns` to clock cycles.
pub const NANO_TO_KILO: u32 = 1000000;

/// Lowest rate of each speed mode, in bit/s.
pub const I2C_SPEED_STANDARD_RATE: u32 = 100000;
pub const I2C_SPEED_FAST_RATE: u32 = 400000;
pub const I2C_SPEED_HIGH_RATE: u32 = 1000000;

/// SDA hold time used when the timing is calculated, in nanoseconds.
pub const I2C_DEFAULT_SDA_HOLD_NS: u32 = 300;

/// Whether the controller acts as bus master or as a slave.
#[derive(Clone, Copy, Debug, PartialEq, Eq, Structural)]
pub enum I2cWorkMode {
    Master,
    Slave,
}

/// Where the current transfer stands.
#[derive(Clone, Copy, Debug, PartialEq, Eq, Structural)]
pub enum I2cStatus {
    Idle,
    WriteInProgess,
    ReadInProgess,
    Error,
}

/// Why a request was refused.
#[derive(Clone, Copy, Debug, PartialEq, Eq, Structural)]
pub enum I2cError {
    /// The requested rate is below the standard mode's 100 kbit/s.
    BadSpeedRate,
    /// The clock is too slow for the mode: the high or low SCL count would
    /// be negative.
    BadCounts,
    /// No speed mode has been chosen.
    SpeedModeUnset,
}

/// What a master interrupt asks for once its status has been examined.
#[derive(Clone, Copy, Debug, PartialEq, Eq, Structural)]
pub enum MasterDispatch {
    /// Nothing more to do.
    Nothing,
    /// The receive FIFO is full: run [`I2c::master_intr_rx_full_handler`].
    RxFull,
    /// The transmit FIFO is empty: run [`I2c::master_intr_tx_empty_handler`].
    TxEmpty,
}

/// What `set_speed` plans: the register accesses, and whether the timing
/// calculation refused the clock (zero counts are programmed then).
#[derive(Debug, PartialEq, Eq)]
pub struct SpeedPlan {
    pub ops: Vec<RegOp>,
    pub counts_refused: bool,
}

/// What `set_addr` plans: the register accesses, and whether the target
/// address must be set afterwards (slave mode).
#[derive(Debug, PartialEq, Eq)]
pub struct AddrPlan {
    pub ops: Vec<RegOp>,
    pub set_tar: bool,
}

/// Static configuration of a controller instance.
#[derive(Clone, Copy, Debug, PartialEq, Eq)]
pub struct I2cConfig {
    pub instance_id: u32,
    pub base_addr: u32,
    pub irq_num: u32,
    pub irq_prority: u32,
    /// Frequency of the controller's reference (bus) clock, in Hz.
    pub ref_clk_hz: u32,
    pub master_mode: bool,
    pub slave_addr: u32,
    pub use_7bit_addr: bool,
    /// Bus rate, in bit/s.
    pub speed_rate: u32,
    /// Calculate the SCL counts from the clock (or use built-in ones).
    pub auto_calculate: bool,
    pub work_mode: I2cWorkMode,
}

/// The configuration of a controller that has not been set up.
pub open spec fn spec_config_new() -> I2cConfig {
    I2cConfig {
        instance_id: 0,
        base_addr: 0,
        irq_num: 0,
        irq_prority: 0,
        ref_clk_hz: 0,
        master_mode: true,
        slave_addr: 0,
        use_7bit_addr: true,
        speed_rate: 0,
        auto_calculate: true,
        work_mode: I2cWorkMode::Master,
    }
}

impl I2cConfig {
    /// Master mode, 7-bit addressing, automatic timing, everything else zero.
    pub fn new() -> (c: Self)
        ensures
            c == spec_config_new(),
    {
        Self {
            instance_id: 0,
            base_addr: 0,
            irq_num: 0,
            irq_prority: 0,
            ref_clk_hz: 0,
            master_mode: true,
            slave_addr: 0,
            use_7bit_addr: true,
            speed_rate: 0,
            auto_calculate: true,
            work_mode: I2cWorkMode::Master,
        }
    }
}

/// Callbacks for the events of master-mode transfers; each does nothing
/// unless the implementor overrides it.
pub trait I2cMasterEvtHandler {
    fn on_trans_aborted() {
    }

    fn on_read_done() {
    }

    fn on_write_done() {
    }
}

/// Callbacks for the events of slave-mode transfers; each does nothing
/// unless the implementor overrides it.
pub trait I2cSlaveEvtHandler {
    fn on_read_requested() {
    }

    fn on_write_requested() {
    }

    fn on_read_processed() {
    }

    fn on_write_processed() {
    }

    fn on_stop() {
    }

    fn on_abort() {
    }
}

/// A controller instance: its configuration and the state of its transfer.
#[derive(Debug)]
pub struct I2c {
    pub config: I2cConfig,
    pub is_ready: bool,
    pub status: I2cStatus,
    pub tx_frame: I2cTxFrame,
    pub rx_frame: I2cRxFrame,
}

/// Whether `i` is a controller exactly as [`I2c::new`] makes it, readiness
/// aside.
pub open spec fn is_fresh(i: I2c) -> bool {
    &&& i.config == spec_config_new()
    &&& i.status == I2cStatus::Idle
    &&& i.tx_frame.data_buff@ == Seq::<u8>::empty()
    &&& i.tx_frame.tx_cnt == 0
    &&& i.tx_frame.flags == 0
    &&& i.rx_frame.data_buff@ == Seq::<u8>::empty()
    &&& i.rx_frame.current_pos == 0
    &&& i.rx_frame.rx_cnt == 0
}

/// Clock cycles of a `clk` Hz clock in `ns` nanoseconds, rounded up.
pub open spec fn clk_cycles(clk: u32, ns: u32) -> int {
    ceil_div((clk / 1000) as int * ns as int, NANO_TO_KILO as int)
}

/// Whether converting `ns` at `clk` Hz stays within 32 bits.
pub open spec fn cycles_fit(clk: u32, ns: u32) -> bool {
    (clk / 1000) as int * ns as int + NANO_TO_KILO as int <= u32::MAX as int
}

/// Whether every conversion of the timing calculation for `info` at `clk`
/// Hz stays within 32 bits.
pub open spec fn timing_fits(clk: u32, info: I2cSpeedModeInfo) -> bool {
    &&& cycles_fit(clk, info.min_scl_high_time_ns)
    &&& cycles_fit(clk, info.min_scl_low_time_ns)
    &&& cycles_fit(clk, info.def_rise_time_ns)
    &&& cycles_fit(clk, info.def_fall_time_ns)
    &&& cycles_fit(clk, I2C_DEFAULT_SDA_HOLD_NS)
}

/// The high SCL count before the period is fitted:
/// SCL_High_time = (HCNT + SPKLEN + 7) * icClk + SCL_Fall_time.
pub open spec fn base_hcnt(clk: u32, spk: u32, info: I2cSpeedModeInfo) -> int {
    clk_cycles(clk, info.min_scl_high_time_ns) - clk_cycles(clk, info.def_fall_time_ns) - 7 - spk
}

/// The low SCL count before the period is fitted:
/// SCL_Low_time = (LCNT + 1) * icClk - SCL_Fall_time + SCL_Rise_time.
pub open spec fn base_lcnt(clk: u32, info: I2cSpeedModeInfo) -> int {
    clk_cycles(clk, info.min_scl_low_time_ns) - clk_cycles(clk, info.def_rise_time_ns)
        - clk_cycles(clk, info.def_fall_time_ns) - 1
}

/// The SCL period, in clock cycles, that the given counts make up.
pub open spec fn scl_total(hcnt: int, lcnt: int, spk: u32, clk: u32, info: I2cSpeedModeInfo) -> int {
    hcnt + lcnt + 7 + spk + clk_cycles(clk, info.def_rise_time_ns) + 1
}

/// The `(hcnt, lcnt)` that the timing calculation arrives at, or `None` when
/// a base count would be negative. When the base counts fall short of the
/// period `clk / rate`, half the shortfall goes to each count and what an
/// odd shortfall leaves goes to the low count.
pub open spec fn spec_timing(clk: u32, rate: u32, spk: u32, info: I2cSpeedModeInfo) -> Option<
    (int, int),
> {
    let h = base_hcnt(clk, spk, info);
    let l = base_lcnt(clk, info);
    if h < 0 || l < 0 {
        None
    } else {
        let period = clk as int / rate as int;
        let tot = scl_total(h, l, spk, clk, info);
        if tot < period {
            let diff = (period - tot) / 2;
            Some((h + diff, l + diff + (period - (tot + 2 * diff))))
        } else {
            Some((h, l))
        }
    }
}

/// Fitting the counts to the period hits it exactly: when the base counts
/// fall short of the period, the final counts make up the period, the high
/// count grows by half the shortfall and the low count by the rest.
pub proof fn lemma_timing_hits_period(clk: u32, rate: u32, spk: u32, info: I2cSpeedModeInfo)
    requires
        rate != 0,
        spec_timing(clk, rate, spk, info) is Some,
        scl_total(base_hcnt(clk, spk, info), base_lcnt(clk, info), spk, clk, info) < clk as int
            / rate as int,
    ensures
        ({
            let (h, l) = spec_timing(clk, rate, spk, info)->0;
            let h0 = base_hcnt(clk, spk, info);
            let l0 = base_lcnt(clk, info);
            let period = clk as int / rate as int;
            let short = period - scl_total(h0, l0, spk, clk, info);
            &&& scl_total(h, l, spk, clk, info) == period
            &&& h - h0 == short / 2
            &&& l - l0 == short - short / 2
            &&& 0 <= (l - l0) - (h - h0) <= 1
        }),
{
}

/// Counts at or above the period are kept as calculated.
pub proof fn lemma_timing_keeps_long_period(clk: u32, rate: u32, spk: u32, info: I2cSpeedModeInfo)
    requires
        rate != 0,
        spec_timing(clk, rate, spk, info) is Some,
        scl_total(base_hcnt(clk, spk, info), base_lcnt(clk, info), spk, clk, info) >= clk as int
            / rate as int,
    ensures
        spec_timing(clk, rate, spk, info) == Some((base_hcnt(clk, spk, info), base_lcnt(clk, info))),
{
}

/// The mode a bus rate calls for, or `None` below the standard rate.
pub open spec fn spec_mode_for_rate(rate: u32) -> Option<I2cSpeedMode> {
    if I2C_SPEED_HIGH_RATE <= rate {
        Some(I2cSpeedMode::High)
    } else if I2C_SPEED_FAST_RATE <= rate {
        Some(I2cSpeedMode::Quick)
    } else if I2C_SPEED_STANDARD_RATE <= rate {
        Some(I2cSpeedMode::Standard)
    } else {
        None
    }
}

/// The spike suppression length in force for a mode: high speed has its
/// own register, standard and fast modes share `IC_FS_SPKLEN`.
pub open spec fn spec_spklen(m: I2cSpeedMode, hw: I2cRegSnapshot) -> u32 {
    match m {
        I2cSpeedMode::High => hw.hs_spklen,
        _ => hw.fs_spklen,
    }
}

/// The SCL high count register of a mode.
pub open spec fn hcnt_reg(m: I2cSpeedMode) -> u32 {
    match m {
        I2cSpeedMode::Standard => IC_SS_SCL_HCNT,
        I2cSpeedMode::Quick => IC_FS_SCL_HCNT,
        I2cSpeedMode::High => IC_HS_SCL_HCNT,
    }
}

/// The SCL low count register of a mode.
pub open spec fn lcnt_reg(m: I2cSpeedMode) -> u32 {
    match m {
        I2cSpeedMode::Standard => IC_SS_SCL_LCNT,
        I2cSpeedMode::Quick => IC_FS_SCL_LCNT,
        I2cSpeedMode::High => IC_HS_SCL_LCNT,
    }
}

/// `IC_CON` with its speed field set for `m`.
pub open spec fn con_with_speed(con: u32, m: I2cSpeedMode) -> u32 {
    spec_modify(
        spec_field_val(Field { mask: CON_SPEED_MASK, shift: CON_SPEED_SHIFT }, spec_speed_field(m)),
        con,
    )
}

/// The writes that program the counts of `cfg` for its mode.
pub open spec fn timing_plan(cfg: I2cSpeedCfg, con: u32) -> Seq<RegOp>
    recommends
        cfg.speed_mode is Some,
{
    let m = cfg.speed_mode->0;
    seq![
        RegOp::Write { offset: IC_CON, value: con_with_speed(con, m) },
        RegOp::Write { offset: hcnt_reg(m), value: cfg.scl_hcnt },
        RegOp::Write { offset: lcnt_reg(m), value: cfg.scl_lcnt },
        RegOp::Write { offset: IC_SDA_HOLD, value: cfg.sda_hold },
    ]
}

/// The counts `set_speed` programs for mode `m`: calculated ones (left at
/// zero when the calculation refuses the clock), or the mode's built-in ones.
pub open spec fn spec_speed_cfg(
    clk: u32,
    rate: u32,
    spk: u32,
    m: I2cSpeedMode,
    auto_calc: bool,
) -> I2cSpeedCfg {
    if auto_calc {
        match spec_timing(clk, rate, spk, spec_mode_info(m)) {
            Some((h, l)) => I2cSpeedCfg {
                speed_mode: Some(m),
                scl_lcnt: l as u32,
                scl_hcnt: h as u32,
                sda_hold: clk_cycles(clk, I2C_DEFAULT_SDA_HOLD_NS) as u32,
            },
            None => I2cSpeedCfg { speed_mode: Some(m), scl_lcnt: 0, scl_hcnt: 0, sda_hold: 0 },
        }
    } else {
        let (l, h, s) = spec_default_counts(m);
        I2cSpeedCfg { speed_mode: Some(m), scl_lcnt: l, scl_hcnt: h, sda_hold: s }
    }
}

/// `ops` between a switch-off and a switch-on of `IC_ENABLE` when the
/// controller was on; `ops` alone when it was off.
pub open spec fn with_enable_written(enabled: bool, ops: Seq<RegOp>) -> Seq<RegOp> {
    if enabled {
        seq![RegOp::Write { offset: IC_ENABLE, value: 0 }] + ops + seq![
            RegOp::Write { offset: IC_ENABLE, value: 1 },
        ]
    } else {
        ops
    }
}

/// `ops` between a disable and an enable handshake when the controller was
/// on; `ops` alone when it was off.
pub open spec fn with_enable_handshake(enabled: bool, ops: Seq<RegOp>) -> Seq<RegOp> {
    if enabled {
        seq![RegOp::SetEnable { enable: false }] + ops + seq![RegOp::SetEnable { enable: true }]
    } else {
        ops
    }
}

/// The plan of `set_speed` for mode `m`.
pub open spec fn speed_plan(
    config: I2cConfig,
    rate: u32,
    auto_calc: bool,
    m: I2cSpeedMode,
    hw: I2cRegSnapshot,
) -> Seq<RegOp> {
    with_enable_written(
        bit_set(hw.enable, 0),
        timing_plan(
            spec_speed_cfg(config.ref_clk_hz, rate, spec_spklen(m, hw), m, auto_calc),
            hw.con,
        ),
    )
}

/// The two writes that set the target address: the address field alone,
/// then the addressing-mode bit merged in.
pub open spec fn tar_writes(use_7bit_addr: bool, tar_addr: u32) -> Seq<RegOp> {
    let first = tar_addr & TAR_ADDR_MASK;
    seq![
        RegOp::Write { offset: IC_TAR, value: first },
        RegOp::Write {
            offset: IC_TAR,
            value: spec_modify(
                spec_field_val(
                    spec_bit_field(TAR_10BITADDR_MASTER_BIT),
                    if use_7bit_addr { 0u32 } else { 1u32 },
                ),
                first,
            ),
        },
    ]
}

/// The `IC_CON` writes that select the work mode.
pub open spec fn con_mode_writes(work_mode: I2cWorkMode, use_7bit_addr: bool, con: u32) -> Seq<RegOp> {
    match work_mode {
        I2cWorkMode::Master => seq![
            RegOp::Write {
                offset: IC_CON,
                value: spec_modify(
                    spec_combine(
                        spec_combine(
                            spec_field_val(spec_bit_field(CON_SLAVE_DISABLE_BIT), 1),
                            spec_field_val(spec_bit_field(CON_MASTER_MODE_BIT), 1),
                        ),
                        spec_field_val(spec_bit_field(CON_RESTART_EN_BIT), 1),
                    ),
                    con,
                ),
            },
        ],
        I2cWorkMode::Slave => {
            let c1 = spec_modify(
                spec_field_val(
                    spec_bit_field(CON_10BITADDR_SLAVE_BIT),
                    if use_7bit_addr { 0u32 } else { 1u32 },
                ),
                con,
            );
            let c2 = spec_modify(
                spec_combine(
                    spec_field_val(spec_bit_field(CON_MASTER_MODE_BIT), 0),
                    spec_field_val(spec_bit_field(CON_SLAVE_DISABLE_BIT), 0),
                ),
                c1,
            );
            seq![
                RegOp::Write { offset: IC_CON, value: c1 },
                RegOp::Write { offset: IC_CON, value: c2 },
            ]
        },
    }
}

/// The plan of `set_addr`.
pub open spec fn addr_plan(work_mode: I2cWorkMode, use_7bit_addr: bool, hw: I2cRegSnapshot) -> Seq<
    RegOp,
> {
    let head = if bit_set(hw.enable_status, 0) {
        seq![RegOp::SetEnable { enable: false }]
    } else {
        seq![]
    };
    head + con_mode_writes(work_mode, use_7bit_addr, hw.con) + seq![
        RegOp::Write { offset: IC_RX_TL, value: 0 },
        RegOp::Write { offset: IC_TX_TL, value: 0 },
        RegOp::Write { offset: IC_INTR_MASK, value: 0 },
        RegOp::SetEnable { enable: true },
    ]
}

/// Whether a transfer is under way.
pub open spec fn in_progress(s: I2cStatus) -> bool {
    s == I2cStatus::WriteInProgess || s == I2cStatus::ReadInProgess
}

/// The `IC_DATA_CMD` word for one byte of a transfer: the byte itself for a
/// write, the read command for a read, with STOP on the last one.
pub open spec fn tx_cmd_word(s: I2cStatus, byte: u8, last: bool) -> u32 {
    let stop: u32 = if last { 1u32 << DATA_CMD_STOP_BIT } else { 0 };
    if s == I2cStatus::WriteInProgess {
        (byte as u32) | stop
    } else {
        (1u32 << DATA_CMD_CMD_BIT) | stop
    }
}

/// How many commands one transmit-empty interrupt hands to the controller:
/// as many as are left, and as the transmit and receive FIFOs have room for.
pub open spec fn tx_batch(s: I2cStatus, left: int, txflr: u32, rxflr: u32) -> int {
    if in_progress(s) {
        let tx_room = I2C_IIC_FIFO_MAX_LVL - txflr;
        let rx_room = I2C_IIC_FIFO_MAX_LVL - rxflr;
        let m = if tx_room < rx_room { tx_room } else { rx_room };
        if left < m {
            left
        } else {
            m
        }
    } else {
        0
    }
}

/// The commands for bytes `cnt .. cnt + n` of `data`.
pub open spec fn tx_cmds(s: I2cStatus, data: Seq<u8>, cnt: int, n: int) -> Seq<RegOp> {
    Seq::new(
        n as nat,
        |k: int|
            RegOp::Write {
                offset: IC_DATA_CMD,
                value: tx_cmd_word(s, data[cnt + k], cnt + k + 1 == data.len()),
            },
    )
}

/// `IC_INTR_MASK` with interrupt `bit` masked off.
pub open spec fn mask_off(mask: u32, bit: u32) -> u32 {
    spec_modify(spec_field_val(spec_bit_field(bit), 0), mask)
}

/// The byte of a `IC_DATA_CMD` reading.
pub open spec fn data_byte(v: u32) -> u8 {
    (v & 0xff) as u8
}

/// The speed mode for a bus rate, or `None` below the standard rate.
pub fn speed_mode_for_rate(speed_rate: u32) -> (m: Option<I2cSpeedMode>)
    ensures
        m == spec_mode_for_rate(speed_rate),
{
    if I2C_SPEED_HIGH_RATE <= speed_rate {
        Some(I2cSpeedMode::High)
    } else if I2C_SPEED_FAST_RATE <= speed_rate {
        Some(I2cSpeedMode::Quick)
    } else if I2C_SPEED_STANDARD_RATE <= speed_rate {
        Some(I2cSpeedMode::Standard)
    } else {
        None
    }
}

fn cycles_fit_exec(khz: u32, ns: u32, Ghost(clk): Ghost<u32>) -> (r: bool)
    requires
        khz == clk / 1000,
    ensures
        r == cycles_fit(clk, ns),
{
    let k = khz as u64;
    let n = ns as u64;
    assert(k * n <= 0xffff_ffff * 0xffff_ffff) by (nonlinear_arith)
        requires
            k <= 0xffff_ffff,
            n <= 0xffff_ffff,
    ;
    k * n + (NANO_TO_KILO as u64) <= 0xffff_ffffu64
}

/// Whether the timing calculation for `mode` at `clk` Hz stays within 32
/// bits: what `calc_timing` and `set_speed` need of the clock.
pub fn timing_fits_for(clk: u32, mode: I2cSpeedMode) -> (r: bool)
    ensures
        r == timing_fits(clk, spec_mode_info(mode)),
{
    let info = I2cSpeedModeInfo::get_speed_mode_info(mode);
    let khz = clk / 1000;
    cycles_fit_exec(khz, info.min_scl_high_time_ns, Ghost(clk)) && cycles_fit_exec(
        khz,
        info.min_scl_low_time_ns,
        Ghost(clk),
    ) && cycles_fit_exec(khz, info.def_rise_time_ns, Ghost(clk)) && cycles_fit_exec(
        khz,
        info.def_fall_time_ns,
        Ghost(clk),
    ) && cycles_fit_exec(khz, I2C_DEFAULT_SDA_HOLD_NS, Ghost(clk))
}

/// `div_round_up(khz * ns, NANO_TO_KILO)`: clock cycles in `ns` nanoseconds.
fn cycles(khz: u32, ns: u32, Ghost(clk): Ghost<u32>) -> (r: u32)
    requires
        khz == clk / 1000,
        cycles_fit(clk, ns),
    ensures
        r == clk_cycles(clk, ns),
        r <= 4295,
{
    let r = div_round_up(khz * ns, NANO_TO_KILO);
    assert(r <= 4295) by (nonlinear_arith)
        requires
            r * 1000000 < khz * ns + 1000000,
            khz * ns + 1000000 <= 0xffff_ffff,
    ;
    r
}

impl I2c {
    /// A controller that is not ready, idle, with empty frames.
    pub fn new() -> (i: Self)
        ensures
            is_fresh(i),
            !i.is_ready,
    {
        Self {
            config: I2cConfig::new(),
            is_ready: false,
            status: I2cStatus::Idle,
            tx_frame: I2cTxFrame::new(),
            rx_frame: I2cRxFrame::new(),
        }
    }

    /// Resets the controller's state and marks it ready; a controller that
    /// is ready already is left as it is.
    pub fn cfg_init(&mut self)
        ensures
            cfg_init_post(*old(self), *final(self)),
    {
        if self.is_ready {
            return ;
        }
        *self = I2c::new();
        self.is_ready = true;
    }

    /// Calculates the SCL counts and SDA hold of `speed_cfg`'s mode from the
    /// reference clock, the bus rate and the spike length `spk_num`. When a
    /// count would be negative, `speed_cfg` is left as it is.
    pub fn calc_timing(&self, spk_num: u32, speed_cfg: &mut I2cSpeedCfg) -> (r: Result<(), I2cError>)
        requires
            old(speed_cfg).speed_mode is Some,
            self.config.speed_rate != 0,
            timing_fits(self.config.ref_clk_hz, spec_mode_info(old(speed_cfg).speed_mode->0)),
        ensures
            match spec_timing(
                self.config.ref_clk_hz,
                self.config.speed_rate,
                spk_num,
                spec_mode_info(old(speed_cfg).speed_mode->0),
            ) {
                None => r == Err::<(), I2cError>(I2cError::BadCounts) && *final(speed_cfg) == *old(
                    speed_cfg,
                ),
                Some((h, l)) => {
                    &&& r == Ok::<(), I2cError>(())
                    &&& final(speed_cfg).speed_mode == old(speed_cfg).speed_mode
                    &&& final(speed_cfg).scl_hcnt == h
                    &&& final(speed_cfg).scl_lcnt == l
                    &&& final(speed_cfg).sda_hold == clk_cycles(
                        self.config.ref_clk_hz,
                        I2C_DEFAULT_SDA_HOLD_NS,
                    )
                },
            },
    {
        let mode = speed_cfg.speed_mode.unwrap();
        let speed_info = I2cSpeedModeInfo::get_speed_mode_info(mode);
        let bus_clk_hz = self.config.ref_clk_hz;
        let period_cnt = bus_clk_hz / self.config.speed_rate;
        let khz = bus_clk_hz / 1000;
        let ghost clk = bus_clk_hz;

        // convert a period to a number of IC clk cycles
        let rise_cnt = cycles(khz, speed_info.def_rise_time_ns, Ghost(clk));
        let fall_cnt = cycles(khz, speed_info.def_fall_time_ns, Ghost(clk));
        let min_t_low_cnt = cycles(khz, speed_info.min_scl_low_time_ns, Ghost(clk));
        let min_t_high_cnt = cycles(khz, speed_info.min_scl_high_time_ns, Ghost(clk));

        // Back-solve for hcnt and lcnt:
        // SCL_High_time = [(HCNT + IC_*_SPKLEN + 7) * icClk] + SCL_Fall_time
        // SCL_Low_time = [(LCNT + 1) * icClk] - SCL_Fall_time + SCL_Rise_time
        if (min_t_high_cnt as u64) < (fall_cnt as u64) + 7 + (spk_num as u64) || (
        min_t_low_cnt as u64) < (rise_cnt as u64) + (fall_cnt as u64) + 1 {
            return Err(I2cError::BadCounts);
        }
        let mut hcnt = min_t_high_cnt - fall_cnt - 7 - spk_num;
        let mut lcnt = min_t_low_cnt - rise_cnt - fall_cnt - 1;

        // Add things back up to hit the period; split the difference and
        // bias to lcnt for the remainder.
        let mut tot = hcnt + lcnt + 7 + spk_num + rise_cnt + 1;
        if tot < period_cnt {
            let diff = (period_cnt - tot) / 2;
            hcnt = hcnt + diff;
            lcnt = lcnt + diff;
            tot = hcnt + lcnt + 7 + spk_num + rise_cnt + 1;
            lcnt = lcnt + (period_cnt - tot);
        }
        speed_cfg.scl_hcnt = hcnt;
        speed_cfg.scl_lcnt = lcnt;
        // Use the internal default unless another value is specified.
        speed_cfg.sda_hold = cycles(khz, I2C_DEFAULT_SDA_HOLD_NS, Ghost(clk));
        Ok(())
    }
}

/// The writes that set the target address, between enable handshakes when
/// `enabled`.
fn tar_ops(use_7bit_addr: bool, tar_addr: u32, enabled: bool) -> (ops: Vec<RegOp>)
    ensures
        ops@ == with_enable_handshake(enabled, tar_writes(use_7bit_addr, tar_addr)),
{
    let mut ops: Vec<RegOp> = Vec::new();
    if enabled {
        ops.push(RegOp::SetEnable { enable: false });
    }
    let first = Field::new(TAR_ADDR_MASK, 0).val(tar_addr & TAR_ADDR_MASK).value;
    assert(((tar_addr & 0x3ffu32) & 0x3ffu32) << 0u32 == tar_addr & 0x3ffu32) by (bit_vector);
    ops.push(RegOp::Write { offset: IC_TAR, value: first });
    let second = bit_value(TAR_10BITADDR_MASTER_BIT, !use_7bit_addr).modify(first);
    ops.push(RegOp::Write { offset: IC_TAR, value: second });
    if enabled {
        ops.push(RegOp::SetEnable { enable: true });
    }
    assert(ops@ =~= with_enable_handshake(enabled, tar_writes(use_7bit_addr, tar_addr)));
    ops
}

impl I2c {
    /// Programs the counts of `speed_cfg` for its mode: the speed field of
    /// `IC_CON` (read-modify-write on the snapshot's `con`), the mode's SCL
    /// count registers and the SDA hold time.
    pub fn set_timing(&self, speed_cfg: &I2cSpeedCfg, hw: &I2cRegSnapshot) -> (ops: Vec<RegOp>)
        requires
            speed_cfg.speed_mode is Some,
        ensures
            ops@ == timing_plan(*speed_cfg, hw.con),
    {
        let mode = speed_cfg.speed_mode.unwrap();
        let con = Field::new(CON_SPEED_MASK, CON_SPEED_SHIFT).val(speed_field(mode)).modify(hw.con);
        let (hcnt_off, lcnt_off) = match mode {
            I2cSpeedMode::Standard => (IC_SS_SCL_HCNT, IC_SS_SCL_LCNT),
            I2cSpeedMode::Quick => (IC_FS_SCL_HCNT, IC_FS_SCL_LCNT),
            I2cSpeedMode::High => (IC_HS_SCL_HCNT, IC_HS_SCL_LCNT),
        };
        let mut ops: Vec<RegOp> = Vec::new();
        ops.push(RegOp::Write { offset: IC_CON, value: con });
        ops.push(RegOp::Write { offset: hcnt_off, value: speed_cfg.scl_hcnt });
        ops.push(RegOp::Write { offset: lcnt_off, value: speed_cfg.scl_lcnt });
        ops.push(RegOp::Write { offset: IC_SDA_HOLD, value: speed_cfg.sda_hold });
        assert(ops@ =~= timing_plan(*speed_cfg, hw.con));
        ops
    }

    /// Sets the bus rate: picks the speed mode for `speed_rate`, works out
    /// the counts (calculated when `auto_calc`, built-in otherwise) and
    /// programs them with the controller switched off, switching it back on
    /// if it was on. When the calculation refuses the clock, zero counts are
    /// programmed and `counts_refused` reports it. A rate below the standard
    /// one is refused; the choice of `auto_calc` is recorded either way.
    pub fn set_speed(
        &mut self,
        speed_rate: u32,
        auto_calc: bool,
        hw: &I2cRegSnapshot,
    ) -> (r: Result<SpeedPlan, I2cError>)
        requires
            spec_mode_for_rate(speed_rate) is Some && auto_calc ==> timing_fits(
                old(self).config.ref_clk_hz,
                spec_mode_info(spec_mode_for_rate(speed_rate)->0),
            ),
        ensures
            final(self).status == old(self).status,
            final(self).is_ready == old(self).is_ready,
            final(self).tx_frame == old(self).tx_frame,
            final(self).rx_frame == old(self).rx_frame,
            match spec_mode_for_rate(speed_rate) {
                None => {
                    &&& r == Err::<SpeedPlan, I2cError>(I2cError::BadSpeedRate)
                    &&& final(self).config == (I2cConfig {
                        auto_calculate: auto_calc,
                        ..old(self).config
                    })
                },
                Some(m) => {
                    &&& r is Ok
                    &&& r->Ok_0.ops@ == speed_plan(
                        old(self).config,
                        speed_rate,
                        auto_calc,
                        m,
                        *hw,
                    )
                    &&& r->Ok_0.counts_refused == (auto_calc && spec_timing(
                        old(self).config.ref_clk_hz,
                        speed_rate,
                        spec_spklen(m, *hw),
                        spec_mode_info(m),
                    ) is None)
                    &&& final(self).config == (I2cConfig {
                        auto_calculate: auto_calc,
                        speed_rate: speed_rate,
                        ..old(self).config
                    })
                },
            },
    {
        self.config.auto_calculate = auto_calc;
        let mode = match speed_mode_for_rate(speed_rate) {
            Some(m) => m,
            None => {
                return Err(I2cError::BadSpeedRate);
            },
        };
        self.config.speed_rate = speed_rate;
        let spk_num = match mode {
            I2cSpeedMode::High => hw.hs_spklen,
            _ => hw.fs_spklen,
        };

        // switch the controller off while the timing changes, restore after
        let is_enable = Field::new(1, 0).is_set(hw.enable);
        assert(1u32 << 0u32 == 1u32) by (bit_vector);
        let mut ops: Vec<RegOp> = Vec::new();
        if is_enable {
            ops.push(RegOp::Write { offset: IC_ENABLE, value: 0 });
        }
        let mut speed_cfg = I2cSpeedCfg::new();
        speed_cfg.speed_mode = Some(mode);
        let mut counts_refused = false;
        if auto_calc {
            counts_refused = self.calc_timing(spk_num, &mut speed_cfg).is_err();
        } else {
            let _ = speed_cfg.set_default_cfg();
        }
        assert(speed_cfg == spec_speed_cfg(
            self.config.ref_clk_hz,
            speed_rate,
            spk_num,
            mode,
            auto_calc,
        ));
        let mut timing = self.set_timing(&speed_cfg, hw);
        ops.append(&mut timing);
        if is_enable {
            ops.push(RegOp::Write { offset: IC_ENABLE, value: 1 });
        }
        assert(ops@ =~= speed_plan(old(self).config, speed_rate, auto_calc, mode, *hw));
        Ok(SpeedPlan { ops, counts_refused })
    }

    /// Sets the target address (10-bit field) and the master's addressing
    /// mode (`use_7bit_addr`), with the controller switched off by the
    /// handshake if it was on and switched back on after.
    pub fn set_tar(&self, tar_addr: u32, hw: &I2cRegSnapshot) -> (ops: Vec<RegOp>)
        ensures
            ops@ == with_enable_handshake(
                bit_set(hw.enable_status, 0),
                tar_writes(self.config.use_7bit_addr, tar_addr),
            ),
    {
        let is_enable = i2c_get_enable(hw.enable_status);
        tar_ops(self.config.use_7bit_addr, tar_addr, is_enable)
    }

    /// Sets the slave address (10-bit field), with the controller switched
    /// off by the handshake if it was on and switched back on after.
    pub fn set_sar(sar_addr: u32, hw: &I2cRegSnapshot) -> (ops: Vec<RegOp>)
        ensures
            ops@ == with_enable_handshake(
                bit_set(hw.enable_status, 0),
                seq![RegOp::Write { offset: IC_SAR, value: sar_addr & SAR_ADDR_MASK }],
            ),
    {
        let is_enable = i2c_get_enable(hw.enable_status);
        let mut ops: Vec<RegOp> = Vec::new();
        if is_enable {
            ops.push(RegOp::SetEnable { enable: false });
        }
        let sar = Field::new(SAR_ADDR_MASK, 0).val(sar_addr & SAR_ADDR_MASK).value;
        assert(((sar_addr & 0x3ffu32) & 0x3ffu32) << 0u32 == sar_addr & 0x3ffu32) by (bit_vector);
        ops.push(RegOp::Write { offset: IC_SAR, value: sar });
        if is_enable {
            ops.push(RegOp::SetEnable { enable: true });
        }
        assert(ops@ =~= with_enable_handshake(
            is_enable,
            seq![RegOp::Write { offset: IC_SAR, value: sar_addr & SAR_ADDR_MASK }],
        ));
        ops
    }

    /// Puts the controller in `work_mode` with `slave_addr` recorded: the
    /// mode bits of `IC_CON`, FIFO thresholds to zero, all interrupts
    /// masked, then the enable handshake. In slave mode (`set_tar` in the
    /// result) the caller then sets the target address to `slave_addr` with
    /// [`I2c::set_tar`] on a snapshot read after the handshake.
    pub fn set_addr(
        &mut self,
        work_mode: I2cWorkMode,
        slave_addr: u32,
        hw: &I2cRegSnapshot,
    ) -> (plan: AddrPlan)
        ensures
            plan.ops@ == addr_plan(work_mode, old(self).config.use_7bit_addr, *hw),
            plan.set_tar == (work_mode == I2cWorkMode::Slave),
            final(self).config == (I2cConfig {
                slave_addr: slave_addr,
                work_mode: work_mode,
                master_mode: work_mode == I2cWorkMode::Master,
                ..old(self).config
            }),
            final(self).status == old(self).status,
            final(self).is_ready == old(self).is_ready,
            final(self).tx_frame == old(self).tx_frame,
            final(self).rx_frame == old(self).rx_frame,
    {
        let is_enable = i2c_get_enable(hw.enable_status);
        let mut ops: Vec<RegOp> = Vec::new();
        if is_enable {
            ops.push(RegOp::SetEnable { enable: false });
        }
        let ghost head = ops@;
        let set_tar = match work_mode {
            I2cWorkMode::Master => {
                let fv = bit_value(CON_SLAVE_DISABLE_BIT, true).plus(
                    bit_value(CON_MASTER_MODE_BIT, true),
                ).plus(bit_value(CON_RESTART_EN_BIT, true));
                ops.push(RegOp::Write { offset: IC_CON, value: fv.modify(hw.con) });
                false
            },
            I2cWorkMode::Slave => {
                let c1 = bit_value(CON_10BITADDR_SLAVE_BIT, !self.config.use_7bit_addr).modify(
                    hw.con,
                );
                ops.push(RegOp::Write { offset: IC_CON, value: c1 });
                let c2 = bit_value(CON_MASTER_MODE_BIT, false).plus(
                    bit_value(CON_SLAVE_DISABLE_BIT, false),
                ).modify(c1);
                ops.push(RegOp::Write { offset: IC_CON, value: c2 });
                true
            },
        };
        assert(ops@ =~= head + con_mode_writes(work_mode, self.config.use_7bit_addr, hw.con));
        self.config.slave_addr = slave_addr;
        self.config.work_mode = work_mode;
        self.config.master_mode = !set_tar;

        ops.push(RegOp::Write { offset: IC_RX_TL, value: 0 });
        ops.push(RegOp::Write { offset: IC_TX_TL, value: 0 });
        // mask all interrupts
        ops.push(RegOp::Write { offset: IC_INTR_MASK, value: 0 });
        ops.push(RegOp::SetEnable { enable: true });
        assert(ops@ =~= addr_plan(work_mode, old(self).config.use_7bit_addr, *hw));
        AddrPlan { ops, set_tar }
    }
}

/// The `IC_DATA_CMD` word for one byte, built from its fields: DAT, CMD
/// and STOP.
fn cmd_word(status: I2cStatus, byte: u8, last: bool) -> (w: u32)
    requires
        in_progress(status),
    ensures
        w == tx_cmd_word(status, byte, last),
{
    let stop = bit_value(DATA_CMD_STOP_BIT, last);
    let s: u32 = if last { 1 } else { 0 };
    assert(s == 0 || s == 1);
    match status {
        I2cStatus::WriteInProgess => {
            let data = (byte as u32) & I2C_DATA_MASK;
            let fv = Field::new(0xff, 0).val(data).plus(bit_value(DATA_CMD_CMD_BIT, false)).plus(stop);
            let b = byte as u32;
            assert((((((b & 0xffu32) & 0xffu32) << 0u32) | ((0u32 & 1u32) << 8u32)) | ((s & 1u32)
                << 9u32)) == b | (if s == 1u32 { 1u32 << 9u32 } else { 0u32 })) by (bit_vector)
                requires
                    b <= 0xff,
                    s == 0 || s == 1,
            ;
            fv.value
        },
        _ => {
            let fv = bit_value(DATA_CMD_CMD_BIT, true).plus(stop);
            assert((((1u32 & 1u32) << 8u32) | ((s & 1u32) << 9u32)) == (1u32 << 8u32) | (if s == 1u32 {
                1u32 << 9u32
            } else {
                0u32
            })) by (bit_vector)
                requires
                    s == 0 || s == 1,
            ;
            fv.value
        },
    }
}

impl I2c {
    /// The transmit-FIFO-empty interrupt in master mode: hands the
    /// controller the next commands of the transfer in progress (data bytes
    /// for a write, read commands for a read, STOP with the last one), as
    /// many as are left and as both FIFOs have room for (their levels are
    /// the snapshot's `txflr` and `rxflr`). Once every command is out the
    /// count restarts, a write becomes idle and the interrupt is masked off.
    pub fn master_intr_tx_empty_handler(&mut self, hw: &I2cRegSnapshot) -> (ops: Vec<RegOp>)
        requires
            old(self).tx_frame.tx_cnt <= old(self).tx_frame.data_buff.len(),
            old(self).tx_frame.data_buff.len() <= u32::MAX,
            hw.txflr <= I2C_IIC_FIFO_MAX_LVL,
            hw.rxflr <= I2C_IIC_FIFO_MAX_LVL,
        ensures
            ({
                let len = old(self).tx_frame.data_buff.len() as int;
                let cnt = old(self).tx_frame.tx_cnt as int;
                let n = tx_batch(old(self).status, len - cnt, hw.txflr, hw.rxflr);
                let done = cnt + n == len;
                &&& ops@ == tx_cmds(old(self).status, old(self).tx_frame.data_buff@, cnt, n) + if done {
                    seq![
                        RegOp::Write {
                            offset: IC_INTR_MASK,
                            value: mask_off(hw.intr_mask, INTR_TX_EMPTY),
                        },
                    ]
                } else {
                    seq![]
                }
                &&& final(self).tx_frame.tx_cnt == if done {
                    0
                } else {
                    cnt + n
                }
                &&& final(self).status == if done && old(self).status == I2cStatus::WriteInProgess {
                    I2cStatus::Idle
                } else {
                    old(self).status
                }
            }),
            final(self).tx_frame.data_buff@ == old(self).tx_frame.data_buff@,
            final(self).tx_frame.flags == old(self).tx_frame.flags,
            keeps_or_idles(old(self).status, final(self).status),
            final(self).config == old(self).config,
            final(self).is_ready == old(self).is_ready,
            final(self).rx_frame == old(self).rx_frame,
    {
        let len = self.tx_frame.data_buff.len();
        let cnt = self.tx_frame.tx_cnt as usize;
        let mut buf_len: usize = len - cnt;
        let mut rx_limit: u32 = I2C_IIC_FIFO_MAX_LVL - hw.rxflr;
        let mut tx_limit: u32 = I2C_IIC_FIFO_MAX_LVL - hw.txflr;
        let mut ops: Vec<RegOp> = Vec::new();
        let status = self.status;
        let ghost data = self.tx_frame.data_buff@;
        let active = match status {
            I2cStatus::WriteInProgess => true,
            I2cStatus::ReadInProgess => true,
            _ => false,
        };
        if active {
            while buf_len > 0 && tx_limit > 0 && rx_limit > 0
                invariant
                    in_progress(status),
                    self.status == status,
                    self.tx_frame.data_buff@ == data,
                    len == data.len(),
                    cnt <= len,
                    buf_len <= len - cnt,
                    tx_limit + (len - cnt - buf_len) == I2C_IIC_FIFO_MAX_LVL - hw.txflr,
                    rx_limit + (len - cnt - buf_len) == I2C_IIC_FIFO_MAX_LVL - hw.rxflr,
                    ops@ == tx_cmds(status, data, cnt as int, (len - cnt - buf_len) as int),
                decreases buf_len,
            {
                let idx = len - buf_len;
                let last = buf_len == 1;
                let word = cmd_word(status, self.tx_frame.data_buff[idx], last);
                ops.push(RegOp::Write { offset: IC_DATA_CMD, value: word });
                rx_limit = rx_limit - 1;
                tx_limit = tx_limit - 1;
                buf_len = buf_len - 1;
                assert(ops@ =~= tx_cmds(status, data, cnt as int, (len - cnt - buf_len) as int));
            }
        }
        assert((len - cnt - buf_len) as int == tx_batch(status, len - cnt, hw.txflr, hw.rxflr));
        let ghost cmds = ops@;
        let sent = len - buf_len;
        self.tx_frame.tx_cnt = sent as u32;
        if sent == len {
            self.tx_frame.tx_cnt = 0;
            match status {
                I2cStatus::WriteInProgess => {
                    self.status = I2cStatus::Idle;
                },
                _ => {},
            }
            let mask = bit_value(INTR_TX_EMPTY, false).modify(hw.intr_mask);
            ops.push(RegOp::Write { offset: IC_INTR_MASK, value: mask });
        } else {
            assert(cmds + seq![] =~= cmds);
        }
        ops
    }

    /// The receive-FIFO-full interrupt in master mode: appends the bytes of
    /// the `IC_DATA_CMD` values read from the FIFO (`fifo_data`, as many as
    /// `IC_RXFLR` reported) and counts them. Once the count reaches the
    /// buffer's length it restarts, the controller becomes idle, the
    /// interrupt is masked off and the FIFO is drained.
    pub fn master_intr_rx_full_handler(&mut self, fifo_data: &Vec<u32>, hw: &I2cRegSnapshot) -> (ops:
        Vec<RegOp>)
        requires
            old(self).rx_frame.rx_cnt + fifo_data.len() <= u32::MAX,
        ensures
            final(self).rx_frame.data_buff@ == old(self).rx_frame.data_buff@ + fifo_data@.map_values(
                |v: u32| data_byte(v),
            ),
            final(self).rx_frame.current_pos == old(self).rx_frame.current_pos,
            keeps_or_idles(old(self).status, final(self).status),
            ({
                let cnt = old(self).rx_frame.rx_cnt + fifo_data.len();
                let done = cnt >= final(self).rx_frame.data_buff.len();
                &&& final(self).rx_frame.rx_cnt == if done {
                    0
                } else {
                    cnt
                }
                &&& final(self).status == if done {
                    I2cStatus::Idle
                } else {
                    old(self).status
                }
                &&& ops@ == if done {
                    seq![
                        RegOp::Write {
                            offset: IC_INTR_MASK,
                            value: mask_off(hw.intr_mask, INTR_RX_FULL),
                        },
                        RegOp::FlushRxFifo,
                    ]
                } else {
                    seq![]
                }
            }),
            final(self).config == old(self).config,
            final(self).is_ready == old(self).is_ready,
            final(self).tx_frame == old(self).tx_frame,
    {
        let ghost start = self.rx_frame.data_buff@;
        let count = fifo_data.len();
        let mut i: usize = 0;
        while i < count
            invariant
                count == fifo_data.len(),
                i <= count,
                self.rx_frame.data_buff@ == start + fifo_data@.subrange(0, i as int).map_values(
                    |v: u32| data_byte(v),
                ),
                self.rx_frame.current_pos == old(self).rx_frame.current_pos,
                self.rx_frame.rx_cnt == old(self).rx_frame.rx_cnt,
                self.config == old(self).config,
                self.is_ready == old(self).is_ready,
                self.status == old(self).status,
                self.tx_frame == old(self).tx_frame,
            decreases count - i,
        {
            let v = fifo_data[i];
            let b = i2c_read_data(v);
            assert(v & 0xffu32 <= 0xffu32) by (bit_vector);
            self.rx_frame.data_buff.push(b);
            i = i + 1;
            assert(fifo_data@.subrange(0, i as int) =~= fifo_data@.subrange(0, i - 1).push(v));
            assert(self.rx_frame.data_buff@ =~= start + fifo_data@.subrange(0, i as int).map_values(
                |v: u32| data_byte(v),
            ));
        }
        assert(fifo_data@.subrange(0, count as int) =~= fifo_data@);
        self.rx_frame.rx_cnt = self.rx_frame.rx_cnt + count as u32;
        let mut ops: Vec<RegOp> = Vec::new();
        if self.rx_frame.rx_cnt as usize >= self.rx_frame.data_buff.len() {
            self.rx_frame.rx_cnt = 0;
            self.status = I2cStatus::Idle;
            let mask = bit_value(INTR_RX_FULL, false).modify(hw.intr_mask);
            ops.push(RegOp::Write { offset: IC_INTR_MASK, value: mask });
            ops.push(RegOp::FlushRxFifo);
        }
        ops
    }

    /// The first half of the master interrupt: outside master mode nothing
    /// is done (`None`); in master mode clearing the pending interrupts
    /// starts, with the snapshot's `intr_stat` as the status before clearing.
    pub fn master_intr_handler(&self, hw: &I2cRegSnapshot) -> (r: Option<IntrClear>)
        ensures
            self.config.work_mode != I2cWorkMode::Master ==> r is None,
            self.config.work_mode == I2cWorkMode::Master ==> r == Some(
                IntrClear { stat: hw.intr_stat, next: 0 },
            ),
    {
        match self.config.work_mode {
            I2cWorkMode::Master => Some(i2c_clear_intr_bits(hw.intr_stat)),
            I2cWorkMode::Slave => None,
        }
    }

    /// The second half of the master interrupt, on `stat` (the interrupt
    /// status before clearing) and `hw` read after clearing. Nothing happens
    /// unless the controller is enabled and the bus active. A transmit abort
    /// puts the transfer in error, masks all interrupts, clears the abort and
    /// keeps the controller on; otherwise a full receive FIFO or an empty
    /// transmit FIFO is handed to its handler.
    pub fn master_intr_dispatch(&mut self, stat: u32, hw: &I2cRegSnapshot) -> (r: (
        Vec<RegOp>,
        MasterDispatch,
    ))
        ensures
            final(self).config == old(self).config,
            final(self).is_ready == old(self).is_ready,
            final(self).tx_frame == old(self).tx_frame,
            final(self).rx_frame == old(self).rx_frame,
            intr_status_step(old(self).status, final(self).status, stat),
            !bit_set(hw.enable, 0) || !bit_set(hw.raw_intr_stat, INTR_ACTIVITY) ==> {
                &&& r.0@ == Seq::<RegOp>::empty()
                &&& r.1 == MasterDispatch::Nothing
                &&& final(self).status == old(self).status
            },
            bit_set(hw.enable, 0) && bit_set(hw.raw_intr_stat, INTR_ACTIVITY) ==> {
                if bit_set(stat, INTR_TX_ABRT) {
                    &&& r.0@ == seq![
                        RegOp::Write { offset: IC_INTR_MASK, value: 0 },
                        RegOp::Read { offset: IC_CLR_TX_ABRT },
                        RegOp::Write {
                            offset: IC_ENABLE,
                            value: spec_modify(spec_field_val(spec_bit_field(0), 1), hw.enable),
                        },
                    ]
                    &&& r.1 == MasterDispatch::Nothing
                    &&& final(self).status == I2cStatus::Error
                } else {
                    &&& r.0@ == Seq::<RegOp>::empty()
                    &&& final(self).status == old(self).status
                    &&& r.1 == if bit_set(stat, INTR_RX_FULL) {
                        MasterDispatch::RxFull
                    } else if bit_set(stat, INTR_TX_EMPTY) {
                        MasterDispatch::TxEmpty
                    } else {
                        MasterDispatch::Nothing
                    }
                }
            },
    {
        let mut ops: Vec<RegOp> = Vec::new();
        let enabled = Field::new(1, 0).is_set(hw.enable);
        let active = Field::new(1, INTR_ACTIVITY).is_set(hw.raw_intr_stat);
        assert(1u32 << 0u32 == 1u32) by (bit_vector);
        if !enabled || !active {
            return (ops, MasterDispatch::Nothing);
        }
        // transfer aborted
        if stat & (1u32 << INTR_TX_ABRT) != 0 {
            self.status = I2cStatus::Error;
            // mask all interrupts
            ops.push(RegOp::Write { offset: IC_INTR_MASK, value: 0 });
            ops.push(RegOp::Read { offset: IC_CLR_TX_ABRT });
            let en = bit_value(0, true).modify(hw.enable);
            ops.push(RegOp::Write { offset: IC_ENABLE, value: en });
            return (ops, MasterDispatch::Nothing);
        }
        // receive FIFO full

        if stat & (1u32 << INTR_RX_FULL) != 0 {
            return (ops, MasterDispatch::RxFull);
        }
        // transmit FIFO empty

        if stat & (1u32 << INTR_TX_EMPTY) != 0 {
            return (ops, MasterDispatch::TxEmpty);
        }
        (ops, MasterDispatch::Nothing)
    }
}

/// Whether `op` can change whether the controller is on: a write to
/// `IC_ENABLE` or an enable handshake.
pub open spec fn touches_enable(op: RegOp) -> bool {
    match op {
        RegOp::Write { offset, value: _ } => offset == IC_ENABLE,
        RegOp::SetEnable { enable: _ } => true,
        _ => false,
    }
}

/// `set_speed` switches the controller off first and on last exactly when
/// it was on, and touches `IC_ENABLE` nowhere else; a controller that was
/// off is left off.
pub proof fn lemma_speed_plan_restores_enable(
    config: I2cConfig,
    rate: u32,
    auto_calc: bool,
    m: I2cSpeedMode,
    hw: I2cRegSnapshot,
)
    ensures
        ({
            let p = speed_plan(config, rate, auto_calc, m, hw);
            if bit_set(hw.enable, 0) {
                &&& p.len() == 6
                &&& p[0] == RegOp::Write { offset: IC_ENABLE, value: 0 }
                &&& p[5] == RegOp::Write { offset: IC_ENABLE, value: 1 }
                &&& forall|i: int| 0 < i < 5 ==> !touches_enable(#[trigger] p[i])
            } else {
                &&& p.len() == 4
                &&& forall|i: int| 0 <= i < 4 ==> !touches_enable(#[trigger] p[i])
            }
        }),
{
    let p = speed_plan(config, rate, auto_calc, m, hw);
    let t = timing_plan(spec_speed_cfg(config.ref_clk_hz, rate, spec_spklen(m, hw), m, auto_calc), hw.con);
    assert(forall|i: int| 0 <= i < 4 ==> !touches_enable(#[trigger] t[i]));
    if bit_set(hw.enable, 0) {
        assert(forall|i: int| 0 < i < 5 ==> p[i] == t[i - 1]);
    }
}

/// `set_tar` runs the disable handshake first and the enable handshake last
/// exactly when the controller was on, and touches the enable state nowhere
/// else.
pub proof fn lemma_tar_plan_restores_enable(enabled: bool, use_7bit_addr: bool, tar_addr: u32)
    ensures
        ({
            let p = with_enable_handshake(enabled, tar_writes(use_7bit_addr, tar_addr));
            if enabled {
                &&& p.len() == 4
                &&& p[0] == RegOp::SetEnable { enable: false }
                &&& p[3] == RegOp::SetEnable { enable: true }
                &&& forall|i: int| 0 < i < 3 ==> !touches_enable(#[trigger] p[i])
            } else {
                &&& p.len() == 2
                &&& forall|i: int| 0 <= i < 2 ==> !touches_enable(#[trigger] p[i])
            }
        }),
{
    let p = with_enable_handshake(enabled, tar_writes(use_7bit_addr, tar_addr));
    let t = tar_writes(use_7bit_addr, tar_addr);
    if enabled {
        assert(forall|i: int| 0 < i < 3 ==> p[i] == t[i - 1]);
    }
}

/// The target address field reads back as the low ten bits of the
/// address, and the addressing-mode bit as 10-bit mode exactly when 7-bit
/// addressing is off.
pub proof fn lemma_tar_writes_read_back(use_7bit_addr: bool, tar_addr: u32)
    ensures
        ({
            let v = tar_writes(use_7bit_addr, tar_addr)[1]->Write_value;
            &&& v & TAR_ADDR_MASK == tar_addr & TAR_ADDR_MASK
            &&& (v & (1u32 << TAR_10BITADDR_MASTER_BIT) != 0) == !use_7bit_addr
        }),
{
    let b: u32 = if use_7bit_addr { 0 } else { 1 };
    let t = tar_addr;
    assert(((((t & 0x3ffu32) & !(1u32 << 12u32)) | ((b & 1u32) << 12u32)) & 0x3ffu32) == t
        & 0x3ffu32) by (bit_vector);
    assert(((((t & 0x3ffu32) & !(1u32 << 12u32)) | ((b & 1u32) << 12u32)) & (1u32 << 12u32) != 0)
        == (b == 1u32)) by (bit_vector)
        requires
            b == 0 || b == 1,
    ;
}

/// The speed field of `IC_CON` reads back as the mode's number, and every
/// other bit of `IC_CON` is kept.
pub proof fn lemma_con_speed_read_back(con: u32, m: I2cSpeedMode)
    ensures
        (con_with_speed(con, m) >> CON_SPEED_SHIFT) & CON_SPEED_MASK == spec_speed_field(m),
        con_with_speed(con, m) & !(CON_SPEED_MASK << CON_SPEED_SHIFT) == con & !(CON_SPEED_MASK
            << CON_SPEED_SHIFT),
{
    let v = spec_speed_field(m);
    assert(((((con & !(3u32 << 1u32)) | ((v & 3u32) << 1u32)) >> 1u32) & 3u32) == v) by (bit_vector)
        requires
            1 <= v <= 3,
    ;
    assert((((con & !(3u32 << 1u32)) | ((v & 3u32) << 1u32)) & !(3u32 << 1u32)) == con & !(3u32
        << 1u32)) by (bit_vector);
}

/// Handing out commands in two batches gives the same commands as handing
/// them out in one: successive transmit-empty interrupts continue where the
/// previous one stopped.
pub proof fn lemma_tx_cmds_batches(s: I2cStatus, data: Seq<u8>, cnt: int, n1: int, n2: int)
    requires
        0 <= n1,
        0 <= n2,
    ensures
        tx_cmds(s, data, cnt, n1) + tx_cmds(s, data, cnt + n1, n2) == tx_cmds(s, data, cnt, n1 + n2),
{
    assert(tx_cmds(s, data, cnt, n1) + tx_cmds(s, data, cnt + n1, n2) =~= tx_cmds(
        s,
        data,
        cnt,
        n1 + n2,
    ));
}

/// Within a transfer, the command for a byte carries STOP exactly when it
/// is the last byte; a write's command carries the byte itself and a read's
/// the read command.
pub proof fn lemma_tx_cmd_word_fields(s: I2cStatus, byte: u8, last: bool)
    requires
        in_progress(s),
    ensures
        (tx_cmd_word(s, byte, last) & (1u32 << DATA_CMD_STOP_BIT) != 0) == last,
        s == I2cStatus::WriteInProgess ==> tx_cmd_word(s, byte, last) & I2C_DATA_MASK == byte
            && tx_cmd_word(s, byte, last) & (1u32 << DATA_CMD_CMD_BIT) == 0,
        s == I2cStatus::ReadInProgess ==> tx_cmd_word(s, byte, last) & (1u32 << DATA_CMD_CMD_BIT)
            != 0,
{
    let b = byte as u32;
    assert((b | (1u32 << 9u32)) & (1u32 << 9u32) != 0) by (bit_vector);
    assert(b & (1u32 << 9u32) == 0 && b & (1u32 << 8u32) == 0 && b & 0xffu32 == b) by (bit_vector)
        requires
            b <= 0xff,
    ;
    assert((b | (1u32 << 9u32)) & 0xffu32 == b && (b | (1u32 << 9u32)) & (1u32 << 8u32) == 0) by (bit_vector)
        requires
            b <= 0xff,
    ;
    assert(((1u32 << 8u32) | (1u32 << 9u32)) & (1u32 << 9u32) != 0 && ((1u32 << 8u32) | (1u32
        << 9u32)) & (1u32 << 8u32) != 0) by (bit_vector);
    assert((1u32 << 8u32) & (1u32 << 9u32) == 0 && (1u32 << 8u32) & (1u32 << 8u32) != 0) by (bit_vector);
    assert((b | 0u32) == b) by (bit_vector);
    assert(((1u32 << 8u32) | 0u32) == (1u32 << 8u32)) by (bit_vector);
}

/// One transmit-empty interrupt never hands out more commands than are
/// left nor more than either FIFO has room for, and hands out at least one
/// when a transfer is under way, something is left and both FIFOs have room.
pub proof fn lemma_tx_batch_fits(s: I2cStatus, left: int, txflr: u32, rxflr: u32)
    requires
        0 <= left,
        txflr <= I2C_IIC_FIFO_MAX_LVL,
        rxflr <= I2C_IIC_FIFO_MAX_LVL,
    ensures
        0 <= tx_batch(s, left, txflr, rxflr) <= left,
        tx_batch(s, left, txflr, rxflr) <= I2C_IIC_FIFO_MAX_LVL - txflr,
        tx_batch(s, left, txflr, rxflr) <= I2C_IIC_FIFO_MAX_LVL - rxflr,
        in_progress(s) && left > 0 && txflr < I2C_IIC_FIFO_MAX_LVL && rxflr < I2C_IIC_FIFO_MAX_LVL
            ==> tx_batch(s, left, txflr, rxflr) > 0,
        !in_progress(s) ==> tx_batch(s, left, txflr, rxflr) == 0,
        in_progress(s) ==> {
            ||| tx_batch(s, left, txflr, rxflr) == left
            ||| tx_batch(s, left, txflr, rxflr) == I2C_IIC_FIFO_MAX_LVL - txflr
            ||| tx_batch(s, left, txflr, rxflr) == I2C_IIC_FIFO_MAX_LVL - rxflr
        },
{
}

/// A higher bus rate never selects a slower speed mode.
pub proof fn lemma_mode_for_rate_monotone(r1: u32, r2: u32)
    requires
        r1 <= r2,
        spec_mode_for_rate(r1) is Some,
    ensures
        spec_mode_for_rate(r2) is Some,
        spec_speed_field(spec_mode_for_rate(r1)->0) <= spec_speed_field(spec_mode_for_rate(r2)->0),
{
}

/// What `cfg_init` makes of `before`.
pub open spec fn cfg_init_post(before: I2c, after: I2c) -> bool {
    &&& before.is_ready ==> after == before
    &&& !before.is_ready ==> is_fresh(after) && after.is_ready
}

/// Initialising twice is initialising once: the second call finds the
/// controller ready and changes nothing.
pub proof fn lemma_cfg_init_idempotent(a: I2c, b: I2c, c: I2c)
    requires
        cfg_init_post(a, b),
        cfg_init_post(b, c),
    ensures
        c == b,
        b.is_ready,
{
}

/// The status stays as it was or becomes idle.
pub open spec fn keeps_or_idles(before: I2cStatus, after: I2cStatus) -> bool {
    after == before || after == I2cStatus::Idle
}

/// How the dispatch step of the master interrupt may move the status: it
/// stays, becomes idle, or becomes an error when `stat` shows a transmit
/// abort.
pub open spec fn intr_status_step(before: I2cStatus, after: I2cStatus, stat: u32) -> bool {
    keeps_or_idles(before, after) || (after == I2cStatus::Error && bit_set(stat, INTR_TX_ABRT))
}

/// The master interrupt never starts a transfer: taken through dispatch
/// (`s0` to `s1`, on the interrupt status `stat`) and then the FIFO handler
/// it asks for (`s1` to `s2`), the status ends as it was, idle, or in error,
/// and in error only when it was already or `stat` shows a transmit abort.
pub proof fn lemma_master_intr_never_starts_transfer(
    s0: I2cStatus,
    s1: I2cStatus,
    s2: I2cStatus,
    stat: u32,
)
    requires
        intr_status_step(s0, s1, stat),
        keeps_or_idles(s1, s2),
    ensures
        s2 == s0 || s2 == I2cStatus::Idle || s2 == I2cStatus::Error,
        s2 == I2cStatus::Error && s0 != I2cStatus::Error ==> bit_set(stat, INTR_TX_ABRT),
        in_progress(s2) ==> s2 == s0,
{
}

/// While a transfer is in progress one transmit-empty interrupt hands out
/// the smallest of: the commands left, the transmit FIFO's room and the
/// receive FIFO's room; so after it either every command is out or one of
/// the FIFOs is full.
pub proof fn lemma_tx_batch_is_min_of_left_and_rooms(s: I2cStatus, left: int, txflr: u32, rxflr: u32)
    requires
        in_progress(s),
        0 <= left,
        txflr <= I2C_IIC_FIFO_MAX_LVL,
        rxflr <= I2C_IIC_FIFO_MAX_LVL,
    ensures
        ({
            let n = tx_batch(s, left, txflr, rxflr);
            let tx_room = 8 - txflr;
            let rx_room = 8 - rxflr;
            &&& n <= left && n <= tx_room && n <= rx_room
            &&& n == left || n == tx_room || n == rx_room
            &&& n == left || left - n > 0 && (txflr + n == 8 || rxflr + n == 8)
        }),
{
}

/// Masking off an interrupt changes only that interrupt's bit of
/// `IC_INTR_MASK`: the bit is clear afterwards and every other bit is kept.
pub proof fn lemma_mask_off_only_that_bit(mask: u32, bit: u32)
    requires
        bit < 32,
    ensures
        mask_off(mask, bit) & (1u32 << bit) == 0,
        mask_off(mask, bit) & !(1u32 << bit) == mask & !(1u32 << bit),
        mask_off(mask, bit) == mask & !(1u32 << bit),
{
    assert(((mask & !(1u32 << bit)) | ((0u32 & 1u32) << bit)) == mask & !(1u32 << bit)) by (bit_vector)
        requires
            bit < 32,
    ;
    assert((mask & !(1u32 << bit)) & (1u32 << bit) == 0) by (bit_vector);
    assert((mask & !(1u32 << bit)) & !(1u32 << bit) == mask & !(1u32 << bit)) by (bit_vector);
}

/// The byte kept from an `IC_DATA_CMD` reading is its low eight bits.
pub proof fn lemma_data_byte_is_low_byte(v: u32)
    ensures
        data_byte(v) as u32 == v & 0xff,
{
    assert(v & 0xffu32 <= 0xffu32) by (bit_vector);
}

/// The `IC_CON` writes of `set_addr` are read-modify-writes of the `IC_CON`
/// read before them. Master mode sets MASTER_MODE, RESTART_EN and
/// SLAVE_DISABLE and keeps every other bit (the speed field and the
/// addressing bits among them). Slave mode first sets the slave's 10-bit
/// addressing bit as `use_7bit_addr` asks, keeping the rest, then clears
/// MASTER_MODE and SLAVE_DISABLE, keeping the rest.
pub proof fn lemma_set_addr_con_writes_merge(
    work_mode: I2cWorkMode,
    use_7bit_addr: bool,
    hw: I2cRegSnapshot,
)
    ensures
        ({
            let p = addr_plan(work_mode, use_7bit_addr, hw);
            let k: int = if bit_set(hw.enable_status, 0) { 1 } else { 0 };
            match work_mode {
                I2cWorkMode::Master => {
                    &&& p[k] is Write && p[k]->Write_offset == IC_CON
                    &&& p[k]->Write_value & !0x61u32 == hw.con & !0x61u32
                    &&& p[k]->Write_value & 0x61u32 == 0x61u32
                    &&& p[k + 1] == RegOp::Write { offset: IC_RX_TL, value: 0 }
                },
                I2cWorkMode::Slave => {
                    let c1 = p[k]->Write_value;
                    let c2 = p[k + 1]->Write_value;
                    &&& p[k] is Write && p[k]->Write_offset == IC_CON
                    &&& p[k + 1] is Write && p[k + 1]->Write_offset == IC_CON
                    &&& c1 & !0x8u32 == hw.con & !0x8u32
                    &&& (c1 & 0x8u32 != 0) == !use_7bit_addr
                    &&& c2 & !0x41u32 == c1 & !0x41u32
                    &&& c2 & 0x41u32 == 0
                    &&& p[k + 2] == RegOp::Write { offset: IC_RX_TL, value: 0 }
                },
            }
        }),
{
    let con = hw.con;
    let p = addr_plan(work_mode, use_7bit_addr, hw);
    let head: Seq<RegOp> = if bit_set(hw.enable_status, 0) {
        seq![RegOp::SetEnable { enable: false }]
    } else {
        seq![]
    };
    let w = con_mode_writes(work_mode, use_7bit_addr, con);
    let tail = seq![
        RegOp::Write { offset: IC_RX_TL, value: 0 },
        RegOp::Write { offset: IC_TX_TL, value: 0 },
        RegOp::Write { offset: IC_INTR_MASK, value: 0 },
        RegOp::SetEnable { enable: true },
    ];
    assert(p == head + w + tail);
    let k: int = head.len() as int;
    assert(forall|i: int| 0 <= i < w.len() ==> p[k + i] == w[i]);
    assert(p[k + w.len()] == tail[0]);
    match work_mode {
        I2cWorkMode::Master => {
            assert((((con & !(((1u32 << 6u32) | (1u32 << 0u32)) | (1u32 << 5u32))) | ((((1u32 & 1u32)
                << 6u32) | ((1u32 & 1u32) << 0u32)) | ((1u32 & 1u32) << 5u32))) & !0x61u32) == con
                & !0x61u32) by (bit_vector);
            assert((((con & !(((1u32 << 6u32) | (1u32 << 0u32)) | (1u32 << 5u32))) | ((((1u32 & 1u32)
                << 6u32) | ((1u32 & 1u32) << 0u32)) | ((1u32 & 1u32) << 5u32))) & 0x61u32)
                == 0x61u32) by (bit_vector);
        },
        I2cWorkMode::Slave => {
            let b: u32 = if use_7bit_addr { 0 } else { 1 };
            let c1 = (con & !(1u32 << 3u32)) | ((b & 1u32) << 3u32);
            assert(c1 & !0x8u32 == con & !0x8u32) by (bit_vector)
                requires
                    c1 == (con & !(1u32 << 3u32)) | ((b & 1u32) << 3u32),
            ;
            assert((c1 & 0x8u32 != 0) == (b == 1)) by (bit_vector)
                requires
                    c1 == (con & !(1u32 << 3u32)) | ((b & 1u32) << 3u32),
                    b == 0 || b == 1,
            ;
            let c2 = (c1 & !((1u32 << 0u32) | (1u32 << 6u32))) | (((0u32 & 1u32) << 0u32) | ((0u32
                & 1u32) << 6u32));
            assert(c2 & !0x41u32 == c1 & !0x41u32 && c2 & 0x41u32 == 0) by (bit_vector)
                requires
                    c2 == (c1 & !((1u32 << 0u32) | (1u32 << 6u32))) | (((0u32 & 1u32) << 0u32) | ((
                        0u32 & 1u32) << 6u32)),
            ;
        },
    }
}

/// In high-speed mode the spike length that enters the count calculation
/// is the `IC_HS_SPKLEN` reading, in standard and fast mode the
/// `IC_FS_SPKLEN` reading: with calculated counts the programmed SCL counts
/// are those the calculation gives for that reading, and a refused
/// calculation is refused for that reading. The other register does not
/// matter.
pub proof fn lemma_set_speed_spike_length(
    config: I2cConfig,
    rate: u32,
    hw: I2cRegSnapshot,
    other: u32,
)
    requires
        spec_mode_for_rate(rate) is Some,
    ensures
        ({
            let m = spec_mode_for_rate(rate)->0;
            let spk = if m == I2cSpeedMode::High { hw.hs_spklen } else { hw.fs_spklen };
            let hw2 = if m == I2cSpeedMode::High {
                I2cRegSnapshot { fs_spklen: other, ..hw }
            } else {
                I2cRegSnapshot { hs_spklen: other, ..hw }
            };
            let t = timing_plan(spec_speed_cfg(config.ref_clk_hz, rate, spk, m, true), hw.con);
            let k: int = if bit_set(hw.enable, 0) { 1 } else { 0 };
            let p = speed_plan(config, rate, true, m, hw);
            &&& forall|i: int| 0 <= i < 4 ==> p[k + i] == t[i]
            &&& match spec_timing(config.ref_clk_hz, rate, spk, spec_mode_info(m)) {
                Some((h, l)) => p[k + 1]->Write_value == h as u32 && p[k + 2]->Write_value
                    == l as u32,
                None => p[k + 1]->Write_value == 0 && p[k + 2]->Write_value == 0,
            }
            &&& speed_plan(config, rate, true, m, hw2) == p
        }),
{
    let m = spec_mode_for_rate(rate)->0;
    let spk = if m == I2cSpeedMode::High { hw.hs_spklen } else { hw.fs_spklen };
    assert(spec_spklen(m, hw) == spk);
    let t = timing_plan(spec_speed_cfg(config.ref_clk_hz, rate, spk, m, true), hw.con);
    let p = speed_plan(config, rate, true, m, hw);
    if bit_set(hw.enable, 0) {
        assert(forall|i: int| 0 <= i < 4 ==> p[1 + i] == t[i]);
    }
}

/// The calculated counts honour the mode's timing: the SCL high time
/// `(hcnt + spk + 7)` cycles plus the fall time reaches the minimum high
/// time, the low time `(lcnt + 1)` cycles plus the rise and fall times
/// reaches the minimum low time, and the period they make up is at least
/// `clk / rate`. They are stretched only to hit that period: either they
/// are the minimal counts or they make up the period exactly.
pub proof fn lemma_timing_meets_minimums(clk: u32, rate: u32, spk: u32, info: I2cSpeedModeInfo)
    requires
        rate != 0,
        spec_timing(clk, rate, spk, info) is Some,
    ensures
        ({
            let (h, l) = spec_timing(clk, rate, spk, info)->0;
            let high = clk_cycles(clk, info.min_scl_high_time_ns);
            let low = clk_cycles(clk, info.min_scl_low_time_ns);
            let rise = clk_cycles(clk, info.def_rise_time_ns);
            let fall = clk_cycles(clk, info.def_fall_time_ns);
            let total = h + l + 7 + spk + rise + 1;
            let period = clk as int / rate as int;
            &&& h >= 0 && l >= 0
            &&& h + spk + 7 + fall >= high
            &&& l + 1 + rise + fall >= low
            &&& total >= period
            &&& total == period || (h + spk + 7 + fall == high && l + 1 + rise + fall == low)
        }),
{
}

/// A nanosecond span converts to the fewest clock cycles that cover it: the
/// cycles times 10^6 reach `(clk / 1000) * ns` and fall short of it by less
/// than one cycle.
pub proof fn lemma_clk_cycles_is_ceiling(clk: u32, ns: u32)
    ensures
        clk_cycles(clk, ns) * 1_000_000 >= (clk / 1000) as int * ns as int,
        clk_cycles(clk, ns) * 1_000_000 < (clk / 1000) as int * ns as int + 1_000_000,
{
    let n = (clk / 1000) as int * ns as int;
    let r = clk_cycles(clk, ns);
    assert(n >= 0) by (nonlinear_arith)
        requires
            n == (clk / 1000) as int * ns as int,
    ;
    assert(r * 1_000_000 >= n && r * 1_000_000 < n + 1_000_000) by (nonlinear_arith)
        requires
            r == (n + 1_000_000 - 1) / 1_000_000,
            n >= 0,
    ;
}

/// The commands of one transmit-empty interrupt go to `IC_DATA_CMD` and are
/// for the bytes that follow those already sent, in order: in a write the
/// `k`-th carries byte `cnt + k`, in a read each carries the read command,
/// and STOP is set exactly on the command for the last byte of the frame.
pub proof fn lemma_tx_cmds_carry_next_bytes(s: I2cStatus, data: Seq<u8>, cnt: int, n: int)
    requires
        in_progress(s),
        0 <= cnt,
        0 <= n,
        cnt + n <= data.len(),
    ensures
        tx_cmds(s, data, cnt, n).len() == n,
        forall|k: int|
            0 <= k < n ==> {
                let op = #[trigger] tx_cmds(s, data, cnt, n)[k];
                &&& op is Write
                &&& op->Write_offset == IC_DATA_CMD
                &&& (op->Write_value & 0x200u32 != 0) == (cnt + k == data.len() - 1)
                &&& s == I2cStatus::WriteInProgess ==> op->Write_value & 0xffu32 == data[cnt + k]
                    && op->Write_value & 0x100u32 == 0
                &&& s == I2cStatus::ReadInProgess ==> op->Write_value & 0x100u32 != 0
            },
{
    assert forall|k: int| 0 <= k < n implies {
        let op = #[trigger] tx_cmds(s, data, cnt, n)[k];
        &&& op is Write
        &&& op->Write_offset == IC_DATA_CMD
        &&& (op->Write_value & 0x200u32 != 0) == (cnt + k == data.len() - 1)
        &&& s == I2cStatus::WriteInProgess ==> op->Write_value & 0xffu32 == data[cnt + k]
            && op->Write_value & 0x100u32 == 0
        &&& s == I2cStatus::ReadInProgess ==> op->Write_value & 0x100u32 != 0
    } by {
        lemma_tx_cmd_word_fields(s, data[cnt + k], cnt + k + 1 == data.len());
        assert(1u32 << 9u32 == 0x200u32 && 1u32 << 8u32 == 0x100u32) by (bit_vector);
    }
}

} // verus!
