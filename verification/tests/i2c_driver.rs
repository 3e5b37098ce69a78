use phytium_i2c::frame::{I2cRxFrame, I2cTxFrame};
use phytium_i2c::i2c::{
    speed_mode_for_rate, timing_fits_for, I2c, I2cConfig, I2cError, I2cMasterEvtHandler, I2cSlaveEvtHandler, I2cStatus, I2cWorkMode,
    MasterDispatch,
};
use phytium_i2c::regs::{
    I2cRegSnapshot, RegOp, IC_CLR_TX_ABRT, IC_CON, IC_DATA_CMD, IC_ENABLE,
    IC_FS_SCL_HCNT, IC_FS_SCL_LCNT, IC_HS_SCL_HCNT, IC_HS_SCL_LCNT, IC_INTR_MASK, IC_RX_TL,
    IC_SAR, IC_SDA_HOLD, IC_SS_SCL_HCNT, IC_SS_SCL_LCNT, IC_TAR, IC_TX_TL,
};
use phytium_i2c::speed::{I2cSpeedCfg, I2cSpeedMode, I2cSpeedModeInfo};

fn snapshot() -> I2cRegSnapshot {
    I2cRegSnapshot {
        con: 0,
        enable: 0,
        enable_status: 0,
        intr_stat: 0,
        raw_intr_stat: 0,
        intr_mask: 0,
        tx_abrt_source: 0,
        txflr: 0,
        rxflr: 0,
        fs_spklen: 0,
        hs_spklen: 0,
    }
}

fn controller(clk: u32, rate: u32) -> I2c {
    let mut i = I2c::new();
    i.config.ref_clk_hz = clk;
    i.config.speed_rate = rate;
    i
}

#[test]
fn config_new_defaults() {
    let c = I2cConfig::new();
    assert_eq!(c.instance_id, 0);
    assert_eq!(c.ref_clk_hz, 0);
    assert!(c.master_mode);
    assert!(c.use_7bit_addr);
    assert!(c.auto_calculate);
    assert_eq!(c.speed_rate, 0);
    assert_eq!(c.work_mode, I2cWorkMode::Master);
}

#[test]
fn frames_start_empty_and_collect_bytes() {
    let mut tx = I2cTxFrame::new();
    assert!(tx.data_buff.is_empty());
    assert_eq!((tx.tx_cnt, tx.flags), (0, 0));
    tx.push_byte(0x12);
    tx.push_byte(0x34);
    assert_eq!(tx.data_buff, vec![0x12, 0x34]);
    assert_eq!(tx.tx_cnt, 0);

    let mut rx = I2cRxFrame::new();
    assert_eq!(rx.next_byte(), None);
    rx.data_buff = vec![7, 8];
    assert_eq!(rx.next_byte(), Some(7));
    assert_eq!(rx.next_byte(), Some(8));
    assert_eq!(rx.current_pos, 2);
    assert_eq!(rx.next_byte(), None);
    assert_eq!(rx.current_pos, 2);
}

#[test]
fn speed_mode_info_table() {
    let s = I2cSpeedModeInfo::get_speed_mode_info(I2cSpeedMode::Standard);
    assert_eq!(
        (s.min_scl_high_time_ns, s.min_scl_low_time_ns, s.def_rise_time_ns, s.def_fall_time_ns),
        (4000, 4700, 1000, 300)
    );
    let q = I2cSpeedModeInfo::get_speed_mode_info(I2cSpeedMode::Quick);
    assert_eq!(
        (q.min_scl_high_time_ns, q.min_scl_low_time_ns, q.def_rise_time_ns, q.def_fall_time_ns),
        (600, 1300, 300, 300)
    );
    let h = I2cSpeedModeInfo::get_speed_mode_info(I2cSpeedMode::High);
    assert_eq!(
        (h.min_scl_high_time_ns, h.min_scl_low_time_ns, h.def_rise_time_ns, h.def_fall_time_ns),
        (390, 460, 60, 160)
    );
}

#[test]
fn speed_cfg_defaults() {
    let mut c = I2cSpeedCfg::new();
    assert_eq!(c.speed_mode, None);
    assert_eq!(c.set_default_cfg(), Err(I2cError::SpeedModeUnset));
    assert_eq!((c.scl_lcnt, c.scl_hcnt, c.sda_hold), (0, 0, 0));
    c.speed_mode = Some(I2cSpeedMode::Standard);
    assert_eq!(c.set_default_cfg(), Ok(()));
    assert_eq!((c.scl_lcnt, c.scl_hcnt, c.sda_hold), (232, 205, 15));
    c.speed_mode = Some(I2cSpeedMode::Quick);
    c.set_default_cfg();
    assert_eq!((c.scl_lcnt, c.scl_hcnt, c.sda_hold), (79, 18, 15));
    c.speed_mode = Some(I2cSpeedMode::High);
    c.set_default_cfg();
    assert_eq!((c.scl_lcnt, c.scl_hcnt, c.sda_hold), (31, 6, 15));
}

#[test]
fn cfg_init_resets_once() {
    let mut i = I2c::new();
    assert!(!i.is_ready);
    i.config.slave_addr = 0x50;
    i.status = I2cStatus::Error;
    i.cfg_init();
    assert!(i.is_ready);
    assert_eq!(i.config, I2cConfig::new());
    assert_eq!(i.status, I2cStatus::Idle);
    i.config.slave_addr = 0x51;
    i.cfg_init();
    assert_eq!(i.config.slave_addr, 0x51);
    assert!(i.is_ready);
}

#[test]
fn calc_timing_fills_the_period_evenly() {
    // 48 MHz, 100 kbit/s: base counts 165/162 make 388 of 480 cycles
    let i = controller(48_000_000, 100_000);
    let mut cfg = I2cSpeedCfg::new();
    cfg.speed_mode = Some(I2cSpeedMode::Standard);
    assert_eq!(i.calc_timing(5, &mut cfg), Ok(()));
    assert_eq!((cfg.scl_hcnt, cfg.scl_lcnt, cfg.sda_hold), (211, 208, 15));
    assert_eq!(cfg.scl_hcnt + cfg.scl_lcnt + 7 + 5 + 48 + 1, 480);
}

#[test]
fn calc_timing_biases_odd_remainder_to_lcnt() {
    // 48.1 MHz, 100 kbit/s: 390 of 481 cycles, 91 short
    let i = controller(48_100_000, 100_000);
    let mut cfg = I2cSpeedCfg::new();
    cfg.speed_mode = Some(I2cSpeedMode::Standard);
    assert_eq!(i.calc_timing(5, &mut cfg), Ok(()));
    assert_eq!((cfg.scl_hcnt, cfg.scl_lcnt, cfg.sda_hold), (211, 208, 15));
    assert_eq!(cfg.scl_hcnt + cfg.scl_lcnt + 7 + 5 + 49 + 1, 481);
}

#[test]
fn calc_timing_keeps_counts_beyond_the_period() {
    // 48 MHz at 1 Mbit/s in standard mode: the period (48) is shorter than the counts
    let i = controller(48_000_000, 1_000_000);
    let mut cfg = I2cSpeedCfg::new();
    cfg.speed_mode = Some(I2cSpeedMode::Standard);
    assert_eq!(i.calc_timing(0, &mut cfg), Ok(()));
    assert_eq!((cfg.scl_hcnt, cfg.scl_lcnt), (170, 162));
}

#[test]
fn calc_timing_refuses_a_slow_clock() {
    let i = controller(1_000_000, 100_000);
    let mut cfg = I2cSpeedCfg::new();
    cfg.speed_mode = Some(I2cSpeedMode::Standard);
    cfg.scl_hcnt = 9;
    assert_eq!(i.calc_timing(0, &mut cfg), Err(I2cError::BadCounts));
    assert_eq!((cfg.scl_hcnt, cfg.scl_lcnt, cfg.sda_hold), (9, 0, 0));
}

#[test]
fn set_speed_refuses_a_slow_rate() {
    let mut i = controller(48_000_000, 0);
    i.config.auto_calculate = true;
    assert_eq!(i.set_speed(99_999, false, &snapshot()), Err(I2cError::BadSpeedRate));
    assert!(!i.config.auto_calculate);
    assert_eq!(i.config.speed_rate, 0);
}

#[test]
fn set_speed_with_default_counts_restores_enable() {
    let mut i = controller(48_000_000, 0);
    let mut hw = snapshot();
    hw.enable = 1;
    hw.con = 0xff;
    let plan = i.set_speed(100_000, false, &hw).unwrap();
    assert!(!plan.counts_refused);
    let ops = plan.ops;
    assert_eq!(
        ops,
        vec![
            RegOp::Write { offset: IC_ENABLE, value: 0 },
            RegOp::Write { offset: IC_CON, value: 0xfb },
            RegOp::Write { offset: IC_SS_SCL_HCNT, value: 205 },
            RegOp::Write { offset: IC_SS_SCL_LCNT, value: 232 },
            RegOp::Write { offset: IC_SDA_HOLD, value: 15 },
            RegOp::Write { offset: IC_ENABLE, value: 1 },
        ]
    );
    assert_eq!(i.config.speed_rate, 100_000);
}

#[test]
fn set_speed_calculates_fast_mode_counts() {
    let mut i = controller(48_000_000, 0);
    let mut hw = snapshot();
    hw.fs_spklen = 5;
    hw.hs_spklen = 1;
    let plan = i.set_speed(400_000, true, &hw).unwrap();
    assert!(!plan.counts_refused);
    let ops = plan.ops;
    // fast mode at 48 MHz: rise 15, fall 15, low 63, high 29; period 120
    // base hcnt 2, lcnt 32, total 62; 58 short
    assert_eq!(
        ops,
        vec![
            RegOp::Write { offset: IC_CON, value: 0x4 },
            RegOp::Write { offset: IC_FS_SCL_HCNT, value: 31 },
            RegOp::Write { offset: IC_FS_SCL_LCNT, value: 61 },
            RegOp::Write { offset: IC_SDA_HOLD, value: 15 },
        ]
    );
    assert!(i.config.auto_calculate);
}

#[test]
fn set_speed_high_mode_uses_built_in_counts() {
    let mut i = controller(48_000_000, 0);
    let plan = i.set_speed(3_400_000, false, &snapshot()).unwrap();
    assert!(!plan.counts_refused);
    let ops = plan.ops;
    assert_eq!(
        ops,
        vec![
            RegOp::Write { offset: IC_CON, value: 0x6 },
            RegOp::Write { offset: IC_HS_SCL_HCNT, value: 6 },
            RegOp::Write { offset: IC_HS_SCL_LCNT, value: 31 },
            RegOp::Write { offset: IC_SDA_HOLD, value: 15 },
        ]
    );
}

#[test]
fn set_speed_with_refused_calculation_programs_zero_counts() {
    let mut i = controller(1_000_000, 0);
    let plan = i.set_speed(100_000, true, &snapshot()).unwrap();
    assert!(plan.counts_refused);
    let ops = plan.ops;
    assert_eq!(
        ops,
        vec![
            RegOp::Write { offset: IC_CON, value: 0x2 },
            RegOp::Write { offset: IC_SS_SCL_HCNT, value: 0 },
            RegOp::Write { offset: IC_SS_SCL_LCNT, value: 0 },
            RegOp::Write { offset: IC_SDA_HOLD, value: 0 },
        ]
    );
}

#[test]
fn set_timing_programs_the_mode_registers() {
    let i = I2c::new();
    let cfg = I2cSpeedCfg {
        speed_mode: Some(I2cSpeedMode::Quick),
        scl_lcnt: 79,
        scl_hcnt: 18,
        sda_hold: 15,
    };
    let mut hw = snapshot();
    hw.con = 0x63;
    assert_eq!(
        i.set_timing(&cfg, &hw),
        vec![
            RegOp::Write { offset: IC_CON, value: 0x65 },
            RegOp::Write { offset: IC_FS_SCL_HCNT, value: 18 },
            RegOp::Write { offset: IC_FS_SCL_LCNT, value: 79 },
            RegOp::Write { offset: IC_SDA_HOLD, value: 15 },
        ]
    );
}

#[test]
fn set_tar_seven_bit_while_enabled() {
    let i = I2c::new();
    let mut hw = snapshot();
    hw.enable_status = 1;
    assert_eq!(
        i.set_tar(0x50, &hw),
        vec![
            RegOp::SetEnable { enable: false },
            RegOp::Write { offset: IC_TAR, value: 0x50 },
            RegOp::Write { offset: IC_TAR, value: 0x50 },
            RegOp::SetEnable { enable: true },
        ]
    );
}

#[test]
fn set_tar_ten_bit_while_disabled() {
    let mut i = I2c::new();
    i.config.use_7bit_addr = false;
    assert_eq!(
        i.set_tar(0xfff, &snapshot()),
        vec![
            RegOp::Write { offset: IC_TAR, value: 0x3ff },
            RegOp::Write { offset: IC_TAR, value: 0x13ff },
        ]
    );
}

#[test]
fn set_sar_masks_the_address() {
    let mut hw = snapshot();
    assert_eq!(I2c::set_sar(0x1234, &hw), vec![RegOp::Write { offset: IC_SAR, value: 0x234 }]);
    hw.enable_status = 1;
    assert_eq!(
        I2c::set_sar(0x55, &hw),
        vec![
            RegOp::SetEnable { enable: false },
            RegOp::Write { offset: IC_SAR, value: 0x55 },
            RegOp::SetEnable { enable: true },
        ]
    );
}

#[test]
fn set_addr_master_mode() {
    let mut i = I2c::new();
    let plan = i.set_addr(I2cWorkMode::Master, 0x42, &snapshot());
    assert!(!plan.set_tar);
    let ops = plan.ops;
    assert_eq!(
        ops,
        vec![
            RegOp::Write { offset: IC_CON, value: 0x61 },
            RegOp::Write { offset: IC_RX_TL, value: 0 },
            RegOp::Write { offset: IC_TX_TL, value: 0 },
            RegOp::Write { offset: IC_INTR_MASK, value: 0 },
            RegOp::SetEnable { enable: true },
        ]
    );
    assert_eq!(i.config.slave_addr, 0x42);
    assert_eq!(i.config.work_mode, I2cWorkMode::Master);
    assert!(i.config.master_mode);
}

#[test]
fn set_addr_slave_mode_sets_the_address_after_enabling() {
    let mut i = I2c::new();
    let mut hw = snapshot();
    hw.enable_status = 1;
    hw.con = 0x7f;
    let plan = i.set_addr(I2cWorkMode::Slave, 0x42, &hw);
    assert!(plan.set_tar);
    assert_eq!(
        plan.ops,
        vec![
            RegOp::SetEnable { enable: false },
            RegOp::Write { offset: IC_CON, value: 0x77 },
            RegOp::Write { offset: IC_CON, value: 0x36 },
            RegOp::Write { offset: IC_RX_TL, value: 0 },
            RegOp::Write { offset: IC_TX_TL, value: 0 },
            RegOp::Write { offset: IC_INTR_MASK, value: 0 },
            RegOp::SetEnable { enable: true },
        ]
    );
    assert_eq!(i.config.work_mode, I2cWorkMode::Slave);
    assert!(!i.config.master_mode);
    // the target address follows, on the controller as it now stands
    hw.enable_status = 1;
    assert_eq!(
        i.set_tar(i.config.slave_addr, &hw),
        vec![
            RegOp::SetEnable { enable: false },
            RegOp::Write { offset: IC_TAR, value: 0x42 },
            RegOp::Write { offset: IC_TAR, value: 0x42 },
            RegOp::SetEnable { enable: true },
        ]
    );
    // after a failed enable handshake it goes in without handshakes
    hw.enable_status = 0;
    assert_eq!(
        i.set_tar(i.config.slave_addr, &hw),
        vec![
            RegOp::Write { offset: IC_TAR, value: 0x42 },
            RegOp::Write { offset: IC_TAR, value: 0x42 },
        ]
    );
}

#[test]
fn set_addr_slave_ten_bit_sets_the_slave_bit() {
    let mut i = I2c::new();
    i.config.use_7bit_addr = false;
    let plan = i.set_addr(I2cWorkMode::Slave, 0x42, &snapshot());
    assert_eq!(plan.ops[0], RegOp::Write { offset: IC_CON, value: 0x8 });
    assert_eq!(plan.ops[1], RegOp::Write { offset: IC_CON, value: 0x8 });
    assert_eq!(i.set_tar(0x42, &snapshot())[1], RegOp::Write { offset: IC_TAR, value: 0x1042 });
}

#[test]
fn tx_empty_write_in_two_interrupts() {
    let mut i = I2c::new();
    i.status = I2cStatus::WriteInProgess;
    i.tx_frame.data_buff = vec![0x11, 0x22, 0x33];
    let mut hw = snapshot();
    hw.txflr = 6;
    hw.intr_mask = 0xff;
    let ops = i.master_intr_tx_empty_handler(&hw);
    assert_eq!(
        ops,
        vec![
            RegOp::Write { offset: IC_DATA_CMD, value: 0x11 },
            RegOp::Write { offset: IC_DATA_CMD, value: 0x22 },
        ]
    );
    assert_eq!(i.tx_frame.tx_cnt, 2);
    assert_eq!(i.status, I2cStatus::WriteInProgess);

    hw.txflr = 0;
    let ops = i.master_intr_tx_empty_handler(&hw);
    assert_eq!(
        ops,
        vec![
            RegOp::Write { offset: IC_DATA_CMD, value: 0x233 },
            RegOp::Write { offset: IC_INTR_MASK, value: 0xef },
        ]
    );
    assert_eq!(i.tx_frame.tx_cnt, 0);
    assert_eq!(i.status, I2cStatus::Idle);
}

#[test]
fn tx_empty_read_commands() {
    let mut i = I2c::new();
    i.status = I2cStatus::ReadInProgess;
    i.tx_frame.data_buff = vec![0, 0];
    let mut hw = snapshot();
    hw.rxflr = 3;
    hw.intr_mask = 0x14;
    let ops = i.master_intr_tx_empty_handler(&hw);
    assert_eq!(
        ops,
        vec![
            RegOp::Write { offset: IC_DATA_CMD, value: 0x100 },
            RegOp::Write { offset: IC_DATA_CMD, value: 0x300 },
            RegOp::Write { offset: IC_INTR_MASK, value: 0x04 },
        ]
    );
    assert_eq!(i.tx_frame.tx_cnt, 0);
    assert_eq!(i.status, I2cStatus::ReadInProgess);
}

#[test]
fn tx_empty_waits_while_a_fifo_is_full() {
    let mut i = I2c::new();
    i.status = I2cStatus::WriteInProgess;
    i.tx_frame.data_buff = vec![1, 2];
    let mut hw = snapshot();
    hw.rxflr = 8;
    assert!(i.master_intr_tx_empty_handler(&hw).is_empty());
    assert_eq!(i.tx_frame.tx_cnt, 0);
}

#[test]
fn tx_empty_without_a_transfer_masks_when_nothing_is_left() {
    let mut i = I2c::new();
    let mut hw = snapshot();
    hw.intr_mask = 0x10;
    assert_eq!(
        i.master_intr_tx_empty_handler(&hw),
        vec![RegOp::Write { offset: IC_INTR_MASK, value: 0 }]
    );
    i.tx_frame.data_buff = vec![1];
    assert!(i.master_intr_tx_empty_handler(&hw).is_empty());
    assert_eq!(i.status, I2cStatus::Idle);
}

#[test]
fn rx_full_appends_and_completes() {
    let mut i = I2c::new();
    i.status = I2cStatus::ReadInProgess;
    let mut hw = snapshot();
    hw.intr_mask = 0x14;
    let ops = i.master_intr_rx_full_handler(&vec![0x1ab, 0x2cd], &hw);
    assert_eq!(i.rx_frame.data_buff, vec![0xab, 0xcd]);
    assert_eq!(i.rx_frame.rx_cnt, 0);
    assert_eq!(i.status, I2cStatus::Idle);
    assert_eq!(
        ops,
        vec![RegOp::Write { offset: IC_INTR_MASK, value: 0x10 }, RegOp::FlushRxFifo]
    );
}

#[test]
fn rx_full_keeps_counting_below_the_buffer_length() {
    let mut i = I2c::new();
    i.status = I2cStatus::ReadInProgess;
    i.rx_frame.data_buff = vec![0; 5];
    let ops = i.master_intr_rx_full_handler(&vec![0x7], &snapshot());
    assert!(ops.is_empty());
    assert_eq!(i.rx_frame.rx_cnt, 1);
    assert_eq!(i.rx_frame.data_buff.len(), 6);
    assert_eq!(i.rx_frame.data_buff[5], 7);
    assert_eq!(i.status, I2cStatus::ReadInProgess);
}

#[test]
fn master_intr_handler_clears_only_in_master_mode() {
    let mut i = I2c::new();
    let mut hw = snapshot();
    hw.intr_stat = 0x41;
    let clear = i.master_intr_handler(&hw).unwrap();
    assert_eq!((clear.stat, clear.next), (0x41, 0));
    i.config.work_mode = I2cWorkMode::Slave;
    assert_eq!(i.master_intr_handler(&hw), None);
}

#[test]
fn master_intr_dispatch_decisions() {
    let mut i = I2c::new();
    i.status = I2cStatus::WriteInProgess;
    let mut hw = snapshot();
    // controller off: nothing
    hw.raw_intr_stat = 0x100;
    assert_eq!(i.master_intr_dispatch(0x40, &hw), (vec![], MasterDispatch::Nothing));
    assert_eq!(i.status, I2cStatus::WriteInProgess);
    // bus idle: nothing
    hw.enable = 1;
    hw.raw_intr_stat = 0;
    assert_eq!(i.master_intr_dispatch(0x10, &hw), (vec![], MasterDispatch::Nothing));
    hw.raw_intr_stat = 0x100;
    assert_eq!(i.master_intr_dispatch(0x14, &hw), (vec![], MasterDispatch::RxFull));
    assert_eq!(i.master_intr_dispatch(0x10, &hw), (vec![], MasterDispatch::TxEmpty));
    assert_eq!(i.master_intr_dispatch(0x200, &hw), (vec![], MasterDispatch::Nothing));
    assert_eq!(i.status, I2cStatus::WriteInProgess);
    // abort
    let (ops, next) = i.master_intr_dispatch(0x54, &hw);
    assert_eq!(
        ops,
        vec![
            RegOp::Write { offset: IC_INTR_MASK, value: 0 },
            RegOp::Read { offset: IC_CLR_TX_ABRT },
            RegOp::Write { offset: IC_ENABLE, value: 1 },
        ]
    );
    assert_eq!(next, MasterDispatch::Nothing);
    assert_eq!(i.status, I2cStatus::Error);
}

struct Logger;
impl I2cMasterEvtHandler for Logger {}
impl I2cSlaveEvtHandler for Logger {}

#[test]
fn event_handlers_default_to_nothing() {
    <Logger as I2cMasterEvtHandler>::on_trans_aborted();
    <Logger as I2cMasterEvtHandler>::on_read_done();
    <Logger as I2cMasterEvtHandler>::on_write_done();
    <Logger as I2cSlaveEvtHandler>::on_read_requested();
    <Logger as I2cSlaveEvtHandler>::on_write_requested();
    <Logger as I2cSlaveEvtHandler>::on_read_processed();
    <Logger as I2cSlaveEvtHandler>::on_write_processed();
    <Logger as I2cSlaveEvtHandler>::on_stop();
    <Logger as I2cSlaveEvtHandler>::on_abort();
}

#[test]
fn faster_rates_pick_faster_modes() {
    let mut i = controller(48_000_000, 0);
    let hw = snapshot();
    let regs_for = |i: &mut I2c, rate: u32| match i.set_speed(rate, false, &hw).unwrap().ops[1] {
        RegOp::Write { offset, .. } => offset,
        _ => panic!("expected a count write"),
    };
    assert_eq!(regs_for(&mut i, 100_000), IC_SS_SCL_HCNT);
    assert_eq!(regs_for(&mut i, 399_999), IC_SS_SCL_HCNT);
    assert_eq!(regs_for(&mut i, 400_000), IC_FS_SCL_HCNT);
    assert_eq!(regs_for(&mut i, 999_999), IC_FS_SCL_HCNT);
    assert_eq!(regs_for(&mut i, 1_000_000), IC_HS_SCL_HCNT);
    assert_eq!(regs_for(&mut i, u32::MAX), IC_HS_SCL_HCNT);
}

#[test]
fn rate_to_mode_and_clock_limits() {
    assert_eq!(speed_mode_for_rate(99_999), None);
    assert_eq!(speed_mode_for_rate(100_000), Some(I2cSpeedMode::Standard));
    assert_eq!(speed_mode_for_rate(400_000), Some(I2cSpeedMode::Quick));
    assert_eq!(speed_mode_for_rate(1_000_000), Some(I2cSpeedMode::High));
    assert!(timing_fits_for(48_000_000, I2cSpeedMode::Standard));
    // 1 GHz: 1_000_000 kHz * 4700 ns does not fit in 32 bits
    assert!(!timing_fits_for(1_000_000_000, I2cSpeedMode::Standard));
    assert!(timing_fits_for(1_000_000_000, I2cSpeedMode::High));
}

#[test]
fn master_interrupt_abort_then_handlers_never_start_a_transfer() {
    let mut i = I2c::new();
    i.status = I2cStatus::Idle;
    let mut hw = snapshot();
    hw.enable = 1;
    hw.raw_intr_stat = 0x100;
    let (_, next) = i.master_intr_dispatch(0x14, &hw);
    assert_eq!(next, MasterDispatch::RxFull);
    let _ = i.master_intr_rx_full_handler(&vec![1], &hw);
    assert_eq!(i.status, I2cStatus::Idle);
    let _ = i.master_intr_dispatch(0x40, &hw);
    assert_eq!(i.status, I2cStatus::Error);
}
