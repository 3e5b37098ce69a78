use phytium_i2c::field::{bit_value, Field, FieldValue};
use phytium_i2c::regs::{
    div_round_up, gen_mask, CLEAR_STEPS, i2c_clear_abort, i2c_clear_intr_bits, i2c_clear_intr_stat,
    i2c_ctrl_disable, i2c_flush_rx_fifo, i2c_get_enable, i2c_master_active, i2c_read_data,
    i2c_set_enable, i2c_wait_bus_busy, i2c_wait_status, FlushStep, PollOutcome, RegOp,
    I2C_DATA_MASK, I2C_TIMEOUT, IC_CLR_ACTIVITY, IC_CLR_GEN_CALL, IC_CLR_INTR, IC_CLR_RX_DONE,
    IC_CLR_RX_OVER, IC_CLR_RX_UNDER, IC_CLR_START_DET, IC_CLR_STOP_DET, IC_CLR_TX_ABRT,
    IC_CLR_TX_OVER, IC_ENABLE, IC_INTR_MASK, IC_RX_TL, IC_TX_TL, STATUS_RFNE, STATUS_TFE,
};

#[test]
fn gen_mask_covers_exactly_the_range() {
    assert_eq!(gen_mask(7, 0), 0xff);
    assert_eq!(gen_mask(7, 0), I2C_DATA_MASK);
    assert_eq!(gen_mask(2, 1), 0x6);
    assert_eq!(gen_mask(9, 0), 0x3ff);
    assert_eq!(gen_mask(31, 0), 0xffff_ffff);
    assert_eq!(gen_mask(31, 31), 0x8000_0000);
    assert_eq!(gen_mask(0, 0), 0x1);
    assert_eq!(gen_mask(15, 8), 0xff00);
}

#[test]
fn gen_mask_is_empty_when_low_is_above_high() {
    assert_eq!(gen_mask(3, 5), 0);
}

#[test]
fn div_round_up_rounds_up() {
    assert_eq!(div_round_up(10, 3), 4);
    assert_eq!(div_round_up(9, 3), 3);
    assert_eq!(div_round_up(0, 5), 0);
    assert_eq!(div_round_up(1, 1_000_000), 1);
    assert_eq!(div_round_up(14_400_000, 1_000_000), 15);
}

#[test]
fn field_read_val_modify() {
    let speed = Field::new(0x3, 1);
    assert_eq!(speed.read(0b1110), 0b11);
    assert!(speed.is_set(0b0100));
    assert!(!speed.is_set(0b1001));
    let fv = speed.val(2);
    assert_eq!(fv, FieldValue { mask: 0x6, value: 0x4 });
    assert_eq!(fv.modify(0xff), 0xfd);
    // values wider than the field are truncated
    assert_eq!(speed.val(7).value, 0x6);
    let both = bit_value(0, true).plus(bit_value(6, false));
    assert_eq!(both, FieldValue { mask: 0x41, value: 0x1 });
    assert_eq!(both.modify(0x40), 0x1);
}

#[test]
fn field_read_back_after_modify() {
    let f = Field::new(0xf, 4);
    let reg = f.val(0x9).modify(0xdead_beef);
    assert_eq!(f.read(reg), 0x9);
    assert_eq!(reg & !0xf0, 0xdead_beef & !0xf0);
}

#[test]
fn get_enable_reads_ic_en() {
    assert!(i2c_get_enable(1));
    assert!(i2c_get_enable(0x7));
    assert!(!i2c_get_enable(0x6));
}

#[test]
fn enable_handshake_succeeds_when_status_agrees() {
    let mut h = i2c_set_enable(true);
    assert_eq!(h.remaining, I2C_TIMEOUT);
    assert_eq!(h.request(), RegOp::Write { offset: IC_ENABLE, value: 1 });
    assert_eq!(h.observe(0), PollOutcome::Pending);
    assert_eq!(h.remaining, I2C_TIMEOUT - 1);
    assert_eq!(h.observe(1), PollOutcome::Done);
    let off = i2c_set_enable(false);
    assert_eq!(off.request(), RegOp::Write { offset: IC_ENABLE, value: 0 });
}

#[test]
fn enable_handshake_times_out() {
    let mut h = i2c_set_enable(false);
    let mut rounds = 0u32;
    loop {
        rounds += 1;
        match h.observe(1) {
            PollOutcome::Pending => continue,
            PollOutcome::TimedOut => break,
            PollOutcome::Done => panic!("status never agreed"),
        }
    }
    assert_eq!(rounds, I2C_TIMEOUT);
    assert_eq!(h.remaining, 0);
}

#[test]
fn clear_intr_stat_reads_clr_intr() {
    assert_eq!(i2c_clear_intr_stat(), RegOp::Read { offset: IC_CLR_INTR });
}

fn run_clear(readings: &[u32], abrt_source: u32, last_err: &mut u32) -> (u32, Vec<RegOp>) {
    let mut clear = i2c_clear_intr_bits(readings[0]);
    let mut ops = Vec::new();
    let mut k = 0;
    while !clear.is_done() {
        if let Some(op) = clear.observe(readings[k], abrt_source, last_err) {
            ops.push(op);
        }
        k += 1;
    }
    assert_eq!(k, CLEAR_STEPS as usize);
    (clear.stat, ops)
}

#[test]
fn clear_intr_bits_reads_each_pending_clear_register() {
    let mut last_err = 5;
    let (stat, ops) = run_clear(&[0xfff; 9], 0x42, &mut last_err);
    assert_eq!(stat, 0xfff);
    assert_eq!(last_err, 0x42);
    assert_eq!(
        ops,
        vec![
            RegOp::Read { offset: IC_CLR_TX_ABRT },
            RegOp::Read { offset: IC_CLR_RX_UNDER },
            RegOp::Read { offset: IC_CLR_RX_OVER },
            RegOp::Read { offset: IC_CLR_TX_OVER },
            RegOp::Read { offset: IC_CLR_RX_DONE },
            RegOp::Read { offset: IC_CLR_ACTIVITY },
            RegOp::Read { offset: IC_CLR_STOP_DET },
            RegOp::Read { offset: IC_CLR_START_DET },
            RegOp::Read { offset: IC_CLR_GEN_CALL },
        ]
    );
}

#[test]
fn clear_intr_bits_keeps_last_error_without_abort() {
    let mut last_err = 5;
    let (_, ops) = run_clear(&[0x201; 9], 0x42, &mut last_err);
    assert_eq!(last_err, 5);
    assert_eq!(
        ops,
        vec![RegOp::Read { offset: IC_CLR_RX_UNDER }, RegOp::Read { offset: IC_CLR_STOP_DET }]
    );
    // RX_FULL, TX_EMPTY and RD_REQ have no clear register of their own
    let mut e = 0;
    assert!(run_clear(&[0x34; 9], 1, &mut e).1.is_empty());
}

#[test]
fn clear_intr_bits_sees_interrupts_rising_while_clearing() {
    let mut last_err = 0;
    // STOP_DET (bit 9) rises after the first reading; it is still cleared
    let readings = [0x1, 0x1, 0x0, 0x0, 0x0, 0x0, 0x200, 0x200, 0x200];
    let (stat, ops) = run_clear(&readings, 0, &mut last_err);
    assert_eq!(stat, 0x1);
    assert_eq!(
        ops,
        vec![RegOp::Read { offset: IC_CLR_RX_UNDER }, RegOp::Read { offset: IC_CLR_STOP_DET }]
    );
    // an abort seen only after the first step is not recorded
    let (_, ops) = run_clear(&[0, 0x40, 0x40, 0x40, 0x40, 0x40, 0x40, 0x40, 0x40], 7, &mut last_err);
    assert!(ops.is_empty());
    assert_eq!(last_err, 0);
}

#[test]
fn clear_abort_polls_the_abort_source() {
    let mut a = i2c_clear_abort();
    assert_eq!(a.request(), RegOp::Read { offset: IC_CLR_INTR });
    assert_eq!(a.observe(0x8), PollOutcome::Pending);
    assert_eq!(a.observe(0), PollOutcome::Done);
    let mut b = i2c_clear_abort();
    b.remaining = 1;
    assert_eq!(b.observe(0x1), PollOutcome::TimedOut);
}

#[test]
fn wait_status_until_bits_clear_or_timeout() {
    let mut w = i2c_wait_status(STATUS_RFNE);
    assert_eq!(w.observe(STATUS_RFNE), PollOutcome::Pending);
    assert_eq!(w.waited, 1);
    assert_eq!(w.observe(0x1), PollOutcome::Done);
    assert_eq!(w.waited, 1);

    let mut t = i2c_wait_status(STATUS_RFNE);
    let mut readings = 0u32;
    loop {
        readings += 1;
        match t.observe(STATUS_RFNE | 0x2) {
            PollOutcome::Pending => continue,
            PollOutcome::TimedOut => break,
            PollOutcome::Done => panic!("the bit never cleared"),
        }
    }
    assert_eq!(readings, I2C_TIMEOUT);
    assert_eq!(t.waited, I2C_TIMEOUT);
}

#[test]
fn wait_bus_busy_waits_for_tfe_to_clear() {
    let mut w = i2c_wait_bus_busy();
    assert_eq!(w.bits, STATUS_TFE);
    assert_eq!(w.observe(STATUS_TFE), PollOutcome::Pending);
    assert_eq!(w.observe(0), PollOutcome::Done);
    assert!(i2c_master_active(0x24));
    assert!(!i2c_master_active(0x04));
}

#[test]
fn read_data_keeps_the_low_byte() {
    assert_eq!(i2c_read_data(0x1ab), 0xab);
    assert_eq!(i2c_read_data(0xffff_ff00), 0);
}

#[test]
fn flush_rx_fifo_drains_while_not_empty() {
    let mut f = i2c_flush_rx_fifo();
    assert_eq!(f.observe(STATUS_RFNE), FlushStep::Drain { overdue: false });
    assert_eq!(f.observe(STATUS_RFNE | 0x1), FlushStep::Drain { overdue: false });
    assert_eq!(f.count, 2);
    assert_eq!(f.observe(0x1), FlushStep::Done);
    f.count = I2C_TIMEOUT;
    assert_eq!(f.observe(STATUS_RFNE), FlushStep::Drain { overdue: true });
}

#[test]
fn ctrl_disable_plan() {
    assert_eq!(
        i2c_ctrl_disable(),
        vec![
            RegOp::Write { offset: IC_RX_TL, value: 0 },
            RegOp::Write { offset: IC_TX_TL, value: 0 },
            RegOp::Write { offset: IC_INTR_MASK, value: 0 },
            RegOp::SetEnable { enable: false },
        ]
    );
}
