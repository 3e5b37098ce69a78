//! The I2C controller's register map, bit masks and the register-level
//! procedures: the enable handshake, interrupt clearing, abort clearing,
//! status waits and draining the receive FIFO.
//!
//! A procedure that only writes is planned as a `Vec<RegOp>`; one that polls
//! a register is a small state machine: the caller performs the request,
//! reads the register and hands the reading to `observe`.

use vstd::prelude::*;

verus! {

/// Number of polling rounds before a wait gives up.
pub const I2C_TIMEOUT: u32 = 50000;

/// Mask of the data byte in `IC_DATA_CMD` (bits 7..0).
pub const I2C_DATA_MASK: u32 = 0xff;

/// Physical base address of the controller's register block.
pub const I2C_BASE: usize = 0x2800_a000;

// Register offsets inside the controller's block.
pub const IC_CON: u32 = 0x00;
pub const IC_TAR: u32 = 0x04;
pub const IC_SAR: u32 = 0x08;
pub const IC_HS_MADDR: u32 = 0x0c;
pub const IC_DATA_CMD: u32 = 0x10;
pub const IC_SS_SCL_HCNT: u32 = 0x14;
pub const IC_SS_SCL_LCNT: u32 = 0x18;
pub const IC_FS_SCL_HCNT: u32 = 0x1c;
pub const IC_FS_SCL_LCNT: u32 = 0x20;
pub const IC_HS_SCL_HCNT: u32 = 0x24;
pub const IC_HS_SCL_LCNT: u32 = 0x28;
pub const IC_INTR_STAT: u32 = 0x2c;
pub const IC_INTR_MASK: u32 = 0x30;
pub const IC_RAW_INTR_STAT: u32 = 0x34;
pub const IC_RX_TL: u32 = 0x38;
pub const IC_TX_TL: u32 = 0x3c;
pub const IC_CLR_INTR: u32 = 0x40;
pub const IC_CLR_RX_UNDER: u32 = 0x44;
pub const IC_CLR_RX_OVER: u32 = 0x48;
pub const IC_CLR_TX_OVER: u32 = 0x4c;
pub const IC_CLR_RD_REQ: u32 = 0x50;
pub const IC_CLR_TX_ABRT: u32 = 0x54;
pub const IC_CLR_RX_DONE: u32 = 0x58;
pub const IC_CLR_ACTIVITY: u32 = 0x5c;
pub const IC_CLR_STOP_DET: u32 = 0x60;
pub const IC_CLR_START_DET: u32 = 0x64;
pub const IC_CLR_GEN_CALL: u32 = 0x68;
pub const IC_ENABLE: u32 = 0x6c;
pub const IC_STATUS: u32 = 0x70;
pub const IC_TXFLR: u32 = 0x74;
pub const IC_RXFLR: u32 = 0x78;
pub const IC_SDA_HOLD: u32 = 0x7c;
pub const IC_TX_ABRT_SOURCE: u32 = 0x80;
pub const IC_SLV_DATA_NACK_ONLY: u32 = 0x84;
pub const IC_DMA_CR: u32 = 0x88;
pub const IC_DMA_TDLR: u32 = 0x8c;
pub const IC_DMA_RDLR: u32 = 0x90;
pub const IC_SDA_SETUP: u32 = 0x94;
pub const IC_ACK_GENERAL_CALL: u32 = 0x98;
pub const IC_ENABLE_STATUS: u32 = 0x9c;
pub const IC_FS_SPKLEN: u32 = 0xa0;
pub const IC_HS_SPKLEN: u32 = 0xa4;

// IC_CON fields.
pub const CON_MASTER_MODE_BIT: u32 = 0;
pub const CON_SPEED_SHIFT: u32 = 1;
pub const CON_SPEED_MASK: u32 = 0x3;
pub const CON_10BITADDR_SLAVE_BIT: u32 = 3;
pub const CON_10BITADDR_MASTER_BIT: u32 = 4;
pub const CON_RESTART_EN_BIT: u32 = 5;
pub const CON_SLAVE_DISABLE_BIT: u32 = 6;

// IC_TAR / IC_SAR fields.
pub const TAR_ADDR_MASK: u32 = 0x3ff;
pub const TAR_10BITADDR_MASTER_BIT: u32 = 12;
pub const SAR_ADDR_MASK: u32 = 0x3ff;

// IC_DATA_CMD fields.
pub const DATA_CMD_CMD_BIT: u32 = 8;
pub const DATA_CMD_STOP_BIT: u32 = 9;
pub const DATA_CMD_RESTART_BIT: u32 = 10;

// Interrupt bits, shared by IC_INTR_STAT, IC_INTR_MASK and IC_RAW_INTR_STAT.
pub const INTR_RX_UNDER: u32 = 0;
pub const INTR_RX_OVER: u32 = 1;
pub const INTR_RX_FULL: u32 = 2;
pub const INTR_TX_OVER: u32 = 3;
pub const INTR_TX_EMPTY: u32 = 4;
pub const INTR_RD_REQ: u32 = 5;
pub const INTR_TX_ABRT: u32 = 6;
pub const INTR_RX_DONE: u32 = 7;
pub const INTR_ACTIVITY: u32 = 8;
pub const INTR_STOP_DET: u32 = 9;
pub const INTR_START_DET: u32 = 10;
pub const INTR_GEN_CALL: u32 = 11;

// IC_STATUS bits.
pub const STATUS_ACTIVITY: u32 = 0x01;
pub const STATUS_TFNF: u32 = 0x02;
pub const STATUS_TFE: u32 = 0x04;
pub const STATUS_RFNE: u32 = 0x08;
pub const STATUS_RFF: u32 = 0x10;
pub const STATUS_MST_ACTIVITY: u32 = 0x20;
pub const STATUS_SLV_ACTIVITY: u32 = 0x40;

/// Depth of the transmit and receive FIFOs.
pub const I2C_IIC_FIFO_MAX_LVL: u32 = 8;

/// One access to the controller's registers, to be carried out in order.
#[derive(Clone, Copy, Debug, PartialEq, Eq)]
pub enum RegOp {
    /// Read the register at `offset` for its side effect (clear-on-read
    /// registers, FIFO pops); the value read is not used.
    Read { offset: u32 },
    /// Store `value` in the register at `offset`.
    Write { offset: u32, value: u32 },
    /// Switch the controller on or off with the enable handshake
    /// ([`i2c_set_enable`]).
    SetEnable { enable: bool },
    /// Drain the receive FIFO ([`i2c_flush_rx_fifo`]).
    FlushRxFifo,
}

/// The values of the controller's side-effect-free registers, read by the
/// caller before a procedure is planned.
#[derive(Clone, Copy, Debug, PartialEq, Eq)]
pub struct I2cRegSnapshot {
    pub con: u32,
    pub enable: u32,
    pub enable_status: u32,
    pub intr_stat: u32,
    pub raw_intr_stat: u32,
    pub intr_mask: u32,
    pub tx_abrt_source: u32,
    pub txflr: u32,
    pub rxflr: u32,
    pub fs_spklen: u32,
    pub hs_spklen: u32,
}

/// The outcome of one observation of a polled register.
#[derive(Clone, Copy, Debug, PartialEq, Eq)]
pub enum PollOutcome {
    /// The awaited condition holds.
    Done,
    /// Not yet: perform the request again and observe again.
    Pending,
    /// The rounds are used up without the condition holding.
    TimedOut,
}

/// One round of a bounded poll with `remaining` rounds left (counting this
/// one): done when the reading satisfies the poll (`ok`), timed out when it
/// does not and this was the last round, pending otherwise. Gives the rounds
/// left afterwards and the outcome.
pub open spec fn countdown_step(remaining: nat, ok: bool) -> (nat, PollOutcome) {
    if ok {
        (remaining, PollOutcome::Done)
    } else if remaining <= 1 {
        (0, PollOutcome::TimedOut)
    } else {
        ((remaining - 1) as nat, PollOutcome::Pending)
    }
}

/// A poll run over readings whose `oks[i]` tells whether reading `i`
/// satisfied the poll: the outcome, and how many readings were taken.
pub open spec fn countdown_run(remaining: nat, oks: Seq<bool>) -> (PollOutcome, nat)
    decreases oks.len(),
{
    if oks.len() == 0 {
        (PollOutcome::Pending, 0)
    } else {
        let (left, out) = countdown_step(remaining, oks[0]);
        if out != PollOutcome::Pending {
            (out, 1)
        } else {
            let (o, n) = countdown_run(left, oks.drop_first());
            (o, n + 1)
        }
    }
}

/// Every bounded poll ends within its rounds: given at least `remaining`
/// readings, the run ends after at most `remaining` of them, done exactly at
/// the first reading that satisfies the poll, timed out after exactly
/// `remaining` readings none of which did.
pub proof fn lemma_poll_ends_within_rounds(remaining: nat, oks: Seq<bool>)
    requires
        remaining >= 1,
        oks.len() >= remaining,
    ensures
        ({
            let (out, n) = countdown_run(remaining, oks);
            &&& out != PollOutcome::Pending
            &&& 1 <= n <= remaining
            &&& forall|i: int| 0 <= i < n - 1 ==> !oks[i]
            &&& out == PollOutcome::Done <==> oks[n - 1]
            &&& out == PollOutcome::TimedOut ==> n == remaining
        }),
    decreases remaining,
{
    if !oks[0] && remaining > 1 {
        lemma_poll_ends_within_rounds((remaining - 1) as nat, oks.drop_first());
        let (o, n) = countdown_run((remaining - 1) as nat, oks.drop_first());
        assert forall|i: int| 0 <= i < n implies !oks[i] || i == n as int by {
            if i > 0 {
                assert(oks[i] == oks.drop_first()[i - 1]);
            }
        }
        assert(oks[n as int] == oks.drop_first()[n - 1]);
    }
}

/// Whether bit `bit` is set in `v`.
pub open spec fn bit_set(v: u32, bit: u32) -> bool {
    v & (1u32 << bit) != 0
}

/// The mask with bits `l..=h` set and all others clear.
pub open spec fn spec_gen_mask(h: u32, l: u32) -> u32 {
    ((0xffff_ffffu32 - (1u32 << l)) + 1) as u32 & (0xffff_ffffu32 >> ((31 - h) as u32))
}

/// `n / d` rounded up.
pub open spec fn ceil_div(n: int, d: int) -> int {
    (n + d - 1) / d
}

/// `n / d` rounded up, for `n + d - 1` that fits in 32 bits.
pub fn div_round_up(n: u32, d: u32) -> (r: u32)
    requires
        d != 0,
        n + d <= u32::MAX,
    ensures
        r == ceil_div(n as int, d as int),
        r * d >= n,
        r * d < n + d,
{
    let r = (n + d - 1) / d;
    assert(r * d >= n && r * d < n + d) by (nonlinear_arith)
        requires
            r as int == (n as int + d as int - 1) / (d as int),
            d > 0,
    ;
    r
}

/// The 32-bit mask whose bits `l` through `h` are set.
pub fn gen_mask(h: u32, l: u32) -> (r: u32)
    requires
        h < 32,
        l < 32,
    ensures
        r == spec_gen_mask(h, l),
        forall|i: u32| i < 32 ==> (bit_set(r, i) <==> (l <= i && i <= h)),
{
    let bits_per_long: u32 = 32;
    let r = ((!0u32).wrapping_sub(1u32 << l).wrapping_add(1)) & (!0u32 >> (bits_per_long - 1 - h));
    assert(!0u32 == 0xffff_ffffu32) by (bit_vector);
    assert(1u32 << l <= 0x8000_0000u32 && 1u32 << l > 0) by (bit_vector)
        requires l < 32;
    assert forall|i: u32| i < 32 implies (bit_set(r, i) <==> (l <= i && i <= h)) by {
        assert(((((0xffff_ffffu32 - (1u32 << l)) + 1) as u32 & (0xffff_ffffu32 >> ((31 - h) as u32)))
            & (1u32 << i) != 0) <==> (l <= i && i <= h)) by (bit_vector)
            requires
                i < 32,
                h < 32,
                l < 32,
        ;
    }
    r
}

/// Whether the controller reports itself enabled (`IC_ENABLE_STATUS.IC_EN`).
pub fn i2c_get_enable(enable_status: u32) -> (r: bool)
    ensures
        r == bit_set(enable_status, 0),
{
    assert(1u32 << 0u32 == 1u32) by (bit_vector);
    enable_status & 1 != 0
}

/// The enable handshake: write the enable bit, then poll `IC_ENABLE_STATUS`
/// until it agrees, for at most [`I2C_TIMEOUT`] rounds.
#[derive(Clone, Copy, Debug, PartialEq, Eq)]
pub struct EnableHandshake {
    pub enable: bool,
    /// Rounds left, counting the current one.
    pub remaining: u32,
}

/// Starts the enable handshake for `enable`.
pub fn i2c_set_enable(enable: bool) -> (h: EnableHandshake)
    ensures
        h.enable == enable,
        h.remaining == I2C_TIMEOUT,
{
    EnableHandshake { enable, remaining: I2C_TIMEOUT }
}

impl EnableHandshake {
    /// The write that starts each round.
    pub fn request(&self) -> (op: RegOp)
        ensures
            op == (RegOp::Write { offset: IC_ENABLE, value: if self.enable { 1 } else { 0 } }),
    {
        RegOp::Write { offset: IC_ENABLE, value: if self.enable { 1 } else { 0 } }
    }

    /// Takes the `IC_ENABLE_STATUS` value read after the request.
    pub fn observe(&mut self, enable_status: u32) -> (out: PollOutcome)
        requires
            old(self).remaining > 0,
        ensures
            final(self).enable == old(self).enable,
            (final(self).remaining as nat, out) == countdown_step(
                old(self).remaining as nat,
                bit_set(enable_status, 0) == old(self).enable,
            ),
            bit_set(enable_status, 0) == old(self).enable ==> out == PollOutcome::Done
                && final(self).remaining == old(self).remaining,
            bit_set(enable_status, 0) != old(self).enable ==> {
                &&& final(self).remaining == old(self).remaining - 1
                &&& out == if final(self).remaining == 0 {
                    PollOutcome::TimedOut
                } else {
                    PollOutcome::Pending
                }
            },
    {
        if i2c_get_enable(enable_status) == self.enable {
            PollOutcome::Done
        } else {
            self.remaining = self.remaining - 1;
            if self.remaining == 0 {
                PollOutcome::TimedOut
            } else {
                PollOutcome::Pending
            }
        }
    }
}

/// Reading `IC_CLR_INTR` clears every interrupt the controller can clear.
pub fn i2c_clear_intr_stat() -> (op: RegOp)
    ensures
        op == (RegOp::Read { offset: IC_CLR_INTR }),
{
    RegOp::Read { offset: IC_CLR_INTR }
}

/// A read of the clear register `offset` if interrupt bit `bit` is set.
pub open spec fn clear_if(stat: u32, bit: u32, offset: u32) -> Seq<RegOp> {
    if bit_set(stat, bit) {
        seq![RegOp::Read { offset }]
    } else {
        seq![]
    }
}

/// The reads that clear the interrupts pending in `stat`, in the order the
/// controller's clear registers are visited.
pub open spec fn clear_intr_plan(stat: u32) -> Seq<RegOp> {
    clear_if(stat, INTR_TX_ABRT, IC_CLR_TX_ABRT) + (clear_if(stat, INTR_RX_UNDER, IC_CLR_RX_UNDER)
        + (clear_if(stat, INTR_RX_OVER, IC_CLR_RX_OVER) + (clear_if(
        stat,
        INTR_TX_OVER,
        IC_CLR_TX_OVER,
    ) + (clear_if(stat, INTR_RX_DONE, IC_CLR_RX_DONE) + (clear_if(
        stat,
        INTR_ACTIVITY,
        IC_CLR_ACTIVITY,
    ) + (clear_if(stat, INTR_STOP_DET, IC_CLR_STOP_DET) + (clear_if(
        stat,
        INTR_START_DET,
        IC_CLR_START_DET,
    ) + (clear_if(stat, INTR_GEN_CALL, IC_CLR_GEN_CALL) + Seq::<RegOp>::empty()))))))))
}

/// The interrupt bits that have a clear register of their own: RX_UNDER,
/// RX_OVER, TX_OVER, TX_ABRT, RX_DONE, ACTIVITY, STOP_DET, START_DET and
/// GEN_CALL.
pub const CLEARABLE_INTR_BITS: u32 = 0xfcb;

/// Clearing interrupts only reads, one clear register per pending
/// clearable interrupt, and does nothing when none is pending.
pub proof fn lemma_clear_plan_reads_only(stat: u32)
    ensures
        forall|i: int|
            0 <= i < clear_intr_plan(stat).len() ==> #[trigger] clear_intr_plan(stat)[i] is Read,
        clear_intr_plan(stat).len() <= 9,
        (clear_intr_plan(stat).len() == 0) == (stat & CLEARABLE_INTR_BITS == 0),
        clear_intr_plan(stat).contains(RegOp::Read { offset: IC_CLR_TX_ABRT }) == bit_set(
            stat,
            INTR_TX_ABRT,
        ),
{
    assert((stat & 0xfcbu32 == 0) == (stat & (1u32 << 6u32) == 0 && stat & (1u32 << 0u32) == 0
        && stat & (1u32 << 1u32) == 0 && stat & (1u32 << 3u32) == 0 && stat & (1u32 << 7u32) == 0
        && stat & (1u32 << 8u32) == 0 && stat & (1u32 << 9u32) == 0 && stat & (1u32 << 10u32) == 0
        && stat & (1u32 << 11u32) == 0)) by (bit_vector);
    lemma_plan_is_tail(stat);
    lemma_tail_reads_only(0, stat);
    if (forall|j: int| 0 <= j < 9 ==> !bit_set(stat, #[trigger] clear_step_bit(j))) {
        assert(!bit_set(stat, clear_step_bit(0)) && !bit_set(stat, clear_step_bit(1)) && !bit_set(
            stat,
            clear_step_bit(2),
        ) && !bit_set(stat, clear_step_bit(3)) && !bit_set(stat, clear_step_bit(4)) && !bit_set(
            stat,
            clear_step_bit(5),
        ) && !bit_set(stat, clear_step_bit(6)) && !bit_set(stat, clear_step_bit(7)) && !bit_set(
            stat,
            clear_step_bit(8),
        ));
    }
}

proof fn lemma_plan_is_tail(stat: u32)
    ensures
        clear_run_tail(0, stat) == clear_intr_plan(stat),
{
    assert(clear_run_tail(9, stat) == Seq::<RegOp>::empty());
    assert(clear_run_tail(8, stat) == clear_if(stat, INTR_GEN_CALL, IC_CLR_GEN_CALL) + clear_run_tail(9, stat));
    assert(clear_run_tail(7, stat) == clear_if(stat, INTR_START_DET, IC_CLR_START_DET) + clear_run_tail(8, stat));
    assert(clear_run_tail(6, stat) == clear_if(stat, INTR_STOP_DET, IC_CLR_STOP_DET) + clear_run_tail(7, stat));
    assert(clear_run_tail(5, stat) == clear_if(stat, INTR_ACTIVITY, IC_CLR_ACTIVITY) + clear_run_tail(6, stat));
    assert(clear_run_tail(4, stat) == clear_if(stat, INTR_RX_DONE, IC_CLR_RX_DONE) + clear_run_tail(5, stat));
    assert(clear_run_tail(3, stat) == clear_if(stat, INTR_TX_OVER, IC_CLR_TX_OVER) + clear_run_tail(4, stat));
    assert(clear_run_tail(2, stat) == clear_if(stat, INTR_RX_OVER, IC_CLR_RX_OVER) + clear_run_tail(3, stat));
    assert(clear_run_tail(1, stat) == clear_if(stat, INTR_RX_UNDER, IC_CLR_RX_UNDER) + clear_run_tail(2, stat));
    assert(clear_run_tail(0, stat) == clear_if(stat, INTR_TX_ABRT, IC_CLR_TX_ABRT) + clear_run_tail(1, stat));
}

proof fn lemma_tail_reads_only(k: int, stat: u32)
    requires
        0 <= k <= 9,
    ensures
        forall|i: int|
            0 <= i < clear_run_tail(k, stat).len() ==> #[trigger] clear_run_tail(k, stat)[i] is Read,
        clear_run_tail(k, stat).len() <= 9 - k,
        (clear_run_tail(k, stat).len() == 0) == (forall|j: int|
            k <= j < 9 ==> !bit_set(stat, #[trigger] clear_step_bit(j))),
        clear_run_tail(k, stat).contains(RegOp::Read { offset: IC_CLR_TX_ABRT }) == (k == 0
            && bit_set(stat, INTR_TX_ABRT)),
    decreases 9 - k,
{
    if k < 9 {
        lemma_tail_reads_only(k + 1, stat);
        let h = clear_if(stat, clear_step_bit(k), clear_step_reg(k));
        let t = clear_run_tail(k + 1, stat);
        let all = clear_run_tail(k, stat);
        assert(all == h + t);
        assert forall|i: int| 0 <= i < all.len() implies #[trigger] all[i] is Read by {
            if i < h.len() {
            } else {
                assert(all[i] == t[i - h.len()]);
            }
        }
        if all.len() == 0 {
            assert forall|j: int| k <= j < 9 implies !bit_set(stat, #[trigger] clear_step_bit(j)) by {
                if j > k {
                }
            }
        }
        let x = RegOp::Read { offset: IC_CLR_TX_ABRT };
        if all.contains(x) {
            let i = choose|i: int| 0 <= i < all.len() && all[i] == x;
            if i >= h.len() {
                assert(t[i - h.len()] == x);
                assert(t.contains(x));
            }
        }
        if k == 0 && bit_set(stat, INTR_TX_ABRT) {
            assert(all[0] == x);
        }
    } else {
        assert(clear_run_tail(k, stat) == Seq::<RegOp>::empty());
    }
}

/// Number of steps in clearing interrupts: one per clearable interrupt.
pub const CLEAR_STEPS: u32 = 9;

/// The interrupt bit tested at step `k` of clearing.
pub open spec fn clear_step_bit(k: int) -> u32 {
    if k == 0 {
        INTR_TX_ABRT
    } else if k == 1 {
        INTR_RX_UNDER
    } else if k == 2 {
        INTR_RX_OVER
    } else if k == 3 {
        INTR_TX_OVER
    } else if k == 4 {
        INTR_RX_DONE
    } else if k == 5 {
        INTR_ACTIVITY
    } else if k == 6 {
        INTR_STOP_DET
    } else if k == 7 {
        INTR_START_DET
    } else {
        INTR_GEN_CALL
    }
}

/// The clear register read at step `k` of clearing.
pub open spec fn clear_step_reg(k: int) -> u32 {
    if k == 0 {
        IC_CLR_TX_ABRT
    } else if k == 1 {
        IC_CLR_RX_UNDER
    } else if k == 2 {
        IC_CLR_RX_OVER
    } else if k == 3 {
        IC_CLR_TX_OVER
    } else if k == 4 {
        IC_CLR_RX_DONE
    } else if k == 5 {
        IC_CLR_ACTIVITY
    } else if k == 6 {
        IC_CLR_STOP_DET
    } else if k == 7 {
        IC_CLR_START_DET
    } else {
        IC_CLR_GEN_CALL
    }
}

/// The reads of a clearing run from step `first` on, where `rs[i]` is the
/// `IC_INTR_STAT` reading taken before step `first + i`.
pub open spec fn clear_run(first: int, rs: Seq<u32>) -> Seq<RegOp>
    decreases rs.len(),
{
    if rs.len() == 0 {
        seq![]
    } else {
        clear_if(rs[0], clear_step_bit(first), clear_step_reg(first)) + clear_run(
            first + 1,
            rs.drop_first(),
        )
    }
}

/// When the interrupt status does not change during clearing, the run
/// performs exactly the reads of [`clear_intr_plan`] on that status.
pub proof fn lemma_clear_run_on_steady_status(stat: u32)
    ensures
        clear_run(0, Seq::new(CLEAR_STEPS as nat, |i: int| stat)) == clear_intr_plan(stat),
{
    lemma_clear_run_steady_from(0, stat);
    lemma_plan_is_tail(stat);
}

proof fn lemma_clear_run_steady_from(k: int, stat: u32)
    requires
        0 <= k <= 9,
    ensures
        clear_run(k, Seq::new((9 - k) as nat, |i: int| stat)) == clear_run_tail(k, stat),
    decreases 9 - k,
{
    if k < 9 {
        let t = Seq::new((9 - k) as nat, |i: int| stat);
        assert(t.drop_first() =~= Seq::new((9 - (k + 1)) as nat, |i: int| stat));
        lemma_clear_run_steady_from(k + 1, stat);
    } else {
        assert(Seq::new((9 - k) as nat, |i: int| stat).len() == 0);
    }
}

/// The reads of steps `k..9` of clearing on a steady status `stat`.
pub open spec fn clear_run_tail(k: int, stat: u32) -> Seq<RegOp>
    decreases 9 - k,
{
    if k >= 9 {
        seq![]
    } else {
        clear_if(stat, clear_step_bit(k), clear_step_reg(k)) + clear_run_tail(k + 1, stat)
    }
}

/// Each clearable interrupt has a clear register of its own, and clearing
/// on a status reads it exactly when that interrupt is pending.
pub proof fn lemma_clear_plan_pairs(stat: u32)
    ensures
        clear_intr_plan(stat).contains(RegOp::Read { offset: IC_CLR_TX_ABRT }) == bit_set(
            stat,
            INTR_TX_ABRT,
        ),
        clear_intr_plan(stat).contains(RegOp::Read { offset: IC_CLR_RX_UNDER }) == bit_set(
            stat,
            INTR_RX_UNDER,
        ),
        clear_intr_plan(stat).contains(RegOp::Read { offset: IC_CLR_RX_OVER }) == bit_set(
            stat,
            INTR_RX_OVER,
        ),
        clear_intr_plan(stat).contains(RegOp::Read { offset: IC_CLR_TX_OVER }) == bit_set(
            stat,
            INTR_TX_OVER,
        ),
        clear_intr_plan(stat).contains(RegOp::Read { offset: IC_CLR_RX_DONE }) == bit_set(
            stat,
            INTR_RX_DONE,
        ),
        clear_intr_plan(stat).contains(RegOp::Read { offset: IC_CLR_ACTIVITY }) == bit_set(
            stat,
            INTR_ACTIVITY,
        ),
        clear_intr_plan(stat).contains(RegOp::Read { offset: IC_CLR_STOP_DET }) == bit_set(
            stat,
            INTR_STOP_DET,
        ),
        clear_intr_plan(stat).contains(RegOp::Read { offset: IC_CLR_START_DET }) == bit_set(
            stat,
            INTR_START_DET,
        ),
        clear_intr_plan(stat).contains(RegOp::Read { offset: IC_CLR_GEN_CALL }) == bit_set(
            stat,
            INTR_GEN_CALL,
        ),
        !clear_intr_plan(stat).contains(RegOp::Read { offset: IC_CLR_RD_REQ }),
        !clear_intr_plan(stat).contains(RegOp::Read { offset: IC_CLR_INTR }),
{
    lemma_plan_is_tail(stat);
    lemma_tail_pairs(0, stat);
    let p = clear_intr_plan(stat);
    assert(p.contains(RegOp::Read { offset: clear_step_reg(0) }) == bit_set(stat, clear_step_bit(0)));
    assert(p.contains(RegOp::Read { offset: clear_step_reg(1) }) == bit_set(stat, clear_step_bit(1)));
    assert(p.contains(RegOp::Read { offset: clear_step_reg(2) }) == bit_set(stat, clear_step_bit(2)));
    assert(p.contains(RegOp::Read { offset: clear_step_reg(3) }) == bit_set(stat, clear_step_bit(3)));
    assert(p.contains(RegOp::Read { offset: clear_step_reg(4) }) == bit_set(stat, clear_step_bit(4)));
    assert(p.contains(RegOp::Read { offset: clear_step_reg(5) }) == bit_set(stat, clear_step_bit(5)));
    assert(p.contains(RegOp::Read { offset: clear_step_reg(6) }) == bit_set(stat, clear_step_bit(6)));
    assert(p.contains(RegOp::Read { offset: clear_step_reg(7) }) == bit_set(stat, clear_step_bit(7)));
    assert(p.contains(RegOp::Read { offset: clear_step_reg(8) }) == bit_set(stat, clear_step_bit(8)));
}

proof fn lemma_tail_pairs(k: int, stat: u32)
    requires
        0 <= k <= 9,
    ensures
        forall|j: int|
            0 <= j < 9 ==> clear_run_tail(k, stat).contains(
                RegOp::Read { offset: #[trigger] clear_step_reg(j) },
            ) == (k <= j && bit_set(stat, clear_step_bit(j))),
        !clear_run_tail(k, stat).contains(RegOp::Read { offset: IC_CLR_RD_REQ }),
        !clear_run_tail(k, stat).contains(RegOp::Read { offset: IC_CLR_INTR }),
    decreases 9 - k,
{
    if k < 9 {
        lemma_tail_pairs(k + 1, stat);
        let h = clear_if(stat, clear_step_bit(k), clear_step_reg(k));
        let t = clear_run_tail(k + 1, stat);
        let all = clear_run_tail(k, stat);
        assert(all == h + t);
        assert forall|x: RegOp| all.contains(x) == (h.contains(x) || t.contains(x)) by {
            if all.contains(x) {
                let i = choose|i: int| 0 <= i < all.len() && all[i] == x;
                if i < h.len() {
                    assert(h[i] == x);
                } else {
                    assert(t[i - h.len()] == x);
                }
            }
            if h.contains(x) {
                let i = choose|i: int| 0 <= i < h.len() && h[i] == x;
                assert(all[i] == x);
            }
            if t.contains(x) {
                let i = choose|i: int| 0 <= i < t.len() && t[i] == x;
                assert(all[i + h.len()] == x);
            }
        }
        assert forall|j: int| 0 <= j < 9 implies all.contains(
            RegOp::Read { offset: #[trigger] clear_step_reg(j) },
        ) == (k <= j && bit_set(stat, clear_step_bit(j))) by {
            let x = RegOp::Read { offset: clear_step_reg(j) };
            if h.contains(x) {
                let i = choose|i: int| 0 <= i < h.len() && h[i] == x;
                assert(h[i] == RegOp::Read { offset: clear_step_reg(k) });
            }
            if j == k && bit_set(stat, clear_step_bit(j)) {
                assert(h[0] == x);
            }
        }
        let y = RegOp::Read { offset: IC_CLR_RD_REQ };
        let z = RegOp::Read { offset: IC_CLR_INTR };
        if h.contains(y) {
            let i = choose|i: int| 0 <= i < h.len() && h[i] == y;
            assert(h[i] == RegOp::Read { offset: clear_step_reg(k) });
        }
        if h.contains(z) {
            let i = choose|i: int| 0 <= i < h.len() && h[i] == z;
            assert(h[i] == RegOp::Read { offset: clear_step_reg(k) });
        }
    } else {
        assert(clear_run_tail(k, stat) == Seq::<RegOp>::empty());
    }
}

/// Clearing the pending interrupts: one step per clearable interrupt, each
/// on a fresh `IC_INTR_STAT` reading, since an interrupt may rise while the
/// earlier ones are cleared.
#[derive(Clone, Copy, Debug, PartialEq, Eq)]
pub struct IntrClear {
    /// The interrupt status read before clearing began.
    pub stat: u32,
    /// The next step, `0..CLEAR_STEPS`.
    pub next: u32,
}

/// Starts clearing the interrupts; `stat` is the `IC_INTR_STAT` value read
/// first, kept as the status before clearing.
pub fn i2c_clear_intr_bits(stat: u32) -> (c: IntrClear)
    ensures
        c.stat == stat,
        c.next == 0,
{
    IntrClear { stat, next: 0 }
}

impl IntrClear {
    /// Whether every step has been taken.
    pub fn is_done(&self) -> (r: bool)
        ensures
            r == (self.next >= CLEAR_STEPS),
    {
        self.next >= CLEAR_STEPS
    }

    /// Takes the next step on `intr_stat`, the `IC_INTR_STAT` value read
    /// now: the clear register to read if its interrupt is pending. On a
    /// pending transmit abort (the first step) the abort source goes to
    /// `last_err`.
    pub fn observe(&mut self, intr_stat: u32, abrt_source: u32, last_err: &mut u32) -> (op: Option<
        RegOp,
    >)
        requires
            old(self).next < CLEAR_STEPS,
        ensures
            final(self).stat == old(self).stat,
            final(self).next == old(self).next + 1,
            op == if bit_set(intr_stat, clear_step_bit(old(self).next as int)) {
                Some(RegOp::Read { offset: clear_step_reg(old(self).next as int) })
            } else {
                None
            },
            match op {
                Some(o) => seq![o],
                None => Seq::<RegOp>::empty(),
            } == clear_if(
                intr_stat,
                clear_step_bit(old(self).next as int),
                clear_step_reg(old(self).next as int),
            ),
            *final(last_err) == if old(self).next == 0 && bit_set(intr_stat, INTR_TX_ABRT) {
                abrt_source
            } else {
                *old(last_err)
            },
    {
        let (bit, offset) = match self.next {
            0 => (INTR_TX_ABRT, IC_CLR_TX_ABRT),
            1 => (INTR_RX_UNDER, IC_CLR_RX_UNDER),
            2 => (INTR_RX_OVER, IC_CLR_RX_OVER),
            3 => (INTR_TX_OVER, IC_CLR_TX_OVER),
            4 => (INTR_RX_DONE, IC_CLR_RX_DONE),
            5 => (INTR_ACTIVITY, IC_CLR_ACTIVITY),
            6 => (INTR_STOP_DET, IC_CLR_STOP_DET),
            7 => (INTR_START_DET, IC_CLR_START_DET),
            _ => (INTR_GEN_CALL, IC_CLR_GEN_CALL),
        };
        self.next = self.next + 1;
        if intr_stat & (1u32 << bit) != 0 {
            if bit == INTR_TX_ABRT {
                *last_err = abrt_source;
            }
            Some(RegOp::Read { offset })
        } else {
            None
        }
    }
}

/// Clearing a transmit abort: clear the interrupts, then poll
/// `IC_TX_ABRT_SOURCE` until it reads zero, for at most [`I2C_TIMEOUT`] rounds.
#[derive(Clone, Copy, Debug, PartialEq, Eq)]
pub struct AbortClear {
    /// Rounds left, counting the current one.
    pub remaining: u32,
}

/// Starts clearing a transmit abort.
pub fn i2c_clear_abort() -> (a: AbortClear)
    ensures
        a.remaining == I2C_TIMEOUT,
{
    AbortClear { remaining: I2C_TIMEOUT }
}

impl AbortClear {
    /// The access that starts each round.
    pub fn request(&self) -> (op: RegOp)
        ensures
            op == (RegOp::Read { offset: IC_CLR_INTR }),
    {
        i2c_clear_intr_stat()
    }

    /// Takes the `IC_TX_ABRT_SOURCE` value read after the request.
    pub fn observe(&mut self, abrt_source: u32) -> (out: PollOutcome)
        requires
            old(self).remaining > 0,
        ensures
            (final(self).remaining as nat, out) == countdown_step(
                old(self).remaining as nat,
                abrt_source == 0,
            ),
            abrt_source == 0 ==> out == PollOutcome::Done && final(self).remaining
                == old(self).remaining,
            abrt_source != 0 ==> {
                &&& final(self).remaining == old(self).remaining - 1
                &&& out == if final(self).remaining == 0 {
                    PollOutcome::TimedOut
                } else {
                    PollOutcome::Pending
                }
            },
    {
        if abrt_source == 0 {
            PollOutcome::Done
        } else {
            self.remaining = self.remaining - 1;
            if self.remaining == 0 {
                PollOutcome::TimedOut
            } else {
                PollOutcome::Pending
            }
        }
    }
}

/// Waiting until none of `bits` shows in `IC_STATUS` any more, for at most
/// [`I2C_TIMEOUT`] readings.
#[derive(Clone, Copy, Debug, PartialEq, Eq)]
pub struct StatusWait {
    pub bits: u32,
    /// Readings that still showed one of the bits so far.
    pub waited: u32,
}

/// Starts waiting for `status_bits` to clear in `IC_STATUS`.
pub fn i2c_wait_status(status_bits: u32) -> (w: StatusWait)
    ensures
        w.bits == status_bits,
        w.waited == 0,
{
    StatusWait { bits: status_bits, waited: 0 }
}

impl StatusWait {
    /// Takes the next `IC_STATUS` reading: the wait is over when none of the
    /// bits is set; the reading numbered [`I2C_TIMEOUT`] that still shows one
    /// ends it as timed out.
    pub fn observe(&mut self, status: u32) -> (out: PollOutcome)
        requires
            old(self).waited < I2C_TIMEOUT,
        ensures
            final(self).bits == old(self).bits,
            ((I2C_TIMEOUT - final(self).waited) as nat, out) == countdown_step(
                (I2C_TIMEOUT - old(self).waited) as nat,
                status & old(self).bits == 0,
            ),
            status & old(self).bits == 0 ==> out == PollOutcome::Done && final(self).waited == old(
                self,
            ).waited,
            status & old(self).bits != 0 ==> {
                &&& final(self).waited == old(self).waited + 1
                &&& out == if final(self).waited == I2C_TIMEOUT {
                    PollOutcome::TimedOut
                } else {
                    PollOutcome::Pending
                }
            },
    {
        if status & self.bits == 0 {
            PollOutcome::Done
        } else {
            self.waited = self.waited + 1;
            if self.waited == I2C_TIMEOUT {
                PollOutcome::TimedOut
            } else {
                PollOutcome::Pending
            }
        }
    }
}

/// Starts waiting, before the bus is checked, for the transmit-FIFO-empty
/// flag to clear.
pub fn i2c_wait_bus_busy() -> (w: StatusWait)
    ensures
        w.bits == STATUS_TFE,
        w.waited == 0,
{
    i2c_wait_status(STATUS_TFE)
}

/// Whether the master state machine is still active in `status`, which
/// after the wait of [`i2c_wait_bus_busy`] means the bus stayed busy.
pub fn i2c_master_active(status: u32) -> (r: bool)
    ensures
        r == (status & STATUS_MST_ACTIVITY != 0),
{
    status & STATUS_MST_ACTIVITY != 0
}

/// The data byte of an `IC_DATA_CMD` reading.
pub fn i2c_read_data(data_cmd: u32) -> (b: u8)
    ensures
        b == data_cmd & I2C_DATA_MASK,
{
    let b = (data_cmd & I2C_DATA_MASK) as u8;
    assert(data_cmd & 0xffu32 <= 0xffu32) by (bit_vector);
    b
}

/// One step of draining the receive FIFO.
#[derive(Clone, Copy, Debug, PartialEq, Eq)]
pub enum FlushStep {
    /// The FIFO is not empty: read one byte from `IC_DATA_CMD`
    /// ([`i2c_read_data`]). `overdue` reports that the drain has run for
    /// [`I2C_TIMEOUT`] rounds or more; it goes on all the same.
    Drain { overdue: bool },
    /// The FIFO is empty.
    Done,
}

/// Draining the receive FIFO: read data while `IC_STATUS.RFNE` is set.
#[derive(Clone, Copy, Debug, PartialEq, Eq)]
pub struct RxFlush {
    /// Bytes drained so far.
    pub count: u32,
}

/// Starts draining the receive FIFO.
pub fn i2c_flush_rx_fifo() -> (f: RxFlush)
    ensures
        f.count == 0,
{
    RxFlush { count: 0 }
}

impl RxFlush {
    /// Takes the next `IC_STATUS` reading.
    pub fn observe(&mut self, status: u32) -> (step: FlushStep)
        requires
            old(self).count < u32::MAX,
        ensures
            status & STATUS_RFNE != 0 ==> step == (FlushStep::Drain {
                overdue: old(self).count >= I2C_TIMEOUT,
            }) && final(self).count == old(self).count + 1,
            status & STATUS_RFNE == 0 ==> step == FlushStep::Done && final(self).count == old(
                self,
            ).count,
    {
        if status & STATUS_RFNE != 0 {
            let overdue = self.count >= I2C_TIMEOUT;
            self.count = self.count + 1;
            FlushStep::Drain { overdue }
        } else {
            FlushStep::Done
        }
    }
}

/// Switching the controller off: thresholds to zero, all interrupts masked,
/// then the disable handshake.
pub fn i2c_ctrl_disable() -> (ops: Vec<RegOp>)
    ensures
        ops@ == seq![
            RegOp::Write { offset: IC_RX_TL, value: 0 },
            RegOp::Write { offset: IC_TX_TL, value: 0 },
            RegOp::Write { offset: IC_INTR_MASK, value: 0 },
            RegOp::SetEnable { enable: false },
        ],
{
    let mut ops: Vec<RegOp> = Vec::new();
    ops.push(RegOp::Write { offset: IC_RX_TL, value: 0 });
    ops.push(RegOp::Write { offset: IC_TX_TL, value: 0 });
    ops.push(RegOp::Write { offset: IC_INTR_MASK, value: 0 });
    ops.push(RegOp::SetEnable { enable: false });
    ops
}

} // verus!
