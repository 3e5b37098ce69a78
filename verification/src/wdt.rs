//! The generic watchdog: its register map and the register values its
//! driver writes and reads.

use vstd::prelude::*;
use crate::field::Field;
use crate::regs::RegOp;

verus! {

/// Physical base address of watchdog 0.
pub const WDT_BASE: usize = 0x2804_0000;

/// Interrupt numbers of the two watchdogs.
pub const WDT0_IRQ_NUM: usize = 196;
pub const WDT1_IRQ_NUM: usize = 197;

// Register offsets.
pub const WDT_WRR: u32 = 0x0000;
pub const WDT_W_IIDR: u32 = 0x0fcc;
pub const WDT_WCS: u32 = 0x1000;
pub const WDT_WOR: u32 = 0x1008;
pub const WDT_WCVL: u32 = 0x1010;
pub const WDT_WCVH: u32 = 0x1014;

/// Timeout loaded into `WOR`, in watchdog clock ticks.
pub const WDT_TIMEOUT: u32 = 6000000;

/// The `(version, JEP106 id)` of a `W_IIDR` value: bits 19..16 and 6..0.
pub open spec fn spec_wdt_identity(iidr: u32) -> (u8, u8) {
    (((iidr >> 16u32) & 0xf) as u8, (iidr & 0x7f) as u8)
}

/// The version and JEP106 id fields of a `W_IIDR` reading.
pub fn wdt_identity(iidr: u32) -> (r: (u8, u8))
    ensures
        r == spec_wdt_identity(iidr),
{
    let version = Field::new(0xf, 16).read(iidr);
    let id = Field::new(0x7f, 0).read(iidr);
    assert((iidr & (0xfu32 << 16u32)) >> 16u32 == (iidr >> 16u32) & 0xf && (iidr >> 16u32) & 0xf
        <= 0xf) by (bit_vector);
    assert((iidr & (0x7fu32 << 0u32)) >> 0u32 == iidr & 0x7f && iidr & 0x7f <= 0x7f) by (bit_vector);
    (version as u8, id as u8)
}

/// Starting the watchdog: load the timeout, then set the enable bit.
pub fn wdt_start_ops() -> (ops: Vec<RegOp>)
    ensures
        ops@ == seq![
            RegOp::Write { offset: WDT_WOR, value: WDT_TIMEOUT },
            RegOp::Write { offset: WDT_WCS, value: 1 },
        ],
{
    let timeout = Field::new(0xffff_ffff, 0).val(WDT_TIMEOUT).value;
    let enable = Field::new(1, 0).val(1).value;
    assert((6000000u32 & 0xffff_ffffu32) << 0u32 == 6000000u32) by (bit_vector);
    assert((1u32 & 1u32) << 0u32 == 1u32) by (bit_vector);
    let mut ops: Vec<RegOp> = Vec::new();
    ops.push(RegOp::Write { offset: WDT_WOR, value: timeout });
    ops.push(RegOp::Write { offset: WDT_WCS, value: enable });
    ops
}

/// Refreshing the watchdog: write 1 to `WRR`.
pub fn wdt_feed_op() -> (op: RegOp)
    ensures
        op == (RegOp::Write { offset: WDT_WRR, value: 1 }),
{
    let v = Field::new(0xffff_ffff, 0).val(1).value;
    assert((1u32 & 0xffff_ffffu32) << 0u32 == 1u32) by (bit_vector);
    RegOp::Write { offset: WDT_WRR, value: v }
}

/// The identity reads only the version field (bits 19..16) and the id field
/// (bits 6..0): readings that agree there give the same identity, and the
/// two values fit their fields.
pub proof fn lemma_wdt_identity_fields(a: u32, b: u32)
    ensures
        spec_wdt_identity(a).0 < 16,
        spec_wdt_identity(a).1 < 128,
        a & 0x000f_007f == b & 0x000f_007f ==> spec_wdt_identity(a) == spec_wdt_identity(b),
        spec_wdt_identity(a).0 as u32 == (a & 0x000f_0000) >> 16u32,
        spec_wdt_identity(a).1 as u32 == a & 0x7f,
{
    assert((a >> 16u32) & 0xf < 16 && a & 0x7f < 128) by (bit_vector);
    assert((a >> 16u32) & 0xf == (a & 0x000f_0000) >> 16u32) by (bit_vector);
    assert(a & 0x000f_007f == b & 0x000f_007f ==> (a >> 16u32) & 0xf == (b >> 16u32) & 0xf && a
        & 0x7f == b & 0x7f) by (bit_vector);
}

} // verus!
