//! The PL061 GPIO controller: its register map and the register values its
//! power-button interrupt writes.

use vstd::prelude::*;
use crate::field::Field;
use crate::regs::RegOp;

verus! {

/// Offset of the GPIO block from the start of the physical-to-virtual
/// mapped device space.
pub const PL061_BASE: usize = 0x0903_0000;

/// Interrupt number of the GPIO controller.
pub const GPIO_IRQ_NUM: usize = 39;

// Register offsets.
pub const GPIO_DATA: u32 = 0x000;
pub const GPIO_DIR: u32 = 0x400;
pub const GPIO_IS: u32 = 0x404;
pub const GPIO_IBE: u32 = 0x408;
pub const GPIO_IEV: u32 = 0x40c;
pub const GPIO_IE: u32 = 0x410;
pub const GPIO_RIS: u32 = 0x414;
pub const GPIO_MIS: u32 = 0x418;
pub const GPIO_IC: u32 = 0x41c;
pub const GPIO_AFSEL: u32 = 0x420;

/// The pin wired to the power button.
pub const GPIO_POWER_PIN: u32 = 3;

/// Enabling the interrupt of the power-button pin alone.
pub fn gpio_irq_enable_op() -> (op: RegOp)
    ensures
        op == (RegOp::Write { offset: GPIO_IE, value: 1u32 << GPIO_POWER_PIN }),
{
    let v = Field::new(1, GPIO_POWER_PIN).val(1).value;
    assert((1u32 & 1u32) << 3u32 == 1u32 << 3u32) by (bit_vector);
    RegOp::Write { offset: GPIO_IE, value: v }
}

/// Acknowledging the pending GPIO interrupts: every enabled one (`ie`, the
/// `GPIO_IE` reading) is cleared.
pub fn gpio_irq_ack_op(ie: u32) -> (op: RegOp)
    ensures
        op == (RegOp::Write { offset: GPIO_IC, value: ie }),
{
    RegOp::Write { offset: GPIO_IC, value: ie }
}

} // verus!
