use phytium_i2c::pl061::{gpio_irq_ack_op, gpio_irq_enable_op, GPIO_IC, GPIO_IE};
use phytium_i2c::regs::RegOp;
use phytium_i2c::wdt::{
    wdt_feed_op, wdt_identity, wdt_start_ops, WDT_TIMEOUT, WDT_WCS, WDT_WOR, WDT_WRR,
};

#[test]
fn wdt_identity_fields() {
    assert_eq!(wdt_identity(0x0012_043b), (2, 0x3b));
    assert_eq!(wdt_identity(0xffff_ffff), (0xf, 0x7f));
    assert_eq!(wdt_identity(0), (0, 0));
}

#[test]
fn wdt_start_and_feed() {
    assert_eq!(WDT_TIMEOUT, 6_000_000);
    assert_eq!(
        wdt_start_ops(),
        vec![
            RegOp::Write { offset: WDT_WOR, value: 6_000_000 },
            RegOp::Write { offset: WDT_WCS, value: 1 },
        ]
    );
    assert_eq!(wdt_feed_op(), RegOp::Write { offset: WDT_WRR, value: 1 });
}

#[test]
fn gpio_power_button_interrupt() {
    assert_eq!(gpio_irq_enable_op(), RegOp::Write { offset: GPIO_IE, value: 0x8 });
    assert_eq!(gpio_irq_ack_op(0x8), RegOp::Write { offset: GPIO_IC, value: 0x8 });
}
