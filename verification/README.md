# phytium_i2c

Verified register-level logic for the Phytium Pi I2C controller, with the
register values of its watchdog and PL061 GPIO power button.

- `src/` (Verus): bit fields (`field`), the I2C register map and its polling
  procedures (`regs`), speed modes and SCL counts (`speed`), transfer frames
  (`frame`), the driver (`i2c`), and the watchdog (`wdt`) and GPIO (`pl061`)
  register values. Driver operations return the register accesses to perform
  (`RegOp`) computed from register readings; polling loops are state
  machines stepped with each reading.
- `app/` (plain Rust): memory-mapped access through `tock-registers`, plan
  execution, the polling loops and interrupt registration.
- `tests/`: the library's behaviour on concrete register values.
