# pll5p49v

Driver logic for the Renesas 5P49V clock generators (tested with the
5P49V5925 and 5P49V6965), verified with Verus.

- `src/divider.rs`: the fixed-point feedback and output divider words, and
  what their integer and fraction fields hold.
- `src/fields.rs`: packing of those fields into register bytes.
- `src/registers.rs`: the 107-byte image (start address, registers
  0x00..0x69) that programs the chip in one I2C write.
- `src/calibration.rs`: VCO calibration as a state machine over register
  reads and writes.
- `app/`: `write_config` and `calibrate_vco`, which run the above over an
  `embedded_hal_async` I2C bus.
