# max7800x-hal

A hardware abstraction layer for the MAX78002 microcontroller, split in two:

- `src/` is the verified library. It decides what the hardware is told:
  clock and oscillator typestates and frequencies, flash address and page
  arithmetic and the checks before every flash access, GPIO pin bits, and
  the whole CNN accelerator side — register field decoding, the
  reserved-bit model, network validation, the order and values of every
  layer register write, the addresses of weights, bias, input and output,
  and the control words. Where a register write is left to the caller
  (oscillator and system clock selection, pin modes, CNN power, init and
  start, kernel and bias loading), the library returns the ordered list of
  writes. Verus proves every function against its contract, and the laws
  the library keeps (a validated network fits every memory it is loaded
  into, configuring writes each register once, powering down undoes
  powering up, and more) are proof functions beside the code they are
  about.
- `app/` performs what the library decides: the memory-mapped register
  reads and writes through the PAC, the busy-waits, and the `embedded-hal`
  and `rand_core` trait implementations.

`tests/` exercises the library on the values the network generator and the
SDK examples use.
