# kobo-abi

The Linux ABI rules used by the Kobo Clara BW runtime, verified with Verus.

- `src/` is the library. It decides which kernel calls are made, in which order
  and with which bytes, and it reads what they came to: ioctl request numbers and
  structure layouts, the framebuffer, input and display-controller exchanges, the
  seccomp filter and the descent into a sandbox, the walks over the process
  table, the stop record, and the life of a program on a pseudo-terminal.
- `tests/` runs it on plain values.
- `app/` performs the calls. What changes the device or another process is
  compiled there only with `--cfg 'feature="device-write"'`.

Structures are laid out for little-endian targets, as all supported ones are.
