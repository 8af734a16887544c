# force_touch

Userspace Magic Trackpad 2 Force Touch and haptics daemon for Linux, with its
decision logic verified by Verus.

- `src/` is the verified library: the touch report decoder, the click state
  machine (normal, force and held-back clicks, releases, re-arming), the
  virtual mouse button bookkeeping, haptic report bytes, ioctl request
  numbers, the configuration file reader (comments, sections, values,
  integer parsing with Rust's rules), the configuration keys and their
  validation, and the command line options.
- `app/main.rs` is the daemon around it: hidraw and uinput I/O, signals,
  the clock, and the floating-point settings and geometry (drag and ridge
  haptics, centroids, rates), which it hands to the library as booleans.
- `tests/` runs the library on concrete inputs.
