# virtio_fs

The logic of a native virtio-fs device and of the virtio worker threads of a VMM, verified with
Verus.

- `src/` is the verified library. It decides which system calls each worker may make, compiles
  and caches the filters that confine the workers, sets up the device and its configuration
  space, takes and restores snapshots, and steps through serving a queue.
- `app/` is the ordinary Rust around it: threads, event descriptors, guest memory, the file
  system server and the serialised form of a snapshot. What the rest of a VMM supplies stands
  there as traits.
- `tests/` runs the library with the real seccomp compiler.

The library calls the seccomp compiler (`seccompiler`), one `ioctl` number of `mshv-ioctls`, and
the clock and paths of the standard library. What is believed of those calls without proof is
said in the doc comments of `src/bpf.rs`, `src/clock.rs`, `src/seccomp_rules.rs` and `src/fs.rs`.
