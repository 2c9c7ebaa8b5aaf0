//! The logic of a native virtio-fs device and of the worker threads that serve it.
//!
//! - [`fs`]: the device, its configuration space, its features and its snapshots.
//! - [`queue`]: serving a queue of descriptor chains.
//! - [`events`]: handling the events of a worker's epoll loop.
//! - [`thread_helper`]: starting worker threads.
//! - [`seccomp_filters`]: the programs that confine the workers, and their cache.
//! - [`seccomp_rules`]: which system calls each worker may make.
//! - [`seccomp_laws`]: what holds of the filters and the cache as a whole.
//! - [`worker_laws`]: what each worker may call, on every target.
//! - [`syscalls`]: system call numbers.
//! - [`bpf`]: the seccomp compiler.
//! - [`clock`]: the monotonic clock.
//! - [`text`]: decimal numbers.
//! - [`words`]: numbers cut down to a shorter word.

pub mod bpf;
pub mod clock;
pub mod events;
pub mod fs;
pub mod queue;
pub mod seccomp_filters;
pub mod seccomp_laws;
pub mod seccomp_rules;
pub mod syscalls;
pub mod text;
pub mod thread_helper;
pub mod words;
pub mod worker_laws;
