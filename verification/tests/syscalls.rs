use virtio_fs::syscalls::{Arch, Syscall};

#[test]
fn x86_64_numbers_are_those_of_libc() {
    let numbers = [
        (Syscall::Accept4, libc::SYS_accept4),
        (Syscall::Bind, libc::SYS_bind),
        (Syscall::Brk, libc::SYS_brk),
        (Syscall::Capget, libc::SYS_capget),
        (Syscall::Capset, libc::SYS_capset),
        (Syscall::ClockGettime, libc::SYS_clock_gettime),
        (Syscall::ClockNanosleep, libc::SYS_clock_nanosleep),
        (Syscall::Close, libc::SYS_close),
        (Syscall::Connect, libc::SYS_connect),
        (Syscall::CopyFileRange, libc::SYS_copy_file_range),
        (Syscall::Dup, libc::SYS_dup),
        (Syscall::EpollCreate1, libc::SYS_epoll_create1),
        (Syscall::EpollCtl, libc::SYS_epoll_ctl),
        (Syscall::EpollPwait, libc::SYS_epoll_pwait),
        (Syscall::EpollWait, libc::SYS_epoll_wait),
        (Syscall::Exit, libc::SYS_exit),
        (Syscall::Fallocate, libc::SYS_fallocate),
        (Syscall::Fchdir, libc::SYS_fchdir),
        (Syscall::Fchmod, libc::SYS_fchmod),
        (Syscall::Fchmodat, libc::SYS_fchmodat),
        (Syscall::Fchownat, libc::SYS_fchownat),
        (Syscall::Fcntl, libc::SYS_fcntl),
        (Syscall::Fdatasync, libc::SYS_fdatasync),
        (Syscall::Fgetxattr, libc::SYS_fgetxattr),
        (Syscall::Flistxattr, libc::SYS_flistxattr),
        (Syscall::Flock, libc::SYS_flock),
        (Syscall::Fremovexattr, libc::SYS_fremovexattr),
        (Syscall::Fsetxattr, libc::SYS_fsetxattr),
        (Syscall::Fstat, libc::SYS_fstat),
        (Syscall::Fstatfs, libc::SYS_fstatfs),
        (Syscall::Fsync, libc::SYS_fsync),
        (Syscall::Ftruncate, libc::SYS_ftruncate),
        (Syscall::Futex, libc::SYS_futex),
        (Syscall::Getcwd, libc::SYS_getcwd),
        (Syscall::Getdents, libc::SYS_getdents),
        (Syscall::Getdents64, libc::SYS_getdents64),
        (Syscall::Getegid, libc::SYS_getegid),
        (Syscall::Geteuid, libc::SYS_geteuid),
        (Syscall::Getpid, libc::SYS_getpid),
        (Syscall::Getrandom, libc::SYS_getrandom),
        (Syscall::Gettid, libc::SYS_gettid),
        (Syscall::Gettimeofday, libc::SYS_gettimeofday),
        (Syscall::Getxattr, libc::SYS_getxattr),
        (Syscall::IoDestroy, libc::SYS_io_destroy),
        (Syscall::IoGetevents, libc::SYS_io_getevents),
        (Syscall::IoSubmit, libc::SYS_io_submit),
        (Syscall::IoUringEnter, libc::SYS_io_uring_enter),
        (Syscall::Ioctl, libc::SYS_ioctl),
        (Syscall::Linkat, libc::SYS_linkat),
        (Syscall::Listen, libc::SYS_listen),
        (Syscall::Listxattr, libc::SYS_listxattr),
        (Syscall::Lseek, libc::SYS_lseek),
        (Syscall::Madvise, libc::SYS_madvise),
        (Syscall::Membarrier, libc::SYS_membarrier),
        (Syscall::Mkdirat, libc::SYS_mkdirat),
        (Syscall::Mknodat, libc::SYS_mknodat),
        (Syscall::Mmap, libc::SYS_mmap),
        (Syscall::Mprotect, libc::SYS_mprotect),
        (Syscall::Mremap, libc::SYS_mremap),
        (Syscall::Munmap, libc::SYS_munmap),
        (Syscall::NameToHandleAt, libc::SYS_name_to_handle_at),
        (Syscall::Nanosleep, libc::SYS_nanosleep),
        (Syscall::Newfstatat, libc::SYS_newfstatat),
        (Syscall::Open, libc::SYS_open),
        (Syscall::OpenByHandleAt, libc::SYS_open_by_handle_at),
        (Syscall::Openat, libc::SYS_openat),
        (Syscall::Openat2, libc::SYS_openat2),
        (Syscall::Prctl, libc::SYS_prctl),
        (Syscall::Pread64, libc::SYS_pread64),
        (Syscall::Preadv, libc::SYS_preadv),
        (Syscall::Preadv2, libc::SYS_preadv2),
        (Syscall::Pwrite64, libc::SYS_pwrite64),
        (Syscall::Pwritev, libc::SYS_pwritev),
        (Syscall::Pwritev2, libc::SYS_pwritev2),
        (Syscall::Read, libc::SYS_read),
        (Syscall::Readlinkat, libc::SYS_readlinkat),
        (Syscall::Readv, libc::SYS_readv),
        (Syscall::Recvfrom, libc::SYS_recvfrom),
        (Syscall::Recvmsg, libc::SYS_recvmsg),
        (Syscall::Removexattr, libc::SYS_removexattr),
        (Syscall::Renameat, libc::SYS_renameat),
        (Syscall::Renameat2, libc::SYS_renameat2),
        (Syscall::Rseq, libc::SYS_rseq),
        (Syscall::RtSigaction, libc::SYS_rt_sigaction),
        (Syscall::RtSigprocmask, libc::SYS_rt_sigprocmask),
        (Syscall::RtSigreturn, libc::SYS_rt_sigreturn),
        (Syscall::SchedGetaffinity, libc::SYS_sched_getaffinity),
        (Syscall::SchedSetaffinity, libc::SYS_sched_setaffinity),
        (Syscall::SchedYield, libc::SYS_sched_yield),
        (Syscall::Sendmsg, libc::SYS_sendmsg),
        (Syscall::Sendto, libc::SYS_sendto),
        (Syscall::SetRobustList, libc::SYS_set_robust_list),
        (Syscall::Setgroups, libc::SYS_setgroups),
        (Syscall::Setresgid, libc::SYS_setresgid),
        (Syscall::Setresuid, libc::SYS_setresuid),
        (Syscall::Setxattr, libc::SYS_setxattr),
        (Syscall::Shutdown, libc::SYS_shutdown),
        (Syscall::Sigaltstack, libc::SYS_sigaltstack),
        (Syscall::Socket, libc::SYS_socket),
        (Syscall::Statx, libc::SYS_statx),
        (Syscall::Symlinkat, libc::SYS_symlinkat),
        (Syscall::Syncfs, libc::SYS_syncfs),
        (Syscall::Tgkill, libc::SYS_tgkill),
        (Syscall::Time, libc::SYS_time),
        (Syscall::TimerfdCreate, libc::SYS_timerfd_create),
        (Syscall::TimerfdSettime, libc::SYS_timerfd_settime),
        (Syscall::Tkill, libc::SYS_tkill),
        (Syscall::Umask, libc::SYS_umask),
        (Syscall::Unlink, libc::SYS_unlink),
        (Syscall::Unlinkat, libc::SYS_unlinkat),
        (Syscall::Unshare, libc::SYS_unshare),
        (Syscall::Utimensat, libc::SYS_utimensat),
        (Syscall::Write, libc::SYS_write),
        (Syscall::Writev, libc::SYS_writev),
    ];
    assert_eq!(numbers.len(), 114);
    for (call, number) in numbers {
        assert_eq!(call.number(Arch::X86_64), Some(number), "{call:?}");
    }
}

#[test]
fn generic_numbers_are_those_of_the_kernel_table() {
    assert_eq!(Syscall::Brk.number(Arch::Aarch64), Some(214));
    assert_eq!(Syscall::Close.number(Arch::Riscv64), Some(57));
    assert_eq!(Syscall::Ioctl.number(Arch::Aarch64), Some(29));
    assert_eq!(Syscall::Socket.number(Arch::Riscv64), Some(198));
    assert_eq!(Syscall::Openat2.number(Arch::Aarch64), Some(437));
}

#[test]
fn calls_that_an_architecture_lacks_have_no_number() {
    for call in [
        Syscall::EpollWait,
        Syscall::Getdents,
        Syscall::Open,
        Syscall::Time,
        Syscall::Unlink,
    ] {
        assert_eq!(call.number(Arch::Aarch64), None);
        assert_eq!(call.number(Arch::Riscv64), None);
    }
    assert_eq!(Syscall::Renameat.number(Arch::Aarch64), Some(38));
    assert_eq!(Syscall::Renameat.number(Arch::Riscv64), None);
}

#[test]
fn architectures_go_by_the_names_of_the_standard_library() {
    assert_eq!(Arch::X86_64.name(), "x86_64");
    assert_eq!(Arch::Aarch64.name(), "aarch64");
    assert_eq!(Arch::Riscv64.name(), "riscv64");
}
