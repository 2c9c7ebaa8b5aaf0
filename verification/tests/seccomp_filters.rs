use seccompiler::{
    BpfProgram, SeccompCmpArgLen, SeccompCmpOp, SeccompCondition, SeccompFilter, TargetArch,
};
use std::sync::Arc;
use std::time::{Duration, Instant};
use virtio_fs::bpf::{SeccompAction, SockFilter};
use virtio_fs::clock::Stopwatch;
use virtio_fs::seccomp_filters::{
    build_seccomp_filter, get_cached_seccomp_filter, get_seccomp_filter, precompile_next,
    precompile_seccomp_filters, Error, FilterCache, FilterLookup, PrecompileSummary, Thread,
};
use virtio_fs::seccomp_rules::{
    get_seccomp_rules, virtio_fs_thread_rules, ArgLen, Operator, SeccompRule, Target,
};
use virtio_fs::syscalls::Arch;

fn lookup(
    cache: &mut FilterCache,
    action: &SeccompAction,
    thread: Thread,
) -> Result<FilterLookup, Error> {
    get_cached_seccomp_filter(cache, action, thread, Instant::now())
}

fn host() -> Target {
    Target { arch: Arch::X86_64, gnu: true, sev_snp: false }
}

fn dma() -> Vec<(u8, u64)> {
    vec![(1, 0x3b71), (1, 0x3b72), (1, 0x3b85), (1, 0x3b86)]
}

/// A worker's own system calls on x86-64, with the arguments that they are restricted to.
fn own_calls(thread: Thread) -> Vec<(i64, Vec<(u8, u64)>)> {
    match thread {
        Thread::VirtioBalloon => vec![
            (libc::SYS_fallocate, vec![]),
        ],
        Thread::VirtioBlock => vec![
            (libc::SYS_fallocate, vec![]),
            (libc::SYS_fcntl, vec![]),
            (libc::SYS_fdatasync, vec![]),
            (libc::SYS_fstat, vec![]),
            (libc::SYS_fsync, vec![]),
            (libc::SYS_ftruncate, vec![]),
            (libc::SYS_getrandom, vec![]),
            (libc::SYS_ioctl, vec![(1, 0x1277), (1, 0x127f)]),
            (libc::SYS_io_destroy, vec![]),
            (libc::SYS_io_getevents, vec![]),
            (libc::SYS_io_submit, vec![]),
            (libc::SYS_io_uring_enter, vec![]),
            (libc::SYS_lseek, vec![]),
            (libc::SYS_newfstatat, vec![]),
            (libc::SYS_pread64, vec![]),
            (libc::SYS_preadv, vec![]),
            (libc::SYS_pwritev, vec![]),
            (libc::SYS_pwrite64, vec![]),
            (libc::SYS_sched_getaffinity, vec![]),
            (libc::SYS_sched_setaffinity, vec![]),
            (libc::SYS_set_robust_list, vec![]),
            (libc::SYS_statx, vec![]),
            (libc::SYS_timerfd_settime, vec![]),
        ],
        Thread::VirtioConsole => vec![
            (libc::SYS_ioctl, vec![(1, libc::TIOCGWINSZ as u64)]),
            (libc::SYS_sched_getaffinity, vec![]),
            (libc::SYS_set_robust_list, vec![]),
        ],
        Thread::VirtioIommu => vec![
            (libc::SYS_ioctl, dma()),
        ],
        Thread::VirtioMem => vec![
            (libc::SYS_fallocate, vec![]),
            (libc::SYS_ioctl, dma()),
            (libc::SYS_recvfrom, vec![]),
            (libc::SYS_sendmsg, vec![]),
        ],
        Thread::VirtioNet => vec![
            (libc::SYS_readv, vec![]),
            (libc::SYS_timerfd_settime, vec![]),
            (libc::SYS_writev, vec![]),
        ],
        Thread::VirtioNetCtl => vec![
            (libc::SYS_ioctl, vec![(1, libc::TUNSETOFFLOAD as u64)]),
            (libc::SYS_timerfd_settime, vec![]),
        ],
        Thread::VirtioPmem => vec![
            (libc::SYS_fsync, vec![]),
        ],
        Thread::VirtioRng => vec![
            (libc::SYS_sched_getaffinity, vec![]),
            (libc::SYS_set_robust_list, vec![]),
        ],
        Thread::VirtioRtc => vec![
            (libc::SYS_sched_getaffinity, vec![]),
            (libc::SYS_set_robust_list, vec![]),
        ],
        Thread::VirtioVhostFs => vec![
            (libc::SYS_clock_nanosleep, vec![]),
            (libc::SYS_connect, vec![]),
            (libc::SYS_nanosleep, vec![]),
            (libc::SYS_pread64, vec![]),
            (libc::SYS_pwrite64, vec![]),
            (libc::SYS_recvmsg, vec![]),
            (libc::SYS_sendmsg, vec![]),
            (libc::SYS_sendto, vec![]),
            (libc::SYS_socket, vec![(0, libc::AF_UNIX as u64)]),
            (libc::SYS_timerfd_create, vec![]),
            (libc::SYS_timerfd_settime, vec![]),
        ],
        Thread::VirtioFs => vec![
            (libc::SYS_capget, vec![]),
            (libc::SYS_capset, vec![]),
            (libc::SYS_copy_file_range, vec![]),
            (libc::SYS_fallocate, vec![]),
            (libc::SYS_fchdir, vec![]),
            (libc::SYS_fchmod, vec![]),
            (libc::SYS_fchmodat, vec![]),
            (libc::SYS_fchownat, vec![]),
            (libc::SYS_fdatasync, vec![]),
            (libc::SYS_fgetxattr, vec![]),
            (libc::SYS_flistxattr, vec![]),
            (libc::SYS_flock, vec![]),
            (libc::SYS_fremovexattr, vec![]),
            (libc::SYS_fsetxattr, vec![]),
            (libc::SYS_fstat, vec![]),
            (libc::SYS_fstatfs, vec![]),
            (libc::SYS_fsync, vec![]),
            (libc::SYS_ftruncate, vec![]),
            (libc::SYS_getdents64, vec![]),
            (libc::SYS_getegid, vec![]),
            (libc::SYS_geteuid, vec![]),
            (libc::SYS_getpid, vec![]),
            (libc::SYS_getrandom, vec![]),
            (libc::SYS_gettimeofday, vec![]),
            (libc::SYS_getxattr, vec![]),
            (libc::SYS_linkat, vec![]),
            (libc::SYS_listxattr, vec![]),
            (libc::SYS_lseek, vec![]),
            (libc::SYS_membarrier, vec![]),
            (libc::SYS_mkdirat, vec![]),
            (libc::SYS_mknodat, vec![]),
            (libc::SYS_name_to_handle_at, vec![]),
            (libc::SYS_newfstatat, vec![]),
            (libc::SYS_openat2, vec![]),
            (libc::SYS_open_by_handle_at, vec![]),
            (libc::SYS_prctl, vec![]),
            (libc::SYS_pread64, vec![]),
            (libc::SYS_preadv, vec![]),
            (libc::SYS_preadv2, vec![]),
            (libc::SYS_pwrite64, vec![]),
            (libc::SYS_pwritev, vec![]),
            (libc::SYS_pwritev2, vec![]),
            (libc::SYS_readlinkat, vec![]),
            (libc::SYS_readv, vec![]),
            (libc::SYS_renameat, vec![]),
            (libc::SYS_renameat2, vec![]),
            (libc::SYS_removexattr, vec![]),
            (libc::SYS_rseq, vec![]),
            (libc::SYS_rt_sigaction, vec![]),
            (libc::SYS_sched_getaffinity, vec![]),
            (libc::SYS_sched_yield, vec![]),
            (libc::SYS_sendmsg, vec![]),
            (libc::SYS_set_robust_list, vec![]),
            (libc::SYS_setgroups, vec![]),
            (libc::SYS_setresgid, vec![]),
            (libc::SYS_setresuid, vec![]),
            (libc::SYS_setxattr, vec![]),
            (libc::SYS_statx, vec![]),
            (libc::SYS_symlinkat, vec![]),
            (libc::SYS_syncfs, vec![]),
            (libc::SYS_tgkill, vec![]),
            (libc::SYS_tkill, vec![]),
            (libc::SYS_umask, vec![]),
            (libc::SYS_unlinkat, vec![]),
            (libc::SYS_unshare, vec![]),
            (libc::SYS_utimensat, vec![]),
            (libc::SYS_writev, vec![]),
            (libc::SYS_getdents, vec![]),
            (libc::SYS_open, vec![]),
            (libc::SYS_time, vec![]),
            (libc::SYS_unlink, vec![]),
        ],
        Thread::VirtioGenericVhostUser => vec![
            (libc::SYS_clock_nanosleep, vec![]),
            (libc::SYS_connect, vec![]),
            (libc::SYS_nanosleep, vec![]),
            (libc::SYS_pread64, vec![]),
            (libc::SYS_pwrite64, vec![]),
            (libc::SYS_recvmsg, vec![]),
            (libc::SYS_sendmsg, vec![]),
            (libc::SYS_sendto, vec![]),
            (libc::SYS_socket, vec![(0, libc::AF_UNIX as u64)]),
            (libc::SYS_timerfd_create, vec![]),
            (libc::SYS_timerfd_settime, vec![]),
        ],
        Thread::VirtioVhostNetCtl => vec![
            (libc::SYS_timerfd_settime, vec![]),
        ],
        Thread::VirtioVhostNet => vec![
            (libc::SYS_accept4, vec![]),
            (libc::SYS_bind, vec![]),
            (libc::SYS_clock_nanosleep, vec![]),
            (libc::SYS_connect, vec![]),
            (libc::SYS_getcwd, vec![]),
            (libc::SYS_listen, vec![]),
            (libc::SYS_nanosleep, vec![]),
            (libc::SYS_recvmsg, vec![]),
            (libc::SYS_sendmsg, vec![]),
            (libc::SYS_sendto, vec![]),
            (libc::SYS_socket, vec![(0, libc::AF_UNIX as u64)]),
            (libc::SYS_timerfd_create, vec![]),
            (libc::SYS_timerfd_settime, vec![]),
            (libc::SYS_unlink, vec![]),
        ],
        Thread::VirtioVhostBlock => vec![
            (libc::SYS_clock_nanosleep, vec![]),
            (libc::SYS_connect, vec![]),
            (libc::SYS_nanosleep, vec![]),
            (libc::SYS_recvmsg, vec![]),
            (libc::SYS_sendmsg, vec![]),
            (libc::SYS_socket, vec![(0, libc::AF_UNIX as u64)]),
            (libc::SYS_timerfd_create, vec![]),
            (libc::SYS_timerfd_settime, vec![]),
        ],
        Thread::VirtioVsock => vec![
            (libc::SYS_accept4, vec![]),
            (libc::SYS_connect, vec![]),
            (libc::SYS_fcntl, vec![]),
            (libc::SYS_ioctl, vec![(1, libc::FIONBIO as u64)]),
            (libc::SYS_recvfrom, vec![]),
            (libc::SYS_sendto, vec![]),
            (libc::SYS_shutdown, vec![]),
            (libc::SYS_socket, vec![(0, libc::AF_UNIX as u64)]),
        ],
        Thread::VirtioWatchdog => vec![
            (libc::SYS_sched_getaffinity, vec![]),
            (libc::SYS_set_robust_list, vec![]),
            (libc::SYS_timerfd_settime, vec![]),
        ],
    }
}

/// What every worker calls on x86-64.
fn common_calls() -> Vec<(i64, Vec<(u8, u64)>)> {
    vec![
        (libc::SYS_brk, vec![]),
        (libc::SYS_clock_gettime, vec![]),
        (libc::SYS_close, vec![]),
        (libc::SYS_dup, vec![]),
        (libc::SYS_epoll_create1, vec![]),
        (libc::SYS_epoll_ctl, vec![]),
        (libc::SYS_epoll_pwait, vec![]),
        (libc::SYS_epoll_wait, vec![]),
        (libc::SYS_exit, vec![]),
        (libc::SYS_fcntl, vec![]),
        (libc::SYS_futex, vec![]),
        (libc::SYS_gettid, vec![]),
        (libc::SYS_madvise, vec![]),
        (libc::SYS_mmap, vec![]),
        (libc::SYS_mprotect, vec![]),
        (libc::SYS_mremap, vec![]),
        (libc::SYS_munmap, vec![]),
        (libc::SYS_openat, vec![]),
        (libc::SYS_read, vec![]),
        (libc::SYS_rt_sigprocmask, vec![]),
        (libc::SYS_rt_sigreturn, vec![]),
        (libc::SYS_sigaltstack, vec![]),
        (libc::SYS_write, vec![]),
    ]
}

fn plain(rules: Vec<(i64, Vec<SeccompRule>)>) -> Vec<(i64, Vec<(u8, u64)>)> {
    rules
        .into_iter()
        .map(|(number, chain)| {
            let compared = |rule: SeccompRule| {
                assert_eq!((rule.arg_len, rule.operator), (ArgLen::Dword, Operator::Eq));
                (rule.arg_index, rule.value)
            };
            (number, chain.into_iter().map(compared).collect())
        })
        .collect()
}

fn expected_calls(thread: Thread) -> Vec<(i64, Vec<(u8, u64)>)> {
    let mut calls = own_calls(thread);
    calls.append(&mut common_calls());
    calls
}

fn expected_program(thread: Thread, action: seccompiler::SeccompAction) -> Vec<SockFilter> {
    let rules = expected_calls(thread)
        .into_iter()
        .map(|(number, chain)| {
            let rules = chain
                .into_iter()
                .map(|(index, value)| {
                    let condition = SeccompCondition::new(
                        index,
                        SeccompCmpArgLen::Dword,
                        SeccompCmpOp::Eq,
                        value,
                    );
                    seccompiler::SeccompRule::new(vec![condition.unwrap()]).unwrap()
                })
                .collect();
            (number, rules)
        })
        .collect();
    let filter = SeccompFilter::new(
        rules,
        action,
        seccompiler::SeccompAction::Allow,
        TargetArch::x86_64,
    )
    .unwrap();
    let program: BpfProgram = filter.try_into().unwrap();
    program
        .into_iter()
        .map(|i| SockFilter { code: i.code, jt: i.jt, jf: i.jf, k: i.k })
        .collect()
}

#[test]
fn cached_filter_is_reused() {
    let mut cache = FilterCache::new(host());
    let action = SeccompAction::Trap;
    let thread = Thread::VirtioWatchdog;
    let first = get_cached_seccomp_filter(&mut cache, &action, thread, Instant::now()).unwrap();
    let second = get_cached_seccomp_filter(&mut cache, &action, thread, Instant::now()).unwrap();

    assert!(second.cache_hit);
    assert!(Arc::ptr_eq(&first.program, &second.program));
}

#[test]
fn first_lookup_is_a_miss_and_second_takes_no_time_to_build() {
    let mut cache = FilterCache::new(host());
    let action = SeccompAction::KillProcess;
    assert!(cache.find(&action, Thread::VirtioFs).is_none());
    let first = lookup(&mut cache, &action, Thread::VirtioFs).unwrap();
    let second = lookup(&mut cache, &action, Thread::VirtioFs).unwrap();

    assert!(!first.cache_hit);
    assert!(second.cache_hit);
    assert_eq!(second.build_us, 0);
    assert_eq!(cache.find(&action, Thread::VirtioFs), Some(first.program));
}

#[test]
fn cache_tells_actions_and_workers_apart() {
    let mut cache = FilterCache::new(host());
    let trap = SeccompAction::Trap;
    let log = SeccompAction::Log;
    lookup(&mut cache, &trap, Thread::VirtioRng).unwrap();

    assert!(!lookup(&mut cache, &log, Thread::VirtioRng).unwrap().cache_hit);
    assert!(!lookup(&mut cache, &trap, Thread::VirtioRtc).unwrap().cache_hit);
    assert!(lookup(&mut cache, &trap, Thread::VirtioRng).unwrap().cache_hit);
    let errno = SeccompAction::Errno(1);
    assert!(!lookup(&mut cache, &errno, Thread::VirtioRng).unwrap().cache_hit);
    let errno = SeccompAction::Errno(2);
    assert!(!lookup(&mut cache, &errno, Thread::VirtioRng).unwrap().cache_hit);
}

#[test]
fn summary_counts_hits_and_adds_up_build_times() {
    let mut summary = PrecompileSummary { filter_count: 3, cache_hits: 1, build_us: 40 };
    summary.count(false, 25);
    assert_eq!((summary.filter_count, summary.cache_hits, summary.build_us), (4, 1, 65));
    summary.count(true, 0);
    assert_eq!((summary.filter_count, summary.cache_hits, summary.build_us), (5, 2, 65));
}

#[test]
fn precompiling_fills_the_cache_for_every_worker() {
    let mut cache = FilterCache::new(host());
    let action = SeccompAction::Trap;
    lookup(&mut cache, &action, Thread::VirtioNet).unwrap();

    let first = precompile_seccomp_filters(&mut cache, &action).unwrap();
    assert_eq!(first.filter_count, 18);
    assert_eq!(first.cache_hits, 1);

    let second = precompile_seccomp_filters(&mut cache, &action).unwrap();
    assert_eq!(second.filter_count, 18);
    assert_eq!(second.cache_hits, 18);
    assert_eq!(second.build_us, 0);

    for thread in Thread::ALL {
        assert!(lookup(&mut cache, &action, thread).unwrap().cache_hit);
    }
}

#[test]
fn precompiling_goes_through_the_workers_one_by_one() {
    let mut cache = FilterCache::new(host());
    let action = SeccompAction::Log;
    let mut summary = PrecompileSummary::new();
    assert_eq!((summary.filter_count, summary.cache_hits, summary.build_us), (0, 0, 0));
    lookup(&mut cache, &action, Thread::VirtioBlock).unwrap();
    for (i, thread) in Thread::ALL.into_iter().enumerate() {
        let cached = thread == Thread::VirtioBlock;
        assert_eq!(cache.find(&action, thread).is_some(), cached);
        let before = summary.build_us;
        let lookup = precompile_next(&mut cache, &action, Instant::now(), &mut summary).unwrap();
        assert_eq!(lookup.cache_hit, cached);
        assert_eq!(cache.find(&action, thread), Some(lookup.program));
        assert_eq!(summary.filter_count, i + 1);
        assert_eq!(summary.build_us, before + lookup.build_us);
    }
    assert_eq!(summary.cache_hits, 1);
}

#[test]
fn lookups_count_from_before_the_wait_for_the_cache() {
    let mut cache = FilterCache::new(host());
    let action = SeccompAction::Trap;
    let started = Instant::now().checked_sub(Duration::from_millis(5)).unwrap();
    let thread = Thread::VirtioRng;
    let first = get_cached_seccomp_filter(&mut cache, &action, thread, started).unwrap();
    assert!(first.lookup_us >= 5_000);
    assert!(first.lookup_us >= first.build_us);
    let second = get_cached_seccomp_filter(&mut cache, &action, thread, started).unwrap();
    assert!(second.cache_hit);
    assert!(second.lookup_us >= 5_000);
}

#[test]
fn lookups_tell_how_their_program_was_come_by() {
    let program = Arc::new(vec![SockFilter { code: 6, jt: 0, jf: 0, k: 7 }]);
    let cached = FilterLookup::cached(program.clone(), 3_999);
    assert_eq!((cached.cache_hit, cached.build_us, cached.lookup_us), (true, 0, 3));
    assert!(Arc::ptr_eq(&cached.program, &program));
    let compiled = FilterLookup::compiled(program.clone(), 1_900, 4_100, 9_000);
    assert_eq!((compiled.cache_hit, compiled.build_us, compiled.lookup_us), (false, 2, 9));
    assert!(Arc::ptr_eq(&compiled.program, &program));
}

#[test]
fn stopwatches_never_go_back() {
    let started = Instant::now().checked_sub(Duration::from_millis(2)).unwrap();
    let mut watch = Stopwatch::since(started);
    let first = watch.read();
    assert!(first >= 2_000_000);
    assert!(watch.read() >= first);
}

#[test]
fn lookups_hit_exactly_if_repeated() {
    let mut cache = FilterCache::new(host());
    let keys = [
        (SeccompAction::Errno(1), Thread::VirtioRng),
        (SeccompAction::Errno(2), Thread::VirtioRng),
        (SeccompAction::Errno(1), Thread::VirtioRng),
        (SeccompAction::Allow, Thread::VirtioRng),
        (SeccompAction::Errno(1), Thread::VirtioRtc),
        (SeccompAction::Allow, Thread::VirtioRng),
        (SeccompAction::Errno(2), Thread::VirtioRng),
    ];
    let hits: Vec<bool> = keys
        .iter()
        .map(|(action, thread)| lookup(&mut cache, action, *thread).unwrap().cache_hit)
        .collect();
    assert_eq!(hits, vec![false, false, true, false, false, true, true]);
}

#[test]
fn nothing_is_filtered_when_every_call_is_let_through() {
    let mut cache = FilterCache::new(host());
    for thread in Thread::ALL {
        assert!(get_seccomp_filter(&mut cache, &SeccompAction::Allow, thread).unwrap().is_empty());
        assert!(!get_seccomp_filter(&mut cache, &SeccompAction::Log, thread).unwrap().is_empty());
    }
}

#[test]
fn programs_are_those_of_the_compiler() {
    let mut cache = FilterCache::new(host());
    for thread in Thread::ALL {
        assert_eq!(
            get_seccomp_filter(&mut cache, &SeccompAction::Trap, thread).unwrap(),
            expected_program(thread, seccompiler::SeccompAction::Trap)
        );
    }
}

#[test]
fn every_action_reaches_the_compiler() {
    let thread = Thread::VirtioVsock;
    let actions = [
        (SeccompAction::Errno(13), seccompiler::SeccompAction::Errno(13)),
        (SeccompAction::KillThread, seccompiler::SeccompAction::KillThread),
        (SeccompAction::KillProcess, seccompiler::SeccompAction::KillProcess),
        (SeccompAction::Log, seccompiler::SeccompAction::Log),
        (SeccompAction::Trace(5), seccompiler::SeccompAction::Trace(5)),
        (SeccompAction::Trap, seccompiler::SeccompAction::Trap),
    ];
    for (action, expected) in actions {
        assert_eq!(
            build_seccomp_filter(&action, thread, host()).unwrap(),
            expected_program(thread, expected)
        );
    }
}

#[test]
fn programs_check_for_the_target_architecture() {
    let audit = |arch| {
        let target = Target { arch, gnu: true, sev_snp: false };
        build_seccomp_filter(&SeccompAction::Trap, Thread::VirtioPmem, target).unwrap()[1].k
    };
    assert_eq!(audit(Arch::X86_64), 0xc000_003e);
    assert_eq!(audit(Arch::Aarch64), 0xc000_00b7);
    assert_eq!(audit(Arch::Riscv64), 0xc000_00f3);
}

#[test]
fn workers_have_the_rules_listed_for_them() {
    for thread in Thread::ALL {
        assert_eq!(plain(get_seccomp_rules(thread, host())), expected_calls(thread), "{thread:?}");
    }
}

#[test]
fn native_fs_rules_are_the_workers_own() {
    assert_eq!(plain(virtio_fs_thread_rules(host())), own_calls(Thread::VirtioFs));
    assert_eq!(virtio_fs_thread_rules(host()).len(), 71);
}

#[test]
fn native_fs_rules_depend_on_architecture_and_c_library() {
    let count = |arch, gnu| {
        virtio_fs_thread_rules(Target { arch, gnu, sev_snp: false }).len()
    };
    assert_eq!(count(Arch::X86_64, false), 70);
    assert_eq!(count(Arch::Aarch64, true), 67);
    assert_eq!(count(Arch::Riscv64, true), 66);
    assert_eq!(count(Arch::Riscv64, false), 65);
}

#[test]
fn vhost_net_worker_removes_sockets_as_its_architecture_does() {
    let calls = |arch| {
        let target = Target { arch, gnu: true, sev_snp: false };
        let rules = plain(get_seccomp_rules(Thread::VirtioVhostNet, target));
        (rules[13].0, rules.len())
    };
    assert_eq!(calls(Arch::X86_64), (libc::SYS_unlink, 14 + 23));
    assert_eq!(calls(Arch::Aarch64), (35, 14 + 22));
    assert_eq!(calls(Arch::Riscv64), (214, 13 + 22));
}

#[test]
fn sev_snp_guests_need_one_more_ioctl() {
    let target = Target { arch: Arch::X86_64, gnu: true, sev_snp: true };
    let request = mshv_ioctls::MSHV_MODIFY_GPA_HOST_ACCESS();
    let ioctl = |thread| {
        let rules = plain(get_seccomp_rules(thread, target));
        rules.into_iter().find(|rule| rule.0 == libc::SYS_ioctl).map(|rule| rule.1)
    };
    assert_eq!(request, 0x4010_b809);
    assert_eq!(ioctl(Thread::VirtioNet), Some(vec![(1, request)]));
    assert_eq!(ioctl(Thread::VirtioRng), Some(vec![(1, request)]));
    assert_eq!(ioctl(Thread::VirtioRtc), Some(vec![(1, request)]));
    assert_eq!(ioctl(Thread::VirtioBlock), Some(vec![(1, 0x1277), (1, 0x127f), (1, request)]));
    assert_eq!(
        ioctl(Thread::VirtioConsole),
        Some(vec![(1, libc::TIOCGWINSZ as u64), (1, request)])
    );
    assert_eq!(ioctl(Thread::VirtioVsock), Some(vec![(1, libc::FIONBIO as u64), (1, request)]));
    assert_eq!(
        ioctl(Thread::VirtioNetCtl),
        Some(vec![(1, libc::TUNSETOFFLOAD as u64), (1, request)])
    );
    assert_eq!(ioctl(Thread::VirtioIommu), Some(dma()));
    assert_eq!(ioctl(Thread::VirtioMem), Some(dma()));
    assert_eq!(ioctl(Thread::VirtioWatchdog), None);
}

#[test]
fn every_worker_may_make_the_common_calls() {
    for thread in Thread::ALL {
        let rules = plain(get_seccomp_rules(thread, host()));
        for (number, _) in common_calls() {
            let last = rules.iter().rev().find(|rule| rule.0 == number).unwrap();
            assert!(last.1.is_empty());
        }
    }
}

#[test]
fn sockets_and_ioctls_are_restricted_everywhere() {
    for thread in Thread::ALL {
        for (number, chain) in plain(get_seccomp_rules(thread, host())) {
            if number == libc::SYS_socket {
                assert_eq!(chain, vec![(0, 1)]);
            }
            if number == libc::SYS_ioctl {
                assert!(!chain.is_empty());
            }
        }
    }
}

#[test]
fn workers_go_by_their_names() {
    assert_eq!(Thread::VirtioFs.name(), "virtio-fs");
    assert_eq!(Thread::VirtioNetCtl.name(), "virtio-net-ctl");
    assert_eq!(Thread::VirtioGenericVhostUser.name(), "virtio-generic-vhost-user");
    assert_eq!(Thread::VirtioWatchdog.name(), "virtio-watchdog");
}
