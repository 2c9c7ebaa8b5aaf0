//! What each virtio worker may call, system call by system call and on every target.

#[allow(unused_imports)]
use crate::seccomp_filters::{worker_rules, Thread};
#[allow(unused_imports)]
use crate::seccomp_laws::law_allowed_exactly_if_listed;
#[allow(unused_imports)]
use crate::seccomp_rules::{
    allows, any_holds, block_ioctl_rules, common_table, conditional, dma_ioctl_rules, equals, holds,
    ioctl_rules, own_table, sev_snp_ioctl_rules, socket_rules, table, unconditional,
    SeccompRule, Target, BALLOON_CALLS, BLKDISCARD, BLKZEROOUT, BLOCK_CALLS_AFTER_IOCTL,
    BLOCK_CALLS_BEFORE_IOCTL, COMMON_CALLS_AFTER_EPOLL_WAIT, COMMON_CALLS_BEFORE_EPOLL_WAIT,
    CONSOLE_CALLS, FIONBIO, FS_CALLS_AFTER_RSEQ, FS_CALLS_BEFORE_RENAMEAT, FS_CALLS_BEFORE_RSEQ,
    FS_CALLS_X86_64, GENERIC_VHOST_USER_CALLS_AFTER_SOCKET, GENERIC_VHOST_USER_CALLS_BEFORE_SOCKET,
    MEM_CALLS_AFTER_IOCTL, MEM_CALLS_BEFORE_IOCTL, NET_CALLS, NET_CTL_CALLS, PMEM_CALLS, RNG_CALLS,
    RTC_CALLS, TIOCGWINSZ, TUNSETOFFLOAD, VHOST_BLOCK_CALLS_AFTER_SOCKET,
    VHOST_BLOCK_CALLS_BEFORE_SOCKET, VHOST_FS_CALLS_AFTER_SOCKET, VHOST_FS_CALLS_BEFORE_SOCKET,
    VHOST_NET_CALLS_AFTER_SOCKET, VHOST_NET_CALLS_BEFORE_SOCKET, VHOST_NET_CTL_CALLS,
    VSOCK_CALLS_AFTER_IOCTL, VSOCK_CALLS_BEFORE_IOCTL, WATCHDOG_CALLS,
};
#[allow(unused_imports)]
use crate::syscalls::{lemma_numbers_are_distinct, Arch, Syscall};
#[allow(unused_imports)]
use vstd::prelude::*;

verus! {

/// Whether a table lists a system call without rules, or with one that holds.
pub open spec fn lists(
    table: Seq<(Syscall, Seq<SeccompRule>)>,
    call: Syscall,
    args: Seq<u64>,
) -> bool {
    exists|i: int|
        0 <= i < table.len() && (#[trigger] table[i]).0 == call && any_holds(table[i].1, args)
}

proof fn lemma_lists_concatenation(
    a: Seq<(Syscall, Seq<SeccompRule>)>,
    b: Seq<(Syscall, Seq<SeccompRule>)>,
    call: Syscall,
    args: Seq<u64>,
)
    ensures
        lists(a + b, call, args) <==> lists(a, call, args) || lists(b, call, args),
{
    if lists(a + b, call, args) {
        let i = choose|i: int|
            0 <= i < (a + b).len() && (#[trigger] (a + b)[i]).0 == call && any_holds(
                (a + b)[i].1,
                args,
            );
        if i < a.len() {
            assert(a[i] == (a + b)[i]);
        } else {
            assert(b[i - a.len()] == (a + b)[i]);
        }
    }
    if lists(a, call, args) {
        let i = choose|i: int|
            0 <= i < a.len() && (#[trigger] a[i]).0 == call && any_holds(a[i].1, args);
        assert((a + b)[i] == a[i]);
    }
    if lists(b, call, args) {
        let i = choose|i: int|
            0 <= i < b.len() && (#[trigger] b[i]).0 == call && any_holds(b[i].1, args);
        assert((a + b)[a.len() + i] == b[i]);
    }
}

proof fn lemma_lists_unconditional(calls: Seq<Syscall>, call: Syscall, args: Seq<u64>)
    ensures
        lists(unconditional(calls), call, args) <==> calls.contains(call),
{
    let entries = unconditional(calls);
    if calls.contains(call) {
        let i = choose|i: int| 0 <= i < calls.len() && calls[i] == call;
        assert(entries[i].0 == call && any_holds(entries[i].1, args));
    }
    if lists(entries, call, args) {
        let i = choose|i: int|
            0 <= i < entries.len() && (#[trigger] entries[i]).0 == call && any_holds(
                entries[i].1,
                args,
            );
        assert(calls[i] == call);
    }
}

proof fn lemma_lists_conditional(
    call: Syscall,
    rules: Seq<SeccompRule>,
    other: Syscall,
    args: Seq<u64>,
)
    ensures
        lists(conditional(call, rules), other, args) <==> other == call && any_holds(rules, args),
{
    assert(conditional(call, rules)[0] == (call, rules));
}

proof fn lemma_contains_one(call: Syscall, other: Syscall)
    ensures
        seq![call].contains(other) <==> other == call,
{
    assert(seq![call][0] == call);
}

proof fn lemma_rule_holds(value: u64, arg_index: u8, args: Seq<u64>)
    ensures
        holds(equals(arg_index, value), args) <==> args[arg_index as int] % 0x1_0000_0000 == value
            % 0x1_0000_0000,
{
}

proof fn lemma_socket_rules_hold(args: Seq<u64>)
    ensures
        any_holds(socket_rules(), args) <==> args[0] % 0x1_0000_0000 == 1,
{
    assert(socket_rules()[0] == equals(0, 1));
}

/// When the rules for an `ioctl` hold.
proof fn lemma_ioctl_rules_hold(target: Target, args: Seq<u64>)
    ensures
        any_holds(sev_snp_ioctl_rules(), args) <==> args[1] % 0x1_0000_0000 == 0x4010_b809,
        any_holds(ioctl_rules(TIOCGWINSZ, target), args) <==> args[1] % 0x1_0000_0000 == 0x5413 || (
        target.sev_snp && args[1] % 0x1_0000_0000 == 0x4010_b809),
        any_holds(ioctl_rules(TUNSETOFFLOAD, target), args) <==> args[1] % 0x1_0000_0000
            == 0x4004_54d0 || (target.sev_snp && args[1] % 0x1_0000_0000 == 0x4010_b809),
        any_holds(ioctl_rules(FIONBIO, target), args) <==> args[1] % 0x1_0000_0000 == 0x5421 || (
        target.sev_snp && args[1] % 0x1_0000_0000 == 0x4010_b809),
        any_holds(block_ioctl_rules(target), args) <==> args[1] % 0x1_0000_0000 == 0x1277 || args[1]
            % 0x1_0000_0000 == 0x127f || (target.sev_snp && args[1] % 0x1_0000_0000
            == 0x4010_b809),
        any_holds(dma_ioctl_rules(), args) <==> args[1] % 0x1_0000_0000 == 0x3b71 || args[1]
            % 0x1_0000_0000 == 0x3b72 || args[1] % 0x1_0000_0000 == 0x3b85 || args[1]
            % 0x1_0000_0000 == 0x3b86,
{
    let snp = sev_snp_ioctl_rules();
    assert(snp[0] == equals(1, 0x4010_b809));
    lemma_one_or_two_rules(TIOCGWINSZ, target, args);
    lemma_one_or_two_rules(TUNSETOFFLOAD, target, args);
    lemma_one_or_two_rules(FIONBIO, target, args);
    let block = block_ioctl_rules(target);
    assert(block[0] == equals(1, 0x1277));
    assert(block[1] == equals(1, 0x127f));
    assert(target.sev_snp ==> block[2] == equals(1, 0x4010_b809));
    let dma = dma_ioctl_rules();
    assert(dma[0] == equals(1, 0x3b71));
    assert(dma[1] == equals(1, 0x3b72));
    assert(dma[2] == equals(1, 0x3b85));
    assert(dma[3] == equals(1, 0x3b86));
}

proof fn lemma_one_or_two_rules(request: u64, target: Target, args: Seq<u64>)
    ensures
        any_holds(ioctl_rules(request, target), args) <==> args[1] % 0x1_0000_0000 == request
            % 0x1_0000_0000 || (target.sev_snp && args[1] % 0x1_0000_0000 == 0x4010_b809),
{
    let rules = ioctl_rules(request, target);
    assert(rules[0] == equals(1, request));
    assert(target.sev_snp ==> rules[1] == equals(1, 0x4010_b809));
}

/// A worker may make a call exactly if its own table or the common one lists it.
proof fn lemma_worker_lists(
    thread: Thread,
    target: Target,
    call: Syscall,
    number: i64,
    args: Seq<u64>,
)
    requires
        call.spec_number(target.arch) == Some(number),
    ensures
        allows(worker_rules(thread, target), number, args) <==> lists(
            own_table(thread, target),
            call,
            args,
        ) || COMMON_CALLS_BEFORE_EPOLL_WAIT@.contains(call) || (target.arch == Arch::X86_64 && call
            == Syscall::EpollWait) || COMMON_CALLS_AFTER_EPOLL_WAIT@.contains(call),
{
    let calls = table(thread, target);
    law_allowed_exactly_if_listed(thread, target, number, args);
    assert forall|i: int|
        0 <= i < calls.len() && (#[trigger] calls[i]).0.spec_number(target.arch) == Some(
            number,
        ) implies calls[i].0 == call by {
        if calls[i].0 != call {
            lemma_numbers_are_distinct(calls[i].0, call, target.arch);
        }
    }
    assert(allows(worker_rules(thread, target), number, args) <==> lists(calls, call, args));
    lemma_lists_concatenation(own_table(thread, target), common_table(target), call, args);
    let a = unconditional(COMMON_CALLS_BEFORE_EPOLL_WAIT@);
    let b = crate::seccomp_rules::when(
        target.arch == Arch::X86_64,
        unconditional(seq![Syscall::EpollWait]),
    );
    let c = unconditional(COMMON_CALLS_AFTER_EPOLL_WAIT@);
    lemma_lists_unconditional(COMMON_CALLS_BEFORE_EPOLL_WAIT@, call, args);
    lemma_lists_unconditional(seq![Syscall::EpollWait], call, args);
    lemma_lists_unconditional(COMMON_CALLS_AFTER_EPOLL_WAIT@, call, args);
    lemma_contains_one(Syscall::EpollWait, call);
    lemma_lists_concatenation(a, b, call, args);
    lemma_lists_concatenation(a + b, c, call, args);
}

/// What the balloon worker may call, on every target and with any arguments.
pub proof fn law_balloon_worker_may_call(
    target: Target,
    call: Syscall,
    number: i64,
    args: Seq<u64>,
)
    requires
        call.spec_number(target.arch) == Some(number),
    ensures
        allows(worker_rules(Thread::VirtioBalloon, target), number, args) <==> {
            ||| BALLOON_CALLS@.contains(call)
            ||| COMMON_CALLS_BEFORE_EPOLL_WAIT@.contains(call)
            ||| target.arch == Arch::X86_64 && call == Syscall::EpollWait
            ||| COMMON_CALLS_AFTER_EPOLL_WAIT@.contains(call)
        },
{
    let a = unconditional(BALLOON_CALLS@);
    lemma_lists_unconditional(BALLOON_CALLS@, call, args);
    assert(own_table(Thread::VirtioBalloon, target) == a);
    lemma_worker_lists(Thread::VirtioBalloon, target, call, number, args);
}

/// What the block worker may call, on every target and with any arguments.
pub proof fn law_block_worker_may_call(
    target: Target,
    call: Syscall,
    number: i64,
    args: Seq<u64>,
)
    requires
        call.spec_number(target.arch) == Some(number),
    ensures
        allows(worker_rules(Thread::VirtioBlock, target), number, args) <==> {
            ||| BLOCK_CALLS_BEFORE_IOCTL@.contains(call)
            ||| call == Syscall::Ioctl && {
                ||| args[1] % 0x1_0000_0000 == 0x1277
                ||| args[1] % 0x1_0000_0000 == 0x127f
                ||| target.sev_snp && args[1] % 0x1_0000_0000 == 0x4010_b809
            }
            ||| BLOCK_CALLS_AFTER_IOCTL@.contains(call)
            ||| COMMON_CALLS_BEFORE_EPOLL_WAIT@.contains(call)
            ||| target.arch == Arch::X86_64 && call == Syscall::EpollWait
            ||| COMMON_CALLS_AFTER_EPOLL_WAIT@.contains(call)
        },
{
    let a = unconditional(BLOCK_CALLS_BEFORE_IOCTL@);
    let b = conditional(Syscall::Ioctl, block_ioctl_rules(target));
    let c = unconditional(BLOCK_CALLS_AFTER_IOCTL@);
    lemma_lists_unconditional(BLOCK_CALLS_BEFORE_IOCTL@, call, args);
    lemma_lists_conditional(Syscall::Ioctl, block_ioctl_rules(target), call, args);
    lemma_lists_unconditional(BLOCK_CALLS_AFTER_IOCTL@, call, args);
    lemma_lists_concatenation(a, b, call, args);
    lemma_lists_concatenation(a + b, c, call, args);
    lemma_ioctl_rules_hold(target, args);
    assert(own_table(Thread::VirtioBlock, target) == a + b + c);
    lemma_worker_lists(Thread::VirtioBlock, target, call, number, args);
}

/// What the console worker may call, on every target and with any arguments.
pub proof fn law_console_worker_may_call(
    target: Target,
    call: Syscall,
    number: i64,
    args: Seq<u64>,
)
    requires
        call.spec_number(target.arch) == Some(number),
    ensures
        allows(worker_rules(Thread::VirtioConsole, target), number, args) <==> {
            ||| call == Syscall::Ioctl && {
                ||| args[1] % 0x1_0000_0000 == 0x5413
                ||| target.sev_snp && args[1] % 0x1_0000_0000 == 0x4010_b809
            }
            ||| CONSOLE_CALLS@.contains(call)
            ||| COMMON_CALLS_BEFORE_EPOLL_WAIT@.contains(call)
            ||| target.arch == Arch::X86_64 && call == Syscall::EpollWait
            ||| COMMON_CALLS_AFTER_EPOLL_WAIT@.contains(call)
        },
{
    let a = conditional(Syscall::Ioctl, ioctl_rules(TIOCGWINSZ, target));
    let b = unconditional(CONSOLE_CALLS@);
    lemma_lists_conditional(Syscall::Ioctl, ioctl_rules(TIOCGWINSZ, target), call, args);
    lemma_lists_unconditional(CONSOLE_CALLS@, call, args);
    lemma_lists_concatenation(a, b, call, args);
    lemma_ioctl_rules_hold(target, args);
    assert(own_table(Thread::VirtioConsole, target) == a + b);
    lemma_worker_lists(Thread::VirtioConsole, target, call, number, args);
}

/// What the IOMMU worker may call, on every target and with any arguments.
pub proof fn law_iommu_worker_may_call(
    target: Target,
    call: Syscall,
    number: i64,
    args: Seq<u64>,
)
    requires
        call.spec_number(target.arch) == Some(number),
    ensures
        allows(worker_rules(Thread::VirtioIommu, target), number, args) <==> {
            ||| call == Syscall::Ioctl && {
                ||| args[1] % 0x1_0000_0000 == 0x3b71
                ||| args[1] % 0x1_0000_0000 == 0x3b72
                ||| args[1] % 0x1_0000_0000 == 0x3b85
                ||| args[1] % 0x1_0000_0000 == 0x3b86
            }
            ||| COMMON_CALLS_BEFORE_EPOLL_WAIT@.contains(call)
            ||| target.arch == Arch::X86_64 && call == Syscall::EpollWait
            ||| COMMON_CALLS_AFTER_EPOLL_WAIT@.contains(call)
        },
{
    let a = conditional(Syscall::Ioctl, dma_ioctl_rules());
    lemma_lists_conditional(Syscall::Ioctl, dma_ioctl_rules(), call, args);
    lemma_ioctl_rules_hold(target, args);
    assert(own_table(Thread::VirtioIommu, target) == a);
    lemma_worker_lists(Thread::VirtioIommu, target, call, number, args);
}

/// What the memory worker may call, on every target and with any arguments.
pub proof fn law_mem_worker_may_call(
    target: Target,
    call: Syscall,
    number: i64,
    args: Seq<u64>,
)
    requires
        call.spec_number(target.arch) == Some(number),
    ensures
        allows(worker_rules(Thread::VirtioMem, target), number, args) <==> {
            ||| MEM_CALLS_BEFORE_IOCTL@.contains(call)
            ||| call == Syscall::Ioctl && {
                ||| args[1] % 0x1_0000_0000 == 0x3b71
                ||| args[1] % 0x1_0000_0000 == 0x3b72
                ||| args[1] % 0x1_0000_0000 == 0x3b85
                ||| args[1] % 0x1_0000_0000 == 0x3b86
            }
            ||| MEM_CALLS_AFTER_IOCTL@.contains(call)
            ||| COMMON_CALLS_BEFORE_EPOLL_WAIT@.contains(call)
            ||| target.arch == Arch::X86_64 && call == Syscall::EpollWait
            ||| COMMON_CALLS_AFTER_EPOLL_WAIT@.contains(call)
        },
{
    let a = unconditional(MEM_CALLS_BEFORE_IOCTL@);
    let b = conditional(Syscall::Ioctl, dma_ioctl_rules());
    let c = unconditional(MEM_CALLS_AFTER_IOCTL@);
    lemma_lists_unconditional(MEM_CALLS_BEFORE_IOCTL@, call, args);
    lemma_lists_conditional(Syscall::Ioctl, dma_ioctl_rules(), call, args);
    lemma_lists_unconditional(MEM_CALLS_AFTER_IOCTL@, call, args);
    lemma_lists_concatenation(a, b, call, args);
    lemma_lists_concatenation(a + b, c, call, args);
    lemma_ioctl_rules_hold(target, args);
    assert(own_table(Thread::VirtioMem, target) == a + b + c);
    lemma_worker_lists(Thread::VirtioMem, target, call, number, args);
}

/// What the net queue worker may call, on every target and with any arguments.
pub proof fn law_net_worker_may_call(
    target: Target,
    call: Syscall,
    number: i64,
    args: Seq<u64>,
)
    requires
        call.spec_number(target.arch) == Some(number),
    ensures
        allows(worker_rules(Thread::VirtioNet, target), number, args) <==> {
            ||| call == Syscall::Ioctl && target.sev_snp && args[1] % 0x1_0000_0000 == 0x4010_b809
            ||| NET_CALLS@.contains(call)
            ||| COMMON_CALLS_BEFORE_EPOLL_WAIT@.contains(call)
            ||| target.arch == Arch::X86_64 && call == Syscall::EpollWait
            ||| COMMON_CALLS_AFTER_EPOLL_WAIT@.contains(call)
        },
{
    let a = crate::seccomp_rules::when(
        target.sev_snp,
        conditional(Syscall::Ioctl, sev_snp_ioctl_rules()),
    );
    let b = unconditional(NET_CALLS@);
    lemma_lists_conditional(Syscall::Ioctl, sev_snp_ioctl_rules(), call, args);
    lemma_lists_unconditional(NET_CALLS@, call, args);
    lemma_lists_concatenation(a, b, call, args);
    lemma_ioctl_rules_hold(target, args);
    assert(own_table(Thread::VirtioNet, target) == a + b);
    lemma_worker_lists(Thread::VirtioNet, target, call, number, args);
}

/// What the net control worker may call, on every target and with any arguments.
pub proof fn law_net_ctl_worker_may_call(
    target: Target,
    call: Syscall,
    number: i64,
    args: Seq<u64>,
)
    requires
        call.spec_number(target.arch) == Some(number),
    ensures
        allows(worker_rules(Thread::VirtioNetCtl, target), number, args) <==> {
            ||| call == Syscall::Ioctl && {
                ||| args[1] % 0x1_0000_0000 == 0x4004_54d0
                ||| target.sev_snp && args[1] % 0x1_0000_0000 == 0x4010_b809
            }
            ||| NET_CTL_CALLS@.contains(call)
            ||| COMMON_CALLS_BEFORE_EPOLL_WAIT@.contains(call)
            ||| target.arch == Arch::X86_64 && call == Syscall::EpollWait
            ||| COMMON_CALLS_AFTER_EPOLL_WAIT@.contains(call)
        },
{
    let a = conditional(Syscall::Ioctl, ioctl_rules(TUNSETOFFLOAD, target));
    let b = unconditional(NET_CTL_CALLS@);
    lemma_lists_conditional(Syscall::Ioctl, ioctl_rules(TUNSETOFFLOAD, target), call, args);
    lemma_lists_unconditional(NET_CTL_CALLS@, call, args);
    lemma_lists_concatenation(a, b, call, args);
    lemma_ioctl_rules_hold(target, args);
    assert(own_table(Thread::VirtioNetCtl, target) == a + b);
    lemma_worker_lists(Thread::VirtioNetCtl, target, call, number, args);
}

/// What the pmem worker may call, on every target and with any arguments.
pub proof fn law_pmem_worker_may_call(
    target: Target,
    call: Syscall,
    number: i64,
    args: Seq<u64>,
)
    requires
        call.spec_number(target.arch) == Some(number),
    ensures
        allows(worker_rules(Thread::VirtioPmem, target), number, args) <==> {
            ||| PMEM_CALLS@.contains(call)
            ||| COMMON_CALLS_BEFORE_EPOLL_WAIT@.contains(call)
            ||| target.arch == Arch::X86_64 && call == Syscall::EpollWait
            ||| COMMON_CALLS_AFTER_EPOLL_WAIT@.contains(call)
        },
{
    let a = unconditional(PMEM_CALLS@);
    lemma_lists_unconditional(PMEM_CALLS@, call, args);
    assert(own_table(Thread::VirtioPmem, target) == a);
    lemma_worker_lists(Thread::VirtioPmem, target, call, number, args);
}

/// What the entropy worker may call, on every target and with any arguments.
pub proof fn law_rng_worker_may_call(
    target: Target,
    call: Syscall,
    number: i64,
    args: Seq<u64>,
)
    requires
        call.spec_number(target.arch) == Some(number),
    ensures
        allows(worker_rules(Thread::VirtioRng, target), number, args) <==> {
            ||| RNG_CALLS@.contains(call)
            ||| call == Syscall::Ioctl && target.sev_snp && args[1] % 0x1_0000_0000 == 0x4010_b809
            ||| COMMON_CALLS_BEFORE_EPOLL_WAIT@.contains(call)
            ||| target.arch == Arch::X86_64 && call == Syscall::EpollWait
            ||| COMMON_CALLS_AFTER_EPOLL_WAIT@.contains(call)
        },
{
    let a = unconditional(RNG_CALLS@);
    let b = crate::seccomp_rules::when(
        target.sev_snp,
        conditional(Syscall::Ioctl, sev_snp_ioctl_rules()),
    );
    lemma_lists_unconditional(RNG_CALLS@, call, args);
    lemma_lists_conditional(Syscall::Ioctl, sev_snp_ioctl_rules(), call, args);
    lemma_lists_concatenation(a, b, call, args);
    lemma_ioctl_rules_hold(target, args);
    assert(own_table(Thread::VirtioRng, target) == a + b);
    lemma_worker_lists(Thread::VirtioRng, target, call, number, args);
}

/// What the RTC worker may call, on every target and with any arguments.
pub proof fn law_rtc_worker_may_call(
    target: Target,
    call: Syscall,
    number: i64,
    args: Seq<u64>,
)
    requires
        call.spec_number(target.arch) == Some(number),
    ensures
        allows(worker_rules(Thread::VirtioRtc, target), number, args) <==> {
            ||| RTC_CALLS@.contains(call)
            ||| call == Syscall::Ioctl && target.sev_snp && args[1] % 0x1_0000_0000 == 0x4010_b809
            ||| COMMON_CALLS_BEFORE_EPOLL_WAIT@.contains(call)
            ||| target.arch == Arch::X86_64 && call == Syscall::EpollWait
            ||| COMMON_CALLS_AFTER_EPOLL_WAIT@.contains(call)
        },
{
    let a = unconditional(RTC_CALLS@);
    let b = crate::seccomp_rules::when(
        target.sev_snp,
        conditional(Syscall::Ioctl, sev_snp_ioctl_rules()),
    );
    lemma_lists_unconditional(RTC_CALLS@, call, args);
    lemma_lists_conditional(Syscall::Ioctl, sev_snp_ioctl_rules(), call, args);
    lemma_lists_concatenation(a, b, call, args);
    lemma_ioctl_rules_hold(target, args);
    assert(own_table(Thread::VirtioRtc, target) == a + b);
    lemma_worker_lists(Thread::VirtioRtc, target, call, number, args);
}

/// What the native fs worker may call, on every target and with any arguments.
pub proof fn law_fs_worker_may_call(
    target: Target,
    call: Syscall,
    number: i64,
    args: Seq<u64>,
)
    requires
        call.spec_number(target.arch) == Some(number),
    ensures
        allows(worker_rules(Thread::VirtioFs, target), number, args) <==> {
            ||| FS_CALLS_BEFORE_RENAMEAT@.contains(call)
            ||| target.arch != Arch::Riscv64 && call == Syscall::Renameat
            ||| FS_CALLS_BEFORE_RSEQ@.contains(call)
            ||| target.gnu && call == Syscall::Rseq
            ||| FS_CALLS_AFTER_RSEQ@.contains(call)
            ||| target.arch == Arch::X86_64 && FS_CALLS_X86_64@.contains(call)
            ||| COMMON_CALLS_BEFORE_EPOLL_WAIT@.contains(call)
            ||| target.arch == Arch::X86_64 && call == Syscall::EpollWait
            ||| COMMON_CALLS_AFTER_EPOLL_WAIT@.contains(call)
        },
{
    let a = unconditional(FS_CALLS_BEFORE_RENAMEAT@);
    let b = crate::seccomp_rules::when(
        target.arch != Arch::Riscv64,
        unconditional(seq![Syscall::Renameat]),
    );
    let c = unconditional(FS_CALLS_BEFORE_RSEQ@);
    let d = crate::seccomp_rules::when(target.gnu, unconditional(seq![Syscall::Rseq]));
    let e = unconditional(FS_CALLS_AFTER_RSEQ@);
    let f = crate::seccomp_rules::when(
        target.arch == Arch::X86_64,
        unconditional(FS_CALLS_X86_64@),
    );
    lemma_lists_unconditional(FS_CALLS_BEFORE_RENAMEAT@, call, args);
    lemma_lists_unconditional(seq![Syscall::Renameat], call, args);
    lemma_contains_one(Syscall::Renameat, call);
    lemma_lists_unconditional(FS_CALLS_BEFORE_RSEQ@, call, args);
    lemma_lists_unconditional(seq![Syscall::Rseq], call, args);
    lemma_contains_one(Syscall::Rseq, call);
    lemma_lists_unconditional(FS_CALLS_AFTER_RSEQ@, call, args);
    lemma_lists_unconditional(FS_CALLS_X86_64@, call, args);
    lemma_lists_concatenation(a, b, call, args);
    lemma_lists_concatenation(a + b, c, call, args);
    lemma_lists_concatenation(a + b + c, d, call, args);
    lemma_lists_concatenation(a + b + c + d, e, call, args);
    lemma_lists_concatenation(a + b + c + d + e, f, call, args);
    assert(own_table(Thread::VirtioFs, target) == a + b + c + d + e + f);
    lemma_worker_lists(Thread::VirtioFs, target, call, number, args);
}

/// What the vhost-user block worker may call, on every target and with any arguments.
pub proof fn law_vhost_block_worker_may_call(
    target: Target,
    call: Syscall,
    number: i64,
    args: Seq<u64>,
)
    requires
        call.spec_number(target.arch) == Some(number),
    ensures
        allows(worker_rules(Thread::VirtioVhostBlock, target), number, args) <==> {
            ||| VHOST_BLOCK_CALLS_BEFORE_SOCKET@.contains(call)
            ||| call == Syscall::Socket && args[0] % 0x1_0000_0000 == 1
            ||| VHOST_BLOCK_CALLS_AFTER_SOCKET@.contains(call)
            ||| COMMON_CALLS_BEFORE_EPOLL_WAIT@.contains(call)
            ||| target.arch == Arch::X86_64 && call == Syscall::EpollWait
            ||| COMMON_CALLS_AFTER_EPOLL_WAIT@.contains(call)
        },
{
    let a = unconditional(VHOST_BLOCK_CALLS_BEFORE_SOCKET@);
    let b = conditional(Syscall::Socket, socket_rules());
    let c = unconditional(VHOST_BLOCK_CALLS_AFTER_SOCKET@);
    lemma_lists_unconditional(VHOST_BLOCK_CALLS_BEFORE_SOCKET@, call, args);
    lemma_lists_conditional(Syscall::Socket, socket_rules(), call, args);
    lemma_lists_unconditional(VHOST_BLOCK_CALLS_AFTER_SOCKET@, call, args);
    lemma_lists_concatenation(a, b, call, args);
    lemma_lists_concatenation(a + b, c, call, args);
    lemma_socket_rules_hold(args);
    assert(own_table(Thread::VirtioVhostBlock, target) == a + b + c);
    lemma_worker_lists(Thread::VirtioVhostBlock, target, call, number, args);
}

/// What the vhost-user fs worker may call, on every target and with any arguments.
pub proof fn law_vhost_fs_worker_may_call(
    target: Target,
    call: Syscall,
    number: i64,
    args: Seq<u64>,
)
    requires
        call.spec_number(target.arch) == Some(number),
    ensures
        allows(worker_rules(Thread::VirtioVhostFs, target), number, args) <==> {
            ||| VHOST_FS_CALLS_BEFORE_SOCKET@.contains(call)
            ||| call == Syscall::Socket && args[0] % 0x1_0000_0000 == 1
            ||| VHOST_FS_CALLS_AFTER_SOCKET@.contains(call)
            ||| COMMON_CALLS_BEFORE_EPOLL_WAIT@.contains(call)
            ||| target.arch == Arch::X86_64 && call == Syscall::EpollWait
            ||| COMMON_CALLS_AFTER_EPOLL_WAIT@.contains(call)
        },
{
    let a = unconditional(VHOST_FS_CALLS_BEFORE_SOCKET@);
    let b = conditional(Syscall::Socket, socket_rules());
    let c = unconditional(VHOST_FS_CALLS_AFTER_SOCKET@);
    lemma_lists_unconditional(VHOST_FS_CALLS_BEFORE_SOCKET@, call, args);
    lemma_lists_conditional(Syscall::Socket, socket_rules(), call, args);
    lemma_lists_unconditional(VHOST_FS_CALLS_AFTER_SOCKET@, call, args);
    lemma_lists_concatenation(a, b, call, args);
    lemma_lists_concatenation(a + b, c, call, args);
    lemma_socket_rules_hold(args);
    assert(own_table(Thread::VirtioVhostFs, target) == a + b + c);
    lemma_worker_lists(Thread::VirtioVhostFs, target, call, number, args);
}

/// What the generic vhost-user worker may call, on every target and with any arguments.
pub proof fn law_generic_vhost_user_worker_may_call(
    target: Target,
    call: Syscall,
    number: i64,
    args: Seq<u64>,
)
    requires
        call.spec_number(target.arch) == Some(number),
    ensures
        allows(worker_rules(Thread::VirtioGenericVhostUser, target), number, args) <==> {
            ||| GENERIC_VHOST_USER_CALLS_BEFORE_SOCKET@.contains(call)
            ||| call == Syscall::Socket && args[0] % 0x1_0000_0000 == 1
            ||| GENERIC_VHOST_USER_CALLS_AFTER_SOCKET@.contains(call)
            ||| COMMON_CALLS_BEFORE_EPOLL_WAIT@.contains(call)
            ||| target.arch == Arch::X86_64 && call == Syscall::EpollWait
            ||| COMMON_CALLS_AFTER_EPOLL_WAIT@.contains(call)
        },
{
    let a = unconditional(GENERIC_VHOST_USER_CALLS_BEFORE_SOCKET@);
    let b = conditional(Syscall::Socket, socket_rules());
    let c = unconditional(GENERIC_VHOST_USER_CALLS_AFTER_SOCKET@);
    lemma_lists_unconditional(GENERIC_VHOST_USER_CALLS_BEFORE_SOCKET@, call, args);
    lemma_lists_conditional(Syscall::Socket, socket_rules(), call, args);
    lemma_lists_unconditional(GENERIC_VHOST_USER_CALLS_AFTER_SOCKET@, call, args);
    lemma_lists_concatenation(a, b, call, args);
    lemma_lists_concatenation(a + b, c, call, args);
    lemma_socket_rules_hold(args);
    assert(own_table(Thread::VirtioGenericVhostUser, target) == a + b + c);
    lemma_worker_lists(Thread::VirtioGenericVhostUser, target, call, number, args);
}

/// What the vhost-user net worker may call, on every target and with any arguments.
pub proof fn law_vhost_net_worker_may_call(
    target: Target,
    call: Syscall,
    number: i64,
    args: Seq<u64>,
)
    requires
        call.spec_number(target.arch) == Some(number),
    ensures
        allows(worker_rules(Thread::VirtioVhostNet, target), number, args) <==> {
            ||| VHOST_NET_CALLS_BEFORE_SOCKET@.contains(call)
            ||| call == Syscall::Socket && args[0] % 0x1_0000_0000 == 1
            ||| VHOST_NET_CALLS_AFTER_SOCKET@.contains(call)
            ||| target.arch == Arch::X86_64 && call == Syscall::Unlink
            ||| target.arch == Arch::Aarch64 && call == Syscall::Unlinkat
            ||| COMMON_CALLS_BEFORE_EPOLL_WAIT@.contains(call)
            ||| target.arch == Arch::X86_64 && call == Syscall::EpollWait
            ||| COMMON_CALLS_AFTER_EPOLL_WAIT@.contains(call)
        },
{
    let a = unconditional(VHOST_NET_CALLS_BEFORE_SOCKET@);
    let b = conditional(Syscall::Socket, socket_rules());
    let c = unconditional(VHOST_NET_CALLS_AFTER_SOCKET@);
    let d = crate::seccomp_rules::when(
        target.arch == Arch::X86_64,
        unconditional(seq![Syscall::Unlink]),
    );
    let e = crate::seccomp_rules::when(
        target.arch == Arch::Aarch64,
        unconditional(seq![Syscall::Unlinkat]),
    );
    lemma_lists_unconditional(VHOST_NET_CALLS_BEFORE_SOCKET@, call, args);
    lemma_lists_conditional(Syscall::Socket, socket_rules(), call, args);
    lemma_lists_unconditional(VHOST_NET_CALLS_AFTER_SOCKET@, call, args);
    lemma_lists_unconditional(seq![Syscall::Unlink], call, args);
    lemma_contains_one(Syscall::Unlink, call);
    lemma_lists_unconditional(seq![Syscall::Unlinkat], call, args);
    lemma_contains_one(Syscall::Unlinkat, call);
    lemma_lists_concatenation(a, b, call, args);
    lemma_lists_concatenation(a + b, c, call, args);
    lemma_lists_concatenation(a + b + c, d, call, args);
    lemma_lists_concatenation(a + b + c + d, e, call, args);
    lemma_socket_rules_hold(args);
    assert(own_table(Thread::VirtioVhostNet, target) == a + b + c + d + e);
    lemma_worker_lists(Thread::VirtioVhostNet, target, call, number, args);
}

/// What the vhost-user net control worker may call, on every target and with any arguments.
pub proof fn law_vhost_net_ctl_worker_may_call(
    target: Target,
    call: Syscall,
    number: i64,
    args: Seq<u64>,
)
    requires
        call.spec_number(target.arch) == Some(number),
    ensures
        allows(worker_rules(Thread::VirtioVhostNetCtl, target), number, args) <==> {
            ||| VHOST_NET_CTL_CALLS@.contains(call)
            ||| COMMON_CALLS_BEFORE_EPOLL_WAIT@.contains(call)
            ||| target.arch == Arch::X86_64 && call == Syscall::EpollWait
            ||| COMMON_CALLS_AFTER_EPOLL_WAIT@.contains(call)
        },
{
    let a = unconditional(VHOST_NET_CTL_CALLS@);
    lemma_lists_unconditional(VHOST_NET_CTL_CALLS@, call, args);
    assert(own_table(Thread::VirtioVhostNetCtl, target) == a);
    lemma_worker_lists(Thread::VirtioVhostNetCtl, target, call, number, args);
}

/// What the vsock worker may call, on every target and with any arguments.
pub proof fn law_vsock_worker_may_call(
    target: Target,
    call: Syscall,
    number: i64,
    args: Seq<u64>,
)
    requires
        call.spec_number(target.arch) == Some(number),
    ensures
        allows(worker_rules(Thread::VirtioVsock, target), number, args) <==> {
            ||| VSOCK_CALLS_BEFORE_IOCTL@.contains(call)
            ||| call == Syscall::Ioctl && {
                ||| args[1] % 0x1_0000_0000 == 0x5421
                ||| target.sev_snp && args[1] % 0x1_0000_0000 == 0x4010_b809
            }
            ||| VSOCK_CALLS_AFTER_IOCTL@.contains(call)
            ||| call == Syscall::Socket && args[0] % 0x1_0000_0000 == 1
            ||| COMMON_CALLS_BEFORE_EPOLL_WAIT@.contains(call)
            ||| target.arch == Arch::X86_64 && call == Syscall::EpollWait
            ||| COMMON_CALLS_AFTER_EPOLL_WAIT@.contains(call)
        },
{
    let a = unconditional(VSOCK_CALLS_BEFORE_IOCTL@);
    let b = conditional(Syscall::Ioctl, ioctl_rules(FIONBIO, target));
    let c = unconditional(VSOCK_CALLS_AFTER_IOCTL@);
    let d = conditional(Syscall::Socket, socket_rules());
    lemma_lists_unconditional(VSOCK_CALLS_BEFORE_IOCTL@, call, args);
    lemma_lists_conditional(Syscall::Ioctl, ioctl_rules(FIONBIO, target), call, args);
    lemma_lists_unconditional(VSOCK_CALLS_AFTER_IOCTL@, call, args);
    lemma_lists_conditional(Syscall::Socket, socket_rules(), call, args);
    lemma_lists_concatenation(a, b, call, args);
    lemma_lists_concatenation(a + b, c, call, args);
    lemma_lists_concatenation(a + b + c, d, call, args);
    lemma_ioctl_rules_hold(target, args);
    lemma_socket_rules_hold(args);
    assert(own_table(Thread::VirtioVsock, target) == a + b + c + d);
    lemma_worker_lists(Thread::VirtioVsock, target, call, number, args);
}

/// What the watchdog worker may call, on every target and with any arguments.
pub proof fn law_watchdog_worker_may_call(
    target: Target,
    call: Syscall,
    number: i64,
    args: Seq<u64>,
)
    requires
        call.spec_number(target.arch) == Some(number),
    ensures
        allows(worker_rules(Thread::VirtioWatchdog, target), number, args) <==> {
            ||| WATCHDOG_CALLS@.contains(call)
            ||| COMMON_CALLS_BEFORE_EPOLL_WAIT@.contains(call)
            ||| target.arch == Arch::X86_64 && call == Syscall::EpollWait
            ||| COMMON_CALLS_AFTER_EPOLL_WAIT@.contains(call)
        },
{
    let a = unconditional(WATCHDOG_CALLS@);
    lemma_lists_unconditional(WATCHDOG_CALLS@, call, args);
    assert(own_table(Thread::VirtioWatchdog, target) == a);
    lemma_worker_lists(Thread::VirtioWatchdog, target, call, number, args);
}

} // verus!
