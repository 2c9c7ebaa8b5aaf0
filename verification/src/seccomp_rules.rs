//! The system calls that each virtio worker may make, and on what condition.
//!
//! A worker's table lists its own system calls first and those that every worker makes last. A
//! system call with no rules is allowed whatever its arguments; one with rules is allowed when
//! at least one of them holds.

use crate::seccomp_filters::Thread;
use crate::syscalls::{Arch, Syscall};
#[allow(unused_imports)]
use vstd::prelude::*;

verus! {

/// What a VMM is built for, as far as its workers' system calls depend on it.
#[derive(Clone, Copy, Debug, PartialEq, Eq, Structural)]
pub struct Target {
    /// The architecture that the VMM runs on.
    pub arch: Arch,
    /// Whether the C library is the GNU one.
    pub gnu: bool,
    /// Whether guests may run under SEV-SNP.
    pub sev_snp: bool,
}

/// How much of an argument a rule looks at.
#[derive(Clone, Copy, Debug, PartialEq, Eq, Structural)]
pub enum ArgLen {
    /// The low 32 bits.
    Dword,
    /// All 64 bits.
    Qword,
}

/// How a rule compares an argument with its value.
#[derive(Clone, Copy, Debug, PartialEq, Eq, Structural)]
pub enum Operator {
    Eq,
    Ge,
    Gt,
    Le,
    Lt,
    /// Equal in the bits of the mask.
    MaskedEq(u64),
    Ne,
}

/// A rule of one condition, on the argument numbered `arg_index` of a system call.
#[derive(Clone, Copy, Debug, PartialEq, Eq, Structural)]
pub struct SeccompRule {
    pub arg_index: u8,
    pub arg_len: ArgLen,
    pub operator: Operator,
    pub value: u64,
}

// See include/uapi/linux/vfio.h in the kernel code.
pub const VFIO_IOMMU_MAP_DMA: u64 = 0x3b71;

pub const VFIO_IOMMU_UNMAP_DMA: u64 = 0x3b72;

// See include/uapi/linux/iommufd.h in the kernel code.
pub const IOMMU_IOAS_MAP: u64 = 0x3b85;

pub const IOMMU_IOAS_UNMAP: u64 = 0x3b86;

// See include/uapi/linux/fs.h in the kernel code.
pub const BLKDISCARD: u64 = 0x1277;

pub const BLKZEROOUT: u64 = 0x127f;

// See include/uapi/asm-generic/ioctls.h in the kernel code.
pub const TIOCGWINSZ: u64 = 0x5413;

pub const FIONBIO: u64 = 0x5421;

// See include/uapi/linux/if_tun.h in the kernel code.
pub const TUNSETOFFLOAD: u64 = 0x4004_54d0;

// See include/linux/socket.h in the kernel code.
pub const AF_UNIX: u64 = 1;

// See include/uapi/linux/mshv.h in the kernel code.
pub const MSHV_MODIFY_GPA_HOST_ACCESS: u64 = 0x4010_b809;

/// `mshv_ioctls::MSHV_MODIFY_GPA_HOST_ACCESS` gives the number of the `ioctl` that changes who
/// may access guest pages: a write of a 16-byte argument, number 9 of the type 0xb8.
pub assume_specification[ mshv_ioctls::MSHV_MODIFY_GPA_HOST_ACCESS ]() -> (number: u64)
    ensures
        number == MSHV_MODIFY_GPA_HOST_ACCESS,
;

/// What the balloon worker calls.
pub const BALLOON_CALLS: [Syscall; 1] = [
    Syscall::Fallocate,
];

/// What the block worker calls, up to its `ioctl`s.
pub const BLOCK_CALLS_BEFORE_IOCTL: [Syscall; 7] = [
    Syscall::Fallocate,
    Syscall::Fcntl,
    Syscall::Fdatasync,
    Syscall::Fstat,
    Syscall::Fsync,
    Syscall::Ftruncate,
    Syscall::Getrandom,
];

/// What the block worker calls, past its `ioctl`s.
pub const BLOCK_CALLS_AFTER_IOCTL: [Syscall; 15] = [
    Syscall::IoDestroy,
    Syscall::IoGetevents,
    Syscall::IoSubmit,
    Syscall::IoUringEnter,
    Syscall::Lseek,
    Syscall::Newfstatat,
    Syscall::Pread64,
    Syscall::Preadv,
    Syscall::Pwritev,
    Syscall::Pwrite64,
    Syscall::SchedGetaffinity,
    Syscall::SchedSetaffinity,
    Syscall::SetRobustList,
    Syscall::Statx,
    Syscall::TimerfdSettime,
];

/// What the console worker calls besides its `ioctl`s.
pub const CONSOLE_CALLS: [Syscall; 2] = [
    Syscall::SchedGetaffinity,
    Syscall::SetRobustList,
];

/// What the memory worker calls, up to its `ioctl`s.
pub const MEM_CALLS_BEFORE_IOCTL: [Syscall; 1] = [
    Syscall::Fallocate,
];

/// What the memory worker calls, past its `ioctl`s.
pub const MEM_CALLS_AFTER_IOCTL: [Syscall; 2] = [
    Syscall::Recvfrom,
    Syscall::Sendmsg,
];

/// What a net queue worker calls besides its `ioctl`s.
pub const NET_CALLS: [Syscall; 3] = [
    Syscall::Readv,
    Syscall::TimerfdSettime,
    Syscall::Writev,
];

/// What the net control worker calls besides its `ioctl`s.
pub const NET_CTL_CALLS: [Syscall; 1] = [
    Syscall::TimerfdSettime,
];

/// What the pmem worker calls.
pub const PMEM_CALLS: [Syscall; 1] = [
    Syscall::Fsync,
];

/// What the entropy worker calls besides its `ioctl`s.
pub const RNG_CALLS: [Syscall; 2] = [
    Syscall::SchedGetaffinity,
    Syscall::SetRobustList,
];

/// What the RTC worker calls besides its `ioctl`s.
pub const RTC_CALLS: [Syscall; 2] = [
    Syscall::SchedGetaffinity,
    Syscall::SetRobustList,
];

/// What the vhost-user fs worker calls, up to `socket`.
pub const VHOST_FS_CALLS_BEFORE_SOCKET: [Syscall; 8] = [
    Syscall::ClockNanosleep,
    Syscall::Connect,
    Syscall::Nanosleep,
    Syscall::Pread64,
    Syscall::Pwrite64,
    Syscall::Recvmsg,
    Syscall::Sendmsg,
    Syscall::Sendto,
];

/// What the vhost-user fs worker calls, past `socket`.
pub const VHOST_FS_CALLS_AFTER_SOCKET: [Syscall; 2] = [
    Syscall::TimerfdCreate,
    Syscall::TimerfdSettime,
];

/// What a native fs worker calls, up to `renameat`.
pub const FS_CALLS_BEFORE_RENAMEAT: [Syscall; 44] = [
    Syscall::Capget,
    Syscall::Capset,
    Syscall::CopyFileRange,
    Syscall::Fallocate,
    Syscall::Fchdir,
    Syscall::Fchmod,
    Syscall::Fchmodat,
    Syscall::Fchownat,
    Syscall::Fdatasync,
    Syscall::Fgetxattr,
    Syscall::Flistxattr,
    Syscall::Flock,
    Syscall::Fremovexattr,
    Syscall::Fsetxattr,
    Syscall::Fstat,
    Syscall::Fstatfs,
    Syscall::Fsync,
    Syscall::Ftruncate,
    Syscall::Getdents64,
    Syscall::Getegid,
    Syscall::Geteuid,
    Syscall::Getpid,
    Syscall::Getrandom,
    Syscall::Gettimeofday,
    Syscall::Getxattr,
    Syscall::Linkat,
    Syscall::Listxattr,
    Syscall::Lseek,
    Syscall::Membarrier,
    Syscall::Mkdirat,
    Syscall::Mknodat,
    Syscall::NameToHandleAt,
    Syscall::Newfstatat,
    Syscall::Openat2,
    Syscall::OpenByHandleAt,
    Syscall::Prctl,
    Syscall::Pread64,
    Syscall::Preadv,
    Syscall::Preadv2,
    Syscall::Pwrite64,
    Syscall::Pwritev,
    Syscall::Pwritev2,
    Syscall::Readlinkat,
    Syscall::Readv,
];

/// What a native fs worker calls between `renameat` and `rseq`.
pub const FS_CALLS_BEFORE_RSEQ: [Syscall; 2] = [
    Syscall::Renameat2,
    Syscall::Removexattr,
];

/// What a native fs worker calls, past `rseq`.
pub const FS_CALLS_AFTER_RSEQ: [Syscall; 19] = [
    Syscall::RtSigaction,
    Syscall::SchedGetaffinity,
    Syscall::SchedYield,
    Syscall::Sendmsg,
    Syscall::SetRobustList,
    Syscall::Setgroups,
    Syscall::Setresgid,
    Syscall::Setresuid,
    Syscall::Setxattr,
    Syscall::Statx,
    Syscall::Symlinkat,
    Syscall::Syncfs,
    Syscall::Tgkill,
    Syscall::Tkill,
    Syscall::Umask,
    Syscall::Unlinkat,
    Syscall::Unshare,
    Syscall::Utimensat,
    Syscall::Writev,
];

/// What a native fs worker calls on x86-64 alone.
pub const FS_CALLS_X86_64: [Syscall; 4] = [
    Syscall::Getdents,
    Syscall::Open,
    Syscall::Time,
    Syscall::Unlink,
];

/// What a generic vhost-user worker calls, up to `socket`.
pub const GENERIC_VHOST_USER_CALLS_BEFORE_SOCKET: [Syscall; 8] = [
    Syscall::ClockNanosleep,
    Syscall::Connect,
    Syscall::Nanosleep,
    Syscall::Pread64,
    Syscall::Pwrite64,
    Syscall::Recvmsg,
    Syscall::Sendmsg,
    Syscall::Sendto,
];

/// What a generic vhost-user worker calls, past `socket`.
pub const GENERIC_VHOST_USER_CALLS_AFTER_SOCKET: [Syscall; 2] = [
    Syscall::TimerfdCreate,
    Syscall::TimerfdSettime,
];

/// What the vhost-user net control worker calls.
pub const VHOST_NET_CTL_CALLS: [Syscall; 1] = [
    Syscall::TimerfdSettime,
];

/// What the vhost-user net worker calls, up to `socket`.
pub const VHOST_NET_CALLS_BEFORE_SOCKET: [Syscall; 10] = [
    Syscall::Accept4,
    Syscall::Bind,
    Syscall::ClockNanosleep,
    Syscall::Connect,
    Syscall::Getcwd,
    Syscall::Listen,
    Syscall::Nanosleep,
    Syscall::Recvmsg,
    Syscall::Sendmsg,
    Syscall::Sendto,
];

/// What the vhost-user net worker calls, past `socket`.
pub const VHOST_NET_CALLS_AFTER_SOCKET: [Syscall; 2] = [
    Syscall::TimerfdCreate,
    Syscall::TimerfdSettime,
];

/// What the vhost-user block worker calls, up to `socket`.
pub const VHOST_BLOCK_CALLS_BEFORE_SOCKET: [Syscall; 5] = [
    Syscall::ClockNanosleep,
    Syscall::Connect,
    Syscall::Nanosleep,
    Syscall::Recvmsg,
    Syscall::Sendmsg,
];

/// What the vhost-user block worker calls, past `socket`.
pub const VHOST_BLOCK_CALLS_AFTER_SOCKET: [Syscall; 2] = [
    Syscall::TimerfdCreate,
    Syscall::TimerfdSettime,
];

/// What the vsock worker calls, up to its `ioctl`s.
pub const VSOCK_CALLS_BEFORE_IOCTL: [Syscall; 3] = [
    Syscall::Accept4,
    Syscall::Connect,
    Syscall::Fcntl,
];

/// What the vsock worker calls between its `ioctl`s and `socket`.
pub const VSOCK_CALLS_AFTER_IOCTL: [Syscall; 3] = [
    Syscall::Recvfrom,
    Syscall::Sendto,
    Syscall::Shutdown,
];

/// What the watchdog worker calls.
pub const WATCHDOG_CALLS: [Syscall; 3] = [
    Syscall::SchedGetaffinity,
    Syscall::SetRobustList,
    Syscall::TimerfdSettime,
];

/// What every worker calls, up to `epoll_wait`.
pub const COMMON_CALLS_BEFORE_EPOLL_WAIT: [Syscall; 7] = [
    Syscall::Brk,
    Syscall::ClockGettime,
    Syscall::Close,
    Syscall::Dup,
    Syscall::EpollCreate1,
    Syscall::EpollCtl,
    Syscall::EpollPwait,
];

/// What every worker calls, past `epoll_wait`.
pub const COMMON_CALLS_AFTER_EPOLL_WAIT: [Syscall; 15] = [
    Syscall::Exit,
    Syscall::Fcntl,
    Syscall::Futex,
    Syscall::Gettid,
    Syscall::Madvise,
    Syscall::Mmap,
    Syscall::Mprotect,
    Syscall::Mremap,
    Syscall::Munmap,
    Syscall::Openat,
    Syscall::Read,
    Syscall::RtSigprocmask,
    Syscall::RtSigreturn,
    Syscall::Sigaltstack,
    Syscall::Write,
];

/// A table of system calls that are allowed whatever their arguments.
pub open spec fn unconditional(calls: Seq<Syscall>) -> Seq<(Syscall, Seq<SeccompRule>)> {
    calls.map_values(|call: Syscall| (call, Seq::<SeccompRule>::empty()))
}

/// A table of one system call that is allowed when one of `rules` holds.
pub open spec fn conditional(call: Syscall, rules: Seq<SeccompRule>) -> Seq<
    (Syscall, Seq<SeccompRule>),
> {
    seq![(call, rules)]
}

/// `table` where `condition` holds, and nothing elsewhere.
pub open spec fn when(condition: bool, table: Seq<(Syscall, Seq<SeccompRule>)>) -> Seq<
    (Syscall, Seq<SeccompRule>),
> {
    if condition {
        table
    } else {
        Seq::empty()
    }
}

/// `table` with every system call replaced by its number on `arch`.
pub open spec fn numbered(table: Seq<(Syscall, Seq<SeccompRule>)>, arch: Arch) -> Seq<
    (i64, Seq<SeccompRule>),
> {
    table.map_values(
        |entry: (Syscall, Seq<SeccompRule>)| (entry.0.spec_number(arch)->0, entry.1),
    )
}

/// What a list of numbers and rules holds.
pub open spec fn entries(rules: Seq<(i64, Vec<SeccompRule>)>) -> Seq<(i64, Seq<SeccompRule>)> {
    rules.map_values(|entry: (i64, Vec<SeccompRule>)| (entry.0, entry.1@))
}

/// The part of an argument that a rule looks at.
pub open spec fn compared(value: u64, arg_len: ArgLen) -> u64 {
    match arg_len {
        ArgLen::Dword => (value % 0x1_0000_0000) as u64,
        ArgLen::Qword => value,
    }
}

/// Whether a rule holds of the arguments of a system call.
pub open spec fn holds(rule: SeccompRule, args: Seq<u64>) -> bool {
    let arg = compared(args[rule.arg_index as int], rule.arg_len);
    let value = compared(rule.value, rule.arg_len);
    match rule.operator {
        Operator::Eq => arg == value,
        Operator::Ge => arg >= value,
        Operator::Gt => arg > value,
        Operator::Le => arg <= value,
        Operator::Lt => arg < value,
        Operator::MaskedEq(mask) => arg & mask == value & mask,
        Operator::Ne => arg != value,
    }
}

/// Whether at least one of the rules holds, or there are none.
pub open spec fn any_holds(rules: Seq<SeccompRule>, args: Seq<u64>) -> bool {
    rules.len() == 0 || exists|i: int| 0 <= i < rules.len() && holds(#[trigger] rules[i], args)
}

/// Whether rules allow a system call with the given arguments: one without rules always, and one
/// with rules when at least one of them holds.
pub open spec fn allows(
    rules: Map<i64, Seq<SeccompRule>>,
    number: i64,
    args: Seq<u64>,
) -> bool {
    rules.contains_key(number) && any_holds(rules[number], args)
}

/// The rule that holds when the low 32 bits of the argument numbered `arg_index` are those of
/// `value`.
pub open spec fn equals(arg_index: u8, value: u64) -> SeccompRule {
    SeccompRule { arg_index, arg_len: ArgLen::Dword, operator: Operator::Eq, value }
}

/// The rules that a build for SEV-SNP guests adds to an `ioctl`.
pub open spec fn sev_snp_ioctl_rules() -> Seq<SeccompRule> {
    seq![equals(1, MSHV_MODIFY_GPA_HOST_ACCESS)]
}

/// The rules for an `ioctl` that has the number `request`.
pub open spec fn ioctl_rules(request: u64, target: Target) -> Seq<SeccompRule> {
    if target.sev_snp {
        seq![equals(1, request)] + sev_snp_ioctl_rules()
    } else {
        seq![equals(1, request)]
    }
}

/// The rules for the block worker's `ioctl`s.
pub open spec fn block_ioctl_rules(target: Target) -> Seq<SeccompRule> {
    seq![equals(1, BLKDISCARD)] + ioctl_rules(BLKZEROOUT, target)
}

/// The rules for the `ioctl`s that map memory for devices and unmap it.
pub open spec fn dma_ioctl_rules() -> Seq<SeccompRule> {
    seq![
        equals(1, VFIO_IOMMU_MAP_DMA),
        equals(1, VFIO_IOMMU_UNMAP_DMA),
        equals(1, IOMMU_IOAS_MAP),
        equals(1, IOMMU_IOAS_UNMAP),
    ]
}

/// The rules for `socket`.
pub open spec fn socket_rules() -> Seq<SeccompRule> {
    seq![equals(0, AF_UNIX)]
}

/// What a native fs worker calls besides what every worker calls.
pub open spec fn fs_table(target: Target) -> Seq<(Syscall, Seq<SeccompRule>)> {
    unconditional(FS_CALLS_BEFORE_RENAMEAT@) + when(
        target.arch != Arch::Riscv64,
        unconditional(seq![Syscall::Renameat]),
    ) + unconditional(FS_CALLS_BEFORE_RSEQ@) + when(
        target.gnu,
        unconditional(seq![Syscall::Rseq]),
    ) + unconditional(FS_CALLS_AFTER_RSEQ@) + when(
        target.arch == Arch::X86_64,
        unconditional(FS_CALLS_X86_64@),
    )
}

/// What the vhost-user net worker calls besides what every worker calls.
pub open spec fn vhost_net_table(target: Target) -> Seq<(Syscall, Seq<SeccompRule>)> {
    unconditional(VHOST_NET_CALLS_BEFORE_SOCKET@) + conditional(Syscall::Socket, socket_rules())
        + unconditional(VHOST_NET_CALLS_AFTER_SOCKET@) + when(
        target.arch == Arch::X86_64,
        unconditional(seq![Syscall::Unlink]),
    ) + when(target.arch == Arch::Aarch64, unconditional(seq![Syscall::Unlinkat]))
}

/// What a worker calls besides what every worker calls.
pub open spec fn own_table(thread: Thread, target: Target) -> Seq<(Syscall, Seq<SeccompRule>)> {
    match thread {
        Thread::VirtioBalloon => unconditional(BALLOON_CALLS@),
        Thread::VirtioBlock => unconditional(BLOCK_CALLS_BEFORE_IOCTL@) + conditional(
            Syscall::Ioctl,
            block_ioctl_rules(target),
        ) + unconditional(BLOCK_CALLS_AFTER_IOCTL@),
        Thread::VirtioConsole => conditional(Syscall::Ioctl, ioctl_rules(TIOCGWINSZ, target))
            + unconditional(CONSOLE_CALLS@),
        Thread::VirtioIommu => conditional(Syscall::Ioctl, dma_ioctl_rules()),
        Thread::VirtioMem => unconditional(MEM_CALLS_BEFORE_IOCTL@) + conditional(
            Syscall::Ioctl,
            dma_ioctl_rules(),
        ) + unconditional(MEM_CALLS_AFTER_IOCTL@),
        Thread::VirtioNet => when(
            target.sev_snp,
            conditional(Syscall::Ioctl, sev_snp_ioctl_rules()),
        ) + unconditional(NET_CALLS@),
        Thread::VirtioNetCtl => conditional(Syscall::Ioctl, ioctl_rules(TUNSETOFFLOAD, target))
            + unconditional(NET_CTL_CALLS@),
        Thread::VirtioPmem => unconditional(PMEM_CALLS@),
        Thread::VirtioRng => unconditional(RNG_CALLS@) + when(
            target.sev_snp,
            conditional(Syscall::Ioctl, sev_snp_ioctl_rules()),
        ),
        Thread::VirtioRtc => unconditional(RTC_CALLS@) + when(
            target.sev_snp,
            conditional(Syscall::Ioctl, sev_snp_ioctl_rules()),
        ),
        Thread::VirtioFs => fs_table(target),
        Thread::VirtioVhostBlock => unconditional(VHOST_BLOCK_CALLS_BEFORE_SOCKET@) + conditional(
            Syscall::Socket,
            socket_rules(),
        ) + unconditional(VHOST_BLOCK_CALLS_AFTER_SOCKET@),
        Thread::VirtioVhostFs => unconditional(VHOST_FS_CALLS_BEFORE_SOCKET@) + conditional(
            Syscall::Socket,
            socket_rules(),
        ) + unconditional(VHOST_FS_CALLS_AFTER_SOCKET@),
        Thread::VirtioGenericVhostUser => unconditional(GENERIC_VHOST_USER_CALLS_BEFORE_SOCKET@)
            + conditional(Syscall::Socket, socket_rules()) + unconditional(
            GENERIC_VHOST_USER_CALLS_AFTER_SOCKET@,
        ),
        Thread::VirtioVhostNet => vhost_net_table(target),
        Thread::VirtioVhostNetCtl => unconditional(VHOST_NET_CTL_CALLS@),
        Thread::VirtioVsock => unconditional(VSOCK_CALLS_BEFORE_IOCTL@) + conditional(
            Syscall::Ioctl,
            ioctl_rules(FIONBIO, target),
        ) + unconditional(VSOCK_CALLS_AFTER_IOCTL@) + conditional(Syscall::Socket, socket_rules()),
        Thread::VirtioWatchdog => unconditional(WATCHDOG_CALLS@),
    }
}

/// What every worker calls.
pub open spec fn common_table(target: Target) -> Seq<(Syscall, Seq<SeccompRule>)> {
    unconditional(COMMON_CALLS_BEFORE_EPOLL_WAIT@) + when(
        target.arch == Arch::X86_64,
        unconditional(seq![Syscall::EpollWait]),
    ) + unconditional(COMMON_CALLS_AFTER_EPOLL_WAIT@)
}

/// Everything that a worker calls, its own system calls first.
pub open spec fn table(thread: Thread, target: Target) -> Seq<(Syscall, Seq<SeccompRule>)> {
    own_table(thread, target) + common_table(target)
}

/// The rules of a worker for `ioctl`, if it makes any.
pub open spec fn ioctls_of(thread: Thread, target: Target) -> Seq<SeccompRule> {
    match thread {
        Thread::VirtioBlock => block_ioctl_rules(target),
        Thread::VirtioConsole => ioctl_rules(TIOCGWINSZ, target),
        Thread::VirtioIommu => dma_ioctl_rules(),
        Thread::VirtioMem => dma_ioctl_rules(),
        Thread::VirtioNet => sev_snp_ioctl_rules(),
        Thread::VirtioNetCtl => ioctl_rules(TUNSETOFFLOAD, target),
        Thread::VirtioRng => sev_snp_ioctl_rules(),
        Thread::VirtioRtc => sev_snp_ioctl_rules(),
        Thread::VirtioVsock => ioctl_rules(FIONBIO, target),
        _ => Seq::empty(),
    }
}

/// Whether a system call exists on `arch`, and has the rules that every `socket` has if it is
/// `socket`, those of `ioctls` if it is `ioctl`, and none if it is any other.
pub open spec fn entry_is_sound(
    entry: (Syscall, Seq<SeccompRule>),
    arch: Arch,
    ioctls: Seq<SeccompRule>,
) -> bool {
    &&& entry.0.spec_number(arch) is Some
    &&& match entry.0 {
        Syscall::Socket => entry.1 == socket_rules(),
        Syscall::Ioctl => entry.1 == ioctls && ioctls.len() > 0,
        _ => entry.1 == Seq::<SeccompRule>::empty(),
    }
}

/// Whether every entry of a table is sound.
pub open spec fn is_sound(
    table: Seq<(Syscall, Seq<SeccompRule>)>,
    arch: Arch,
    ioctls: Seq<SeccompRule>,
) -> bool {
    forall|i: int| 0 <= i < table.len() ==> entry_is_sound(#[trigger] table[i], arch, ioctls)
}

/// Whether there are at most four rules, each on the low 32 bits of an argument that is the second
/// one, and equal to some value.
pub open spec fn are_ioctl_rules(rules: Seq<SeccompRule>) -> bool {
    &&& rules.len() <= 4
    &&& forall|j: int|
        0 <= j < rules.len() ==> #[trigger] rules[j] == equals(1, rules[j].value)
}

proof fn lemma_ioctls_are_ioctl_rules(thread: Thread, target: Target)
    ensures
        are_ioctl_rules(ioctls_of(thread, target)),
{
}

proof fn lemma_unconditional_is_sound(calls: Seq<Syscall>, arch: Arch, ioctls: Seq<SeccompRule>)
    requires
        forall|i: int|
            0 <= i < calls.len() ==> (#[trigger] calls[i]).spec_number(arch) is Some && calls[i]
                != Syscall::Socket && calls[i] != Syscall::Ioctl,
    ensures
        is_sound(unconditional(calls), arch, ioctls),
        unconditional(calls).len() == calls.len(),
{
}

proof fn lemma_concatenation_is_sound(
    a: Seq<(Syscall, Seq<SeccompRule>)>,
    b: Seq<(Syscall, Seq<SeccompRule>)>,
    arch: Arch,
    ioctls: Seq<SeccompRule>,
)
    requires
        is_sound(a, arch, ioctls),
        is_sound(b, arch, ioctls),
    ensures
        is_sound(a + b, arch, ioctls),
        (a + b).len() == a.len() + b.len(),
{
    assert forall|i: int| 0 <= i < (a + b).len() implies entry_is_sound(
        #[trigger] (a + b)[i],
        arch,
        ioctls,
    ) by {
        if i < a.len() {
            assert((a + b)[i] == a[i]);
        } else {
            assert((a + b)[i] == b[i - a.len()]);
        }
    }
}

/// Every entry of a worker's table is sound, its `ioctl` rules are all about the number of the
/// request, and no table has more than 94 entries.
pub proof fn lemma_table_is_sound(thread: Thread, target: Target)
    ensures
        is_sound(table(thread, target), target.arch, ioctls_of(thread, target)),
        are_ioctl_rules(ioctls_of(thread, target)),
        table(thread, target).len() <= 94,
{
    let ioctls = ioctls_of(thread, target);
    lemma_own_table_is_sound(thread, target);
    lemma_common_table_is_sound(target, ioctls);
    lemma_ioctls_are_ioctl_rules(thread, target);
    lemma_concatenation_is_sound(
        own_table(thread, target),
        common_table(target),
        target.arch,
        ioctls,
    );
}

proof fn lemma_common_table_is_sound(target: Target, ioctls: Seq<SeccompRule>)
    ensures
        is_sound(common_table(target), target.arch, ioctls),
        common_table(target).len() <= 23,
{
}

proof fn lemma_fs_table_is_sound(target: Target, ioctls: Seq<SeccompRule>)
    ensures
        is_sound(fs_table(target), target.arch, ioctls),
        fs_table(target).len() <= 71,
{
    let a = unconditional(FS_CALLS_BEFORE_RENAMEAT@);
    let b = when(target.arch != Arch::Riscv64, unconditional(seq![Syscall::Renameat]));
    let c = unconditional(FS_CALLS_BEFORE_RSEQ@);
    let d = when(target.gnu, unconditional(seq![Syscall::Rseq]));
    let e = unconditional(FS_CALLS_AFTER_RSEQ@);
    let f = when(target.arch == Arch::X86_64, unconditional(FS_CALLS_X86_64@));
    lemma_unconditional_is_sound(FS_CALLS_BEFORE_RENAMEAT@, target.arch, ioctls);
    lemma_unconditional_is_sound(FS_CALLS_AFTER_RSEQ@, target.arch, ioctls);
    lemma_concatenation_is_sound(a, b, target.arch, ioctls);
    lemma_concatenation_is_sound(a + b, c, target.arch, ioctls);
    lemma_concatenation_is_sound(a + b + c, d, target.arch, ioctls);
    lemma_concatenation_is_sound(a + b + c + d, e, target.arch, ioctls);
    lemma_concatenation_is_sound(a + b + c + d + e, f, target.arch, ioctls);
}

proof fn lemma_own_table_is_sound(thread: Thread, target: Target)
    ensures
        is_sound(own_table(thread, target), target.arch, ioctls_of(thread, target)),
        own_table(thread, target).len() <= 71,
{
    match thread {
        Thread::VirtioFs => lemma_fs_table_is_sound(target, ioctls_of(thread, target)),
        _ => {},
    }
}

/// Lists the system call as allowed when one of `chain` holds, or always if `chain` is empty.
fn allow_if(
    rules: &mut Vec<(i64, Vec<SeccompRule>)>,
    call: Syscall,
    chain: Vec<SeccompRule>,
    arch: Arch,
)
    requires
        call.spec_number(arch) is Some,
    ensures
        entries(final(rules)@) == entries(old(rules)@) + numbered(conditional(call, chain@), arch),
{
    if let Some(number) = call.number(arch) {
        rules.push((number, chain));
        assert(entries(rules@) =~= entries(old(rules)@) + numbered(
            conditional(call, chain@),
            arch,
        ));
    }
}

/// Lists the system calls as allowed whatever their arguments.
fn allow_each(rules: &mut Vec<(i64, Vec<SeccompRule>)>, calls: &[Syscall], arch: Arch)
    requires
        forall|i: int|
            0 <= i < calls@.len() ==> (#[trigger] calls@[i]).spec_number(arch) is Some,
    ensures
        entries(final(rules)@) == entries(old(rules)@) + numbered(unconditional(calls@), arch),
{
    let mut i: usize = 0;
    assert(calls@.take(0) =~= Seq::empty());
    assert(entries(rules@) =~= entries(old(rules)@) + numbered(
        unconditional(calls@.take(0)),
        arch,
    ));
    while i < calls.len()
        invariant
            i <= calls@.len(),
            forall|j: int|
                0 <= j < calls@.len() ==> (#[trigger] calls@[j]).spec_number(arch) is Some,
            entries(rules@) == entries(old(rules)@) + numbered(
                unconditional(calls@.take(i as int)),
                arch,
            ),
        decreases calls@.len() - i,
    {
        allow_if(rules, calls[i], Vec::new(), arch);
        i += 1;
        assert(entries(rules@) =~= entries(old(rules)@) + numbered(
            unconditional(calls@.take(i as int)),
            arch,
        ));
    }
    assert(calls@.take(i as int) =~= calls@);
}

/// Returns the rule that holds when the low 32 bits of an argument are those of `value`.
fn equal_to(arg_index: u8, value: u64) -> (rule: SeccompRule)
    ensures
        rule == equals(arg_index, value),
{
    SeccompRule { arg_index, arg_len: ArgLen::Dword, operator: Operator::Eq, value }
}

/// The rule that lets a worker change who may access a SEV-SNP guest's pages.
fn mshv_sev_snp_ioctl_seccomp_rule() -> (rule: SeccompRule)
    ensures
        rule == equals(1, MSHV_MODIFY_GPA_HOST_ACCESS),
{
    equal_to(1, mshv_ioctls::MSHV_MODIFY_GPA_HOST_ACCESS())
}

/// The `ioctl` rules of a worker that makes no other `ioctl` than the one for SEV-SNP guests.
fn create_mshv_sev_snp_ioctl_seccomp_rule() -> (rules: Vec<SeccompRule>)
    ensures
        rules@ == sev_snp_ioctl_rules(),
{
    let mut rules: Vec<SeccompRule> = Vec::new();
    rules.push(mshv_sev_snp_ioctl_seccomp_rule());
    assert(rules@ =~= sev_snp_ioctl_rules());
    rules
}

/// The console worker's `ioctl` rules.
fn create_virtio_console_ioctl_seccomp_rule(target: Target) -> (rules: Vec<SeccompRule>)
    ensures
        rules@ == ioctl_rules(TIOCGWINSZ, target),
{
    let mut rules: Vec<SeccompRule> = Vec::new();
    rules.push(equal_to(1, TIOCGWINSZ));
    if target.sev_snp {
        rules.push(mshv_sev_snp_ioctl_seccomp_rule());
    }
    assert(rules@ =~= ioctl_rules(TIOCGWINSZ, target));
    rules
}

/// The IOMMU worker's `ioctl` rules.
fn create_virtio_iommu_ioctl_seccomp_rule() -> (rules: Vec<SeccompRule>)
    ensures
        rules@ == dma_ioctl_rules(),
{
    let mut rules: Vec<SeccompRule> = Vec::new();
    rules.push(equal_to(1, VFIO_IOMMU_MAP_DMA));
    rules.push(equal_to(1, VFIO_IOMMU_UNMAP_DMA));
    rules.push(equal_to(1, IOMMU_IOAS_MAP));
    rules.push(equal_to(1, IOMMU_IOAS_UNMAP));
    assert(rules@ =~= dma_ioctl_rules());
    rules
}

/// The memory worker's `ioctl` rules.
fn create_virtio_mem_ioctl_seccomp_rule() -> (rules: Vec<SeccompRule>)
    ensures
        rules@ == dma_ioctl_rules(),
{
    let mut rules: Vec<SeccompRule> = Vec::new();
    rules.push(equal_to(1, VFIO_IOMMU_MAP_DMA));
    rules.push(equal_to(1, VFIO_IOMMU_UNMAP_DMA));
    rules.push(equal_to(1, IOMMU_IOAS_MAP));
    rules.push(equal_to(1, IOMMU_IOAS_UNMAP));
    assert(rules@ =~= dma_ioctl_rules());
    rules
}

/// The block worker's `ioctl` rules.
fn create_virtio_block_ioctl_seccomp_rule(target: Target) -> (rules: Vec<SeccompRule>)
    ensures
        rules@ == block_ioctl_rules(target),
{
    let mut rules: Vec<SeccompRule> = Vec::new();
    rules.push(equal_to(1, BLKDISCARD));
    rules.push(equal_to(1, BLKZEROOUT));
    if target.sev_snp {
        rules.push(mshv_sev_snp_ioctl_seccomp_rule());
    }
    assert(rules@ =~= block_ioctl_rules(target));
    rules
}

/// The net control worker's `ioctl` rules.
fn create_virtio_net_ctl_ioctl_seccomp_rule(target: Target) -> (rules: Vec<SeccompRule>)
    ensures
        rules@ == ioctl_rules(TUNSETOFFLOAD, target),
{
    let mut rules: Vec<SeccompRule> = Vec::new();
    rules.push(equal_to(1, TUNSETOFFLOAD));
    if target.sev_snp {
        rules.push(mshv_sev_snp_ioctl_seccomp_rule());
    }
    assert(rules@ =~= ioctl_rules(TUNSETOFFLOAD, target));
    rules
}

/// The rules for opening sockets: Unix domain sockets alone.
fn create_socket_seccomp_rule() -> (rules: Vec<SeccompRule>)
    ensures
        rules@ == socket_rules(),
{
    let mut rules: Vec<SeccompRule> = Vec::new();
    rules.push(equal_to(0, AF_UNIX));
    assert(rules@ =~= socket_rules());
    rules
}

/// The vsock worker's `ioctl` rules.
fn create_vsock_ioctl_seccomp_rule(target: Target) -> (rules: Vec<SeccompRule>)
    ensures
        rules@ == ioctl_rules(FIONBIO, target),
{
    let mut rules: Vec<SeccompRule> = Vec::new();
    rules.push(equal_to(1, FIONBIO));
    if target.sev_snp {
        rules.push(mshv_sev_snp_ioctl_seccomp_rule());
    }
    assert(rules@ =~= ioctl_rules(FIONBIO, target));
    rules
}

/// The balloon worker's own system calls.
fn virtio_balloon_thread_rules(target: Target) -> (rules: Vec<(i64, Vec<SeccompRule>)>)
    ensures
        entries(rules@) == numbered(own_table(Thread::VirtioBalloon, target), target.arch),
{
    let mut rules: Vec<(i64, Vec<SeccompRule>)> = Vec::new();
    allow_each(&mut rules, BALLOON_CALLS.as_slice(), target.arch);
    assert(entries(rules@) =~= numbered(own_table(Thread::VirtioBalloon, target), target.arch));
    rules
}

/// The block worker's own system calls.
fn virtio_block_thread_rules(target: Target) -> (rules: Vec<(i64, Vec<SeccompRule>)>)
    ensures
        entries(rules@) == numbered(own_table(Thread::VirtioBlock, target), target.arch),
{
    let mut rules: Vec<(i64, Vec<SeccompRule>)> = Vec::new();
    allow_each(&mut rules, BLOCK_CALLS_BEFORE_IOCTL.as_slice(), target.arch);
    let chain = create_virtio_block_ioctl_seccomp_rule(target);
    allow_if(&mut rules, Syscall::Ioctl, chain, target.arch);
    allow_each(&mut rules, BLOCK_CALLS_AFTER_IOCTL.as_slice(), target.arch);
    assert(entries(rules@) =~= numbered(own_table(Thread::VirtioBlock, target), target.arch));
    rules
}

/// The console worker's own system calls.
fn virtio_console_thread_rules(target: Target) -> (rules: Vec<(i64, Vec<SeccompRule>)>)
    ensures
        entries(rules@) == numbered(own_table(Thread::VirtioConsole, target), target.arch),
{
    let mut rules: Vec<(i64, Vec<SeccompRule>)> = Vec::new();
    let chain = create_virtio_console_ioctl_seccomp_rule(target);
    allow_if(&mut rules, Syscall::Ioctl, chain, target.arch);
    allow_each(&mut rules, CONSOLE_CALLS.as_slice(), target.arch);
    assert(entries(rules@) =~= numbered(own_table(Thread::VirtioConsole, target), target.arch));
    rules
}

/// The IOMMU worker's own system calls.
fn virtio_iommu_thread_rules(target: Target) -> (rules: Vec<(i64, Vec<SeccompRule>)>)
    ensures
        entries(rules@) == numbered(own_table(Thread::VirtioIommu, target), target.arch),
{
    let mut rules: Vec<(i64, Vec<SeccompRule>)> = Vec::new();
    allow_if(&mut rules, Syscall::Ioctl, create_virtio_iommu_ioctl_seccomp_rule(), target.arch);
    assert(entries(rules@) =~= numbered(own_table(Thread::VirtioIommu, target), target.arch));
    rules
}

/// The memory worker's own system calls.
fn virtio_mem_thread_rules(target: Target) -> (rules: Vec<(i64, Vec<SeccompRule>)>)
    ensures
        entries(rules@) == numbered(own_table(Thread::VirtioMem, target), target.arch),
{
    let mut rules: Vec<(i64, Vec<SeccompRule>)> = Vec::new();
    allow_each(&mut rules, MEM_CALLS_BEFORE_IOCTL.as_slice(), target.arch);
    allow_if(&mut rules, Syscall::Ioctl, create_virtio_mem_ioctl_seccomp_rule(), target.arch);
    allow_each(&mut rules, MEM_CALLS_AFTER_IOCTL.as_slice(), target.arch);
    assert(entries(rules@) =~= numbered(own_table(Thread::VirtioMem, target), target.arch));
    rules
}

/// A net queue worker's own system calls.
fn virtio_net_thread_rules(target: Target) -> (rules: Vec<(i64, Vec<SeccompRule>)>)
    ensures
        entries(rules@) == numbered(own_table(Thread::VirtioNet, target), target.arch),
{
    let mut rules: Vec<(i64, Vec<SeccompRule>)> = Vec::new();
    if target.sev_snp {
        allow_if(&mut rules, Syscall::Ioctl, create_mshv_sev_snp_ioctl_seccomp_rule(), target.arch);
    }
    allow_each(&mut rules, NET_CALLS.as_slice(), target.arch);
    assert(entries(rules@) =~= numbered(own_table(Thread::VirtioNet, target), target.arch));
    rules
}

/// The net control worker's own system calls.
fn virtio_net_ctl_thread_rules(target: Target) -> (rules: Vec<(i64, Vec<SeccompRule>)>)
    ensures
        entries(rules@) == numbered(own_table(Thread::VirtioNetCtl, target), target.arch),
{
    let mut rules: Vec<(i64, Vec<SeccompRule>)> = Vec::new();
    let chain = create_virtio_net_ctl_ioctl_seccomp_rule(target);
    allow_if(&mut rules, Syscall::Ioctl, chain, target.arch);
    allow_each(&mut rules, NET_CTL_CALLS.as_slice(), target.arch);
    assert(entries(rules@) =~= numbered(own_table(Thread::VirtioNetCtl, target), target.arch));
    rules
}

/// The pmem worker's own system calls.
fn virtio_pmem_thread_rules(target: Target) -> (rules: Vec<(i64, Vec<SeccompRule>)>)
    ensures
        entries(rules@) == numbered(own_table(Thread::VirtioPmem, target), target.arch),
{
    let mut rules: Vec<(i64, Vec<SeccompRule>)> = Vec::new();
    allow_each(&mut rules, PMEM_CALLS.as_slice(), target.arch);
    assert(entries(rules@) =~= numbered(own_table(Thread::VirtioPmem, target), target.arch));
    rules
}

/// The entropy worker's own system calls.
fn virtio_rng_thread_rules(target: Target) -> (rules: Vec<(i64, Vec<SeccompRule>)>)
    ensures
        entries(rules@) == numbered(own_table(Thread::VirtioRng, target), target.arch),
{
    let mut rules: Vec<(i64, Vec<SeccompRule>)> = Vec::new();
    allow_each(&mut rules, RNG_CALLS.as_slice(), target.arch);
    if target.sev_snp {
        allow_if(&mut rules, Syscall::Ioctl, create_mshv_sev_snp_ioctl_seccomp_rule(), target.arch);
    }
    assert(entries(rules@) =~= numbered(own_table(Thread::VirtioRng, target), target.arch));
    rules
}

/// The RTC worker's own system calls.
fn virtio_rtc_thread_rules(target: Target) -> (rules: Vec<(i64, Vec<SeccompRule>)>)
    ensures
        entries(rules@) == numbered(own_table(Thread::VirtioRtc, target), target.arch),
{
    let mut rules: Vec<(i64, Vec<SeccompRule>)> = Vec::new();
    allow_each(&mut rules, RTC_CALLS.as_slice(), target.arch);
    if target.sev_snp {
        allow_if(&mut rules, Syscall::Ioctl, create_mshv_sev_snp_ioctl_seccomp_rule(), target.arch);
    }
    assert(entries(rules@) =~= numbered(own_table(Thread::VirtioRtc, target), target.arch));
    rules
}

/// The vhost-user fs worker's own system calls.
fn virtio_vhost_fs_thread_rules(target: Target) -> (rules: Vec<(i64, Vec<SeccompRule>)>)
    ensures
        entries(rules@) == numbered(own_table(Thread::VirtioVhostFs, target), target.arch),
{
    let mut rules: Vec<(i64, Vec<SeccompRule>)> = Vec::new();
    allow_each(&mut rules, VHOST_FS_CALLS_BEFORE_SOCKET.as_slice(), target.arch);
    allow_if(&mut rules, Syscall::Socket, create_socket_seccomp_rule(), target.arch);
    allow_each(&mut rules, VHOST_FS_CALLS_AFTER_SOCKET.as_slice(), target.arch);
    assert(entries(rules@) =~= numbered(own_table(Thread::VirtioVhostFs, target), target.arch));
    rules
}

/// Returns a native fs worker's own system calls, by number.
pub fn virtio_fs_thread_rules(target: Target) -> (rules: Vec<(i64, Vec<SeccompRule>)>)
    ensures
        entries(rules@) == numbered(fs_table(target), target.arch),
{
    let mut rules: Vec<(i64, Vec<SeccompRule>)> = Vec::new();
    allow_each(&mut rules, FS_CALLS_BEFORE_RENAMEAT.as_slice(), target.arch);
    if target.arch != Arch::Riscv64 {
        allow_if(&mut rules, Syscall::Renameat, Vec::new(), target.arch);
    }
    allow_each(&mut rules, FS_CALLS_BEFORE_RSEQ.as_slice(), target.arch);
    if target.gnu {
        allow_if(&mut rules, Syscall::Rseq, Vec::new(), target.arch);
    }
    allow_each(&mut rules, FS_CALLS_AFTER_RSEQ.as_slice(), target.arch);
    if target.arch == Arch::X86_64 {
        allow_each(&mut rules, FS_CALLS_X86_64.as_slice(), target.arch);
    }
    assert(entries(rules@) =~= numbered(fs_table(target), target.arch));
    rules
}

/// A generic vhost-user worker's own system calls.
fn virtio_generic_vhost_user_thread_rules(target: Target) -> (rules: Vec<(i64, Vec<SeccompRule>)>)
    ensures
        entries(rules@) == numbered(own_table(Thread::VirtioGenericVhostUser, target), target.arch),
{
    let mut rules: Vec<(i64, Vec<SeccompRule>)> = Vec::new();
    allow_each(&mut rules, GENERIC_VHOST_USER_CALLS_BEFORE_SOCKET.as_slice(), target.arch);
    allow_if(&mut rules, Syscall::Socket, create_socket_seccomp_rule(), target.arch);
    allow_each(&mut rules, GENERIC_VHOST_USER_CALLS_AFTER_SOCKET.as_slice(), target.arch);
    assert(entries(rules@) =~= numbered(
        own_table(Thread::VirtioGenericVhostUser, target),
        target.arch,
    ));
    rules
}

/// The vhost-user net control worker's own system calls.
fn virtio_vhost_net_ctl_thread_rules(target: Target) -> (rules: Vec<(i64, Vec<SeccompRule>)>)
    ensures
        entries(rules@) == numbered(own_table(Thread::VirtioVhostNetCtl, target), target.arch),
{
    let mut rules: Vec<(i64, Vec<SeccompRule>)> = Vec::new();
    allow_each(&mut rules, VHOST_NET_CTL_CALLS.as_slice(), target.arch);
    assert(entries(rules@) =~= numbered(own_table(Thread::VirtioVhostNetCtl, target), target.arch));
    rules
}

/// The vhost-user net worker's own system calls.
fn virtio_vhost_net_thread_rules(target: Target) -> (rules: Vec<(i64, Vec<SeccompRule>)>)
    ensures
        entries(rules@) == numbered(own_table(Thread::VirtioVhostNet, target), target.arch),
{
    let mut rules: Vec<(i64, Vec<SeccompRule>)> = Vec::new();
    allow_each(&mut rules, VHOST_NET_CALLS_BEFORE_SOCKET.as_slice(), target.arch);
    allow_if(&mut rules, Syscall::Socket, create_socket_seccomp_rule(), target.arch);
    allow_each(&mut rules, VHOST_NET_CALLS_AFTER_SOCKET.as_slice(), target.arch);
    if target.arch == Arch::X86_64 {
        allow_if(&mut rules, Syscall::Unlink, Vec::new(), target.arch);
    }
    if target.arch == Arch::Aarch64 {
        allow_if(&mut rules, Syscall::Unlinkat, Vec::new(), target.arch);
    }
    assert(entries(rules@) =~= numbered(own_table(Thread::VirtioVhostNet, target), target.arch));
    rules
}

/// The vhost-user block worker's own system calls.
fn virtio_vhost_block_thread_rules(target: Target) -> (rules: Vec<(i64, Vec<SeccompRule>)>)
    ensures
        entries(rules@) == numbered(own_table(Thread::VirtioVhostBlock, target), target.arch),
{
    let mut rules: Vec<(i64, Vec<SeccompRule>)> = Vec::new();
    allow_each(&mut rules, VHOST_BLOCK_CALLS_BEFORE_SOCKET.as_slice(), target.arch);
    allow_if(&mut rules, Syscall::Socket, create_socket_seccomp_rule(), target.arch);
    allow_each(&mut rules, VHOST_BLOCK_CALLS_AFTER_SOCKET.as_slice(), target.arch);
    assert(entries(rules@) =~= numbered(own_table(Thread::VirtioVhostBlock, target), target.arch));
    rules
}

/// The vsock worker's own system calls.
fn virtio_vsock_thread_rules(target: Target) -> (rules: Vec<(i64, Vec<SeccompRule>)>)
    ensures
        entries(rules@) == numbered(own_table(Thread::VirtioVsock, target), target.arch),
{
    let mut rules: Vec<(i64, Vec<SeccompRule>)> = Vec::new();
    allow_each(&mut rules, VSOCK_CALLS_BEFORE_IOCTL.as_slice(), target.arch);
    allow_if(&mut rules, Syscall::Ioctl, create_vsock_ioctl_seccomp_rule(target), target.arch);
    allow_each(&mut rules, VSOCK_CALLS_AFTER_IOCTL.as_slice(), target.arch);
    allow_if(&mut rules, Syscall::Socket, create_socket_seccomp_rule(), target.arch);
    assert(entries(rules@) =~= numbered(own_table(Thread::VirtioVsock, target), target.arch));
    rules
}

/// The watchdog worker's own system calls.
fn virtio_watchdog_thread_rules(target: Target) -> (rules: Vec<(i64, Vec<SeccompRule>)>)
    ensures
        entries(rules@) == numbered(own_table(Thread::VirtioWatchdog, target), target.arch),
{
    let mut rules: Vec<(i64, Vec<SeccompRule>)> = Vec::new();
    allow_each(&mut rules, WATCHDOG_CALLS.as_slice(), target.arch);
    assert(entries(rules@) =~= numbered(own_table(Thread::VirtioWatchdog, target), target.arch));
    rules
}

/// The system calls that every worker makes.
fn virtio_thread_common(target: Target) -> (rules: Vec<(i64, Vec<SeccompRule>)>)
    ensures
        entries(rules@) == numbered(common_table(target), target.arch),
{
    let mut rules: Vec<(i64, Vec<SeccompRule>)> = Vec::new();
    allow_each(&mut rules, COMMON_CALLS_BEFORE_EPOLL_WAIT.as_slice(), target.arch);
    if target.arch == Arch::X86_64 {
        allow_if(&mut rules, Syscall::EpollWait, Vec::new(), target.arch);
    }
    allow_each(&mut rules, COMMON_CALLS_AFTER_EPOLL_WAIT.as_slice(), target.arch);
    assert(entries(rules@) =~= numbered(common_table(target), target.arch));
    rules
}

/// Two lists that hold two tables hold, one behind the other, the two tables one behind the other.
proof fn lemma_concatenation(
    a: Seq<(i64, Vec<SeccompRule>)>,
    b: Seq<(i64, Vec<SeccompRule>)>,
    table_a: Seq<(Syscall, Seq<SeccompRule>)>,
    table_b: Seq<(Syscall, Seq<SeccompRule>)>,
    arch: Arch,
)
    requires
        entries(a) == numbered(table_a, arch),
        entries(b) == numbered(table_b, arch),
    ensures
        entries(a + b) == numbered(table_a + table_b, arch),
{
    assert(entries(a + b) =~= entries(a) + entries(b));
    assert(numbered(table_a + table_b, arch) =~= numbered(table_a, arch) + numbered(table_b, arch));
}

/// Returns every system call that a worker makes, by number and with its rules.
pub fn get_seccomp_rules(thread_type: Thread, target: Target) -> (rules: Vec<
    (i64, Vec<SeccompRule>),
>)
    ensures
        entries(rules@) == numbered(table(thread_type, target), target.arch),
{
    let mut rules = match thread_type {
        Thread::VirtioBalloon => virtio_balloon_thread_rules(target),
        Thread::VirtioBlock => virtio_block_thread_rules(target),
        Thread::VirtioConsole => virtio_console_thread_rules(target),
        Thread::VirtioIommu => virtio_iommu_thread_rules(target),
        Thread::VirtioMem => virtio_mem_thread_rules(target),
        Thread::VirtioNet => virtio_net_thread_rules(target),
        Thread::VirtioNetCtl => virtio_net_ctl_thread_rules(target),
        Thread::VirtioPmem => virtio_pmem_thread_rules(target),
        Thread::VirtioRng => virtio_rng_thread_rules(target),
        Thread::VirtioRtc => virtio_rtc_thread_rules(target),
        Thread::VirtioFs => virtio_fs_thread_rules(target),
        Thread::VirtioVhostBlock => virtio_vhost_block_thread_rules(target),
        Thread::VirtioVhostFs => virtio_vhost_fs_thread_rules(target),
        Thread::VirtioGenericVhostUser => virtio_generic_vhost_user_thread_rules(target),
        Thread::VirtioVhostNet => virtio_vhost_net_thread_rules(target),
        Thread::VirtioVhostNetCtl => virtio_vhost_net_ctl_thread_rules(target),
        Thread::VirtioVsock => virtio_vsock_thread_rules(target),
        Thread::VirtioWatchdog => virtio_watchdog_thread_rules(target),
    };
    let mut common = virtio_thread_common(target);
    proof {
        lemma_concatenation(
            rules@,
            common@,
            own_table(thread_type, target),
            common_table(target),
            target.arch,
        );
    }
    rules.append(&mut common);
    rules
}

} // verus!
