//! Linux system calls and the numbers the kernel gives them on each architecture.

#[allow(unused_imports)]
use vstd::prelude::*;

verus! {

/// The architectures a worker filter can be compiled for.
#[derive(Clone, Copy, Debug, PartialEq, Eq, Structural)]
pub enum Arch {
    X86_64,
    Aarch64,
    Riscv64,
}

impl Arch {
    /// The architecture's name as `std::env::consts::ARCH` spells it.
    pub open spec fn spec_name(self) -> Seq<char> {
        match self {
            Arch::X86_64 => "x86_64"@,
            Arch::Aarch64 => "aarch64"@,
            Arch::Riscv64 => "riscv64"@,
        }
    }

    /// Returns the architecture's name as `std::env::consts::ARCH` spells it.
    pub fn name(self) -> (name: &'static str)
        ensures
            name@ == self.spec_name(),
    {
        match self {
            Arch::X86_64 => "x86_64",
            Arch::Aarch64 => "aarch64",
            Arch::Riscv64 => "riscv64",
        }
    }
}

/// The system calls that some worker filter lists.
#[derive(Clone, Copy, Debug, PartialEq, Eq, Structural)]
pub enum Syscall {
    Accept4,
    Bind,
    Brk,
    Capget,
    Capset,
    ClockGettime,
    ClockNanosleep,
    Close,
    Connect,
    CopyFileRange,
    Dup,
    EpollCreate1,
    EpollCtl,
    EpollPwait,
    EpollWait,
    Exit,
    Fallocate,
    Fchdir,
    Fchmod,
    Fchmodat,
    Fchownat,
    Fcntl,
    Fdatasync,
    Fgetxattr,
    Flistxattr,
    Flock,
    Fremovexattr,
    Fsetxattr,
    Fstat,
    Fstatfs,
    Fsync,
    Ftruncate,
    Futex,
    Getcwd,
    Getdents,
    Getdents64,
    Getegid,
    Geteuid,
    Getpid,
    Getrandom,
    Gettid,
    Gettimeofday,
    Getxattr,
    IoDestroy,
    IoGetevents,
    IoSubmit,
    IoUringEnter,
    Ioctl,
    Linkat,
    Listen,
    Listxattr,
    Lseek,
    Madvise,
    Membarrier,
    Mkdirat,
    Mknodat,
    Mmap,
    Mprotect,
    Mremap,
    Munmap,
    NameToHandleAt,
    Nanosleep,
    Newfstatat,
    Open,
    OpenByHandleAt,
    Openat,
    Openat2,
    Prctl,
    Pread64,
    Preadv,
    Preadv2,
    Pwrite64,
    Pwritev,
    Pwritev2,
    Read,
    Readlinkat,
    Readv,
    Recvfrom,
    Recvmsg,
    Removexattr,
    Renameat,
    Renameat2,
    Rseq,
    RtSigaction,
    RtSigprocmask,
    RtSigreturn,
    SchedGetaffinity,
    SchedSetaffinity,
    SchedYield,
    Sendmsg,
    Sendto,
    SetRobustList,
    Setgroups,
    Setresgid,
    Setresuid,
    Setxattr,
    Shutdown,
    Sigaltstack,
    Socket,
    Statx,
    Symlinkat,
    Syncfs,
    Tgkill,
    Time,
    TimerfdCreate,
    TimerfdSettime,
    Tkill,
    Umask,
    Unlink,
    Unlinkat,
    Unshare,
    Utimensat,
    Write,
    Writev,
}

impl Syscall {
    /// The number of the system call on x86-64.
    pub open spec fn x86_64_number(self) -> i64 {
        match self {
            Syscall::Accept4 => 288,
            Syscall::Bind => 49,
            Syscall::Brk => 12,
            Syscall::Capget => 125,
            Syscall::Capset => 126,
            Syscall::ClockGettime => 228,
            Syscall::ClockNanosleep => 230,
            Syscall::Close => 3,
            Syscall::Connect => 42,
            Syscall::CopyFileRange => 326,
            Syscall::Dup => 32,
            Syscall::EpollCreate1 => 291,
            Syscall::EpollCtl => 233,
            Syscall::EpollPwait => 281,
            Syscall::EpollWait => 232,
            Syscall::Exit => 60,
            Syscall::Fallocate => 285,
            Syscall::Fchdir => 81,
            Syscall::Fchmod => 91,
            Syscall::Fchmodat => 268,
            Syscall::Fchownat => 260,
            Syscall::Fcntl => 72,
            Syscall::Fdatasync => 75,
            Syscall::Fgetxattr => 193,
            Syscall::Flistxattr => 196,
            Syscall::Flock => 73,
            Syscall::Fremovexattr => 199,
            Syscall::Fsetxattr => 190,
            Syscall::Fstat => 5,
            Syscall::Fstatfs => 138,
            Syscall::Fsync => 74,
            Syscall::Ftruncate => 77,
            Syscall::Futex => 202,
            Syscall::Getcwd => 79,
            Syscall::Getdents => 78,
            Syscall::Getdents64 => 217,
            Syscall::Getegid => 108,
            Syscall::Geteuid => 107,
            Syscall::Getpid => 39,
            Syscall::Getrandom => 318,
            Syscall::Gettid => 186,
            Syscall::Gettimeofday => 96,
            Syscall::Getxattr => 191,
            Syscall::IoDestroy => 207,
            Syscall::IoGetevents => 208,
            Syscall::IoSubmit => 209,
            Syscall::IoUringEnter => 426,
            Syscall::Ioctl => 16,
            Syscall::Linkat => 265,
            Syscall::Listen => 50,
            Syscall::Listxattr => 194,
            Syscall::Lseek => 8,
            Syscall::Madvise => 28,
            Syscall::Membarrier => 324,
            Syscall::Mkdirat => 258,
            Syscall::Mknodat => 259,
            Syscall::Mmap => 9,
            Syscall::Mprotect => 10,
            Syscall::Mremap => 25,
            Syscall::Munmap => 11,
            Syscall::NameToHandleAt => 303,
            Syscall::Nanosleep => 35,
            Syscall::Newfstatat => 262,
            Syscall::Open => 2,
            Syscall::OpenByHandleAt => 304,
            Syscall::Openat => 257,
            Syscall::Openat2 => 437,
            Syscall::Prctl => 157,
            Syscall::Pread64 => 17,
            Syscall::Preadv => 295,
            Syscall::Preadv2 => 327,
            Syscall::Pwrite64 => 18,
            Syscall::Pwritev => 296,
            Syscall::Pwritev2 => 328,
            Syscall::Read => 0,
            Syscall::Readlinkat => 267,
            Syscall::Readv => 19,
            Syscall::Recvfrom => 45,
            Syscall::Recvmsg => 47,
            Syscall::Removexattr => 197,
            Syscall::Renameat => 264,
            Syscall::Renameat2 => 316,
            Syscall::Rseq => 334,
            Syscall::RtSigaction => 13,
            Syscall::RtSigprocmask => 14,
            Syscall::RtSigreturn => 15,
            Syscall::SchedGetaffinity => 204,
            Syscall::SchedSetaffinity => 203,
            Syscall::SchedYield => 24,
            Syscall::Sendmsg => 46,
            Syscall::Sendto => 44,
            Syscall::SetRobustList => 273,
            Syscall::Setgroups => 116,
            Syscall::Setresgid => 119,
            Syscall::Setresuid => 117,
            Syscall::Setxattr => 188,
            Syscall::Shutdown => 48,
            Syscall::Sigaltstack => 131,
            Syscall::Socket => 41,
            Syscall::Statx => 332,
            Syscall::Symlinkat => 266,
            Syscall::Syncfs => 306,
            Syscall::Tgkill => 234,
            Syscall::Time => 201,
            Syscall::TimerfdCreate => 283,
            Syscall::TimerfdSettime => 286,
            Syscall::Tkill => 200,
            Syscall::Umask => 95,
            Syscall::Unlink => 87,
            Syscall::Unlinkat => 263,
            Syscall::Unshare => 272,
            Syscall::Utimensat => 280,
            Syscall::Write => 1,
            Syscall::Writev => 20,
        }
    }

    /// The number of the system call on the architectures that use the kernel's generic table,
    /// where it has one.
    pub open spec fn generic_number(self, arch: Arch) -> Option<i64> {
        match self {
            Syscall::Accept4 => Some(242),
            Syscall::Bind => Some(200),
            Syscall::Brk => Some(214),
            Syscall::Capget => Some(90),
            Syscall::Capset => Some(91),
            Syscall::ClockGettime => Some(113),
            Syscall::ClockNanosleep => Some(115),
            Syscall::Close => Some(57),
            Syscall::Connect => Some(203),
            Syscall::CopyFileRange => Some(285),
            Syscall::Dup => Some(23),
            Syscall::EpollCreate1 => Some(20),
            Syscall::EpollCtl => Some(21),
            Syscall::EpollPwait => Some(22),
            Syscall::EpollWait => None,
            Syscall::Exit => Some(93),
            Syscall::Fallocate => Some(47),
            Syscall::Fchdir => Some(50),
            Syscall::Fchmod => Some(52),
            Syscall::Fchmodat => Some(53),
            Syscall::Fchownat => Some(54),
            Syscall::Fcntl => Some(25),
            Syscall::Fdatasync => Some(83),
            Syscall::Fgetxattr => Some(10),
            Syscall::Flistxattr => Some(13),
            Syscall::Flock => Some(32),
            Syscall::Fremovexattr => Some(16),
            Syscall::Fsetxattr => Some(7),
            Syscall::Fstat => Some(80),
            Syscall::Fstatfs => Some(44),
            Syscall::Fsync => Some(82),
            Syscall::Ftruncate => Some(46),
            Syscall::Futex => Some(98),
            Syscall::Getcwd => Some(17),
            Syscall::Getdents => None,
            Syscall::Getdents64 => Some(61),
            Syscall::Getegid => Some(177),
            Syscall::Geteuid => Some(175),
            Syscall::Getpid => Some(172),
            Syscall::Getrandom => Some(278),
            Syscall::Gettid => Some(178),
            Syscall::Gettimeofday => Some(169),
            Syscall::Getxattr => Some(8),
            Syscall::IoDestroy => Some(1),
            Syscall::IoGetevents => Some(4),
            Syscall::IoSubmit => Some(2),
            Syscall::IoUringEnter => Some(426),
            Syscall::Ioctl => Some(29),
            Syscall::Linkat => Some(37),
            Syscall::Listen => Some(201),
            Syscall::Listxattr => Some(11),
            Syscall::Lseek => Some(62),
            Syscall::Madvise => Some(233),
            Syscall::Membarrier => Some(283),
            Syscall::Mkdirat => Some(34),
            Syscall::Mknodat => Some(33),
            Syscall::Mmap => Some(222),
            Syscall::Mprotect => Some(226),
            Syscall::Mremap => Some(216),
            Syscall::Munmap => Some(215),
            Syscall::NameToHandleAt => Some(264),
            Syscall::Nanosleep => Some(101),
            Syscall::Newfstatat => Some(79),
            Syscall::Open => None,
            Syscall::OpenByHandleAt => Some(265),
            Syscall::Openat => Some(56),
            Syscall::Openat2 => Some(437),
            Syscall::Prctl => Some(167),
            Syscall::Pread64 => Some(67),
            Syscall::Preadv => Some(69),
            Syscall::Preadv2 => Some(286),
            Syscall::Pwrite64 => Some(68),
            Syscall::Pwritev => Some(70),
            Syscall::Pwritev2 => Some(287),
            Syscall::Read => Some(63),
            Syscall::Readlinkat => Some(78),
            Syscall::Readv => Some(65),
            Syscall::Recvfrom => Some(207),
            Syscall::Recvmsg => Some(212),
            Syscall::Removexattr => Some(14),
            Syscall::Renameat => if arch == Arch::Riscv64 { None } else { Some(38) },
            Syscall::Renameat2 => Some(276),
            Syscall::Rseq => Some(293),
            Syscall::RtSigaction => Some(134),
            Syscall::RtSigprocmask => Some(135),
            Syscall::RtSigreturn => Some(139),
            Syscall::SchedGetaffinity => Some(123),
            Syscall::SchedSetaffinity => Some(122),
            Syscall::SchedYield => Some(124),
            Syscall::Sendmsg => Some(211),
            Syscall::Sendto => Some(206),
            Syscall::SetRobustList => Some(99),
            Syscall::Setgroups => Some(159),
            Syscall::Setresgid => Some(149),
            Syscall::Setresuid => Some(147),
            Syscall::Setxattr => Some(5),
            Syscall::Shutdown => Some(210),
            Syscall::Sigaltstack => Some(132),
            Syscall::Socket => Some(198),
            Syscall::Statx => Some(291),
            Syscall::Symlinkat => Some(36),
            Syscall::Syncfs => Some(267),
            Syscall::Tgkill => Some(131),
            Syscall::Time => None,
            Syscall::TimerfdCreate => Some(85),
            Syscall::TimerfdSettime => Some(86),
            Syscall::Tkill => Some(130),
            Syscall::Umask => Some(166),
            Syscall::Unlink => None,
            Syscall::Unlinkat => Some(35),
            Syscall::Unshare => Some(97),
            Syscall::Utimensat => Some(88),
            Syscall::Write => Some(64),
            Syscall::Writev => Some(66),
        }
    }

    /// The number of the system call on `arch`, or `None` if `arch` has no such call.
    pub open spec fn spec_number(self, arch: Arch) -> Option<i64> {
        if arch == Arch::X86_64 {
            Some(self.x86_64_number())
        } else {
            self.generic_number(arch)
        }
    }

    /// Returns the number of the system call on `arch`, or `None` if `arch` has no such call.
    pub fn number(self, arch: Arch) -> (number: Option<i64>)
        ensures
            number == self.spec_number(arch),
    {
        if arch == Arch::X86_64 {
            Some(self.number_on_x86_64())
        } else {
            self.number_in_generic_table(arch)
        }
    }

    fn number_on_x86_64(self) -> (number: i64)
        ensures
            number == self.x86_64_number(),
    {
        match self {
            Syscall::Accept4 => 288,
            Syscall::Bind => 49,
            Syscall::Brk => 12,
            Syscall::Capget => 125,
            Syscall::Capset => 126,
            Syscall::ClockGettime => 228,
            Syscall::ClockNanosleep => 230,
            Syscall::Close => 3,
            Syscall::Connect => 42,
            Syscall::CopyFileRange => 326,
            Syscall::Dup => 32,
            Syscall::EpollCreate1 => 291,
            Syscall::EpollCtl => 233,
            Syscall::EpollPwait => 281,
            Syscall::EpollWait => 232,
            Syscall::Exit => 60,
            Syscall::Fallocate => 285,
            Syscall::Fchdir => 81,
            Syscall::Fchmod => 91,
            Syscall::Fchmodat => 268,
            Syscall::Fchownat => 260,
            Syscall::Fcntl => 72,
            Syscall::Fdatasync => 75,
            Syscall::Fgetxattr => 193,
            Syscall::Flistxattr => 196,
            Syscall::Flock => 73,
            Syscall::Fremovexattr => 199,
            Syscall::Fsetxattr => 190,
            Syscall::Fstat => 5,
            Syscall::Fstatfs => 138,
            Syscall::Fsync => 74,
            Syscall::Ftruncate => 77,
            Syscall::Futex => 202,
            Syscall::Getcwd => 79,
            Syscall::Getdents => 78,
            Syscall::Getdents64 => 217,
            Syscall::Getegid => 108,
            Syscall::Geteuid => 107,
            Syscall::Getpid => 39,
            Syscall::Getrandom => 318,
            Syscall::Gettid => 186,
            Syscall::Gettimeofday => 96,
            Syscall::Getxattr => 191,
            Syscall::IoDestroy => 207,
            Syscall::IoGetevents => 208,
            Syscall::IoSubmit => 209,
            Syscall::IoUringEnter => 426,
            Syscall::Ioctl => 16,
            Syscall::Linkat => 265,
            Syscall::Listen => 50,
            Syscall::Listxattr => 194,
            Syscall::Lseek => 8,
            Syscall::Madvise => 28,
            Syscall::Membarrier => 324,
            Syscall::Mkdirat => 258,
            Syscall::Mknodat => 259,
            Syscall::Mmap => 9,
            Syscall::Mprotect => 10,
            Syscall::Mremap => 25,
            Syscall::Munmap => 11,
            Syscall::NameToHandleAt => 303,
            Syscall::Nanosleep => 35,
            Syscall::Newfstatat => 262,
            Syscall::Open => 2,
            Syscall::OpenByHandleAt => 304,
            Syscall::Openat => 257,
            Syscall::Openat2 => 437,
            Syscall::Prctl => 157,
            Syscall::Pread64 => 17,
            Syscall::Preadv => 295,
            Syscall::Preadv2 => 327,
            Syscall::Pwrite64 => 18,
            Syscall::Pwritev => 296,
            Syscall::Pwritev2 => 328,
            Syscall::Read => 0,
            Syscall::Readlinkat => 267,
            Syscall::Readv => 19,
            Syscall::Recvfrom => 45,
            Syscall::Recvmsg => 47,
            Syscall::Removexattr => 197,
            Syscall::Renameat => 264,
            Syscall::Renameat2 => 316,
            Syscall::Rseq => 334,
            Syscall::RtSigaction => 13,
            Syscall::RtSigprocmask => 14,
            Syscall::RtSigreturn => 15,
            Syscall::SchedGetaffinity => 204,
            Syscall::SchedSetaffinity => 203,
            Syscall::SchedYield => 24,
            Syscall::Sendmsg => 46,
            Syscall::Sendto => 44,
            Syscall::SetRobustList => 273,
            Syscall::Setgroups => 116,
            Syscall::Setresgid => 119,
            Syscall::Setresuid => 117,
            Syscall::Setxattr => 188,
            Syscall::Shutdown => 48,
            Syscall::Sigaltstack => 131,
            Syscall::Socket => 41,
            Syscall::Statx => 332,
            Syscall::Symlinkat => 266,
            Syscall::Syncfs => 306,
            Syscall::Tgkill => 234,
            Syscall::Time => 201,
            Syscall::TimerfdCreate => 283,
            Syscall::TimerfdSettime => 286,
            Syscall::Tkill => 200,
            Syscall::Umask => 95,
            Syscall::Unlink => 87,
            Syscall::Unlinkat => 263,
            Syscall::Unshare => 272,
            Syscall::Utimensat => 280,
            Syscall::Write => 1,
            Syscall::Writev => 20,
        }
    }

    fn number_in_generic_table(self, arch: Arch) -> (number: Option<i64>)
        ensures
            number == self.generic_number(arch),
    {
        match self {
            Syscall::Accept4 => Some(242),
            Syscall::Bind => Some(200),
            Syscall::Brk => Some(214),
            Syscall::Capget => Some(90),
            Syscall::Capset => Some(91),
            Syscall::ClockGettime => Some(113),
            Syscall::ClockNanosleep => Some(115),
            Syscall::Close => Some(57),
            Syscall::Connect => Some(203),
            Syscall::CopyFileRange => Some(285),
            Syscall::Dup => Some(23),
            Syscall::EpollCreate1 => Some(20),
            Syscall::EpollCtl => Some(21),
            Syscall::EpollPwait => Some(22),
            Syscall::EpollWait => None,
            Syscall::Exit => Some(93),
            Syscall::Fallocate => Some(47),
            Syscall::Fchdir => Some(50),
            Syscall::Fchmod => Some(52),
            Syscall::Fchmodat => Some(53),
            Syscall::Fchownat => Some(54),
            Syscall::Fcntl => Some(25),
            Syscall::Fdatasync => Some(83),
            Syscall::Fgetxattr => Some(10),
            Syscall::Flistxattr => Some(13),
            Syscall::Flock => Some(32),
            Syscall::Fremovexattr => Some(16),
            Syscall::Fsetxattr => Some(7),
            Syscall::Fstat => Some(80),
            Syscall::Fstatfs => Some(44),
            Syscall::Fsync => Some(82),
            Syscall::Ftruncate => Some(46),
            Syscall::Futex => Some(98),
            Syscall::Getcwd => Some(17),
            Syscall::Getdents => None,
            Syscall::Getdents64 => Some(61),
            Syscall::Getegid => Some(177),
            Syscall::Geteuid => Some(175),
            Syscall::Getpid => Some(172),
            Syscall::Getrandom => Some(278),
            Syscall::Gettid => Some(178),
            Syscall::Gettimeofday => Some(169),
            Syscall::Getxattr => Some(8),
            Syscall::IoDestroy => Some(1),
            Syscall::IoGetevents => Some(4),
            Syscall::IoSubmit => Some(2),
            Syscall::IoUringEnter => Some(426),
            Syscall::Ioctl => Some(29),
            Syscall::Linkat => Some(37),
            Syscall::Listen => Some(201),
            Syscall::Listxattr => Some(11),
            Syscall::Lseek => Some(62),
            Syscall::Madvise => Some(233),
            Syscall::Membarrier => Some(283),
            Syscall::Mkdirat => Some(34),
            Syscall::Mknodat => Some(33),
            Syscall::Mmap => Some(222),
            Syscall::Mprotect => Some(226),
            Syscall::Mremap => Some(216),
            Syscall::Munmap => Some(215),
            Syscall::NameToHandleAt => Some(264),
            Syscall::Nanosleep => Some(101),
            Syscall::Newfstatat => Some(79),
            Syscall::Open => None,
            Syscall::OpenByHandleAt => Some(265),
            Syscall::Openat => Some(56),
            Syscall::Openat2 => Some(437),
            Syscall::Prctl => Some(167),
            Syscall::Pread64 => Some(67),
            Syscall::Preadv => Some(69),
            Syscall::Preadv2 => Some(286),
            Syscall::Pwrite64 => Some(68),
            Syscall::Pwritev => Some(70),
            Syscall::Pwritev2 => Some(287),
            Syscall::Read => Some(63),
            Syscall::Readlinkat => Some(78),
            Syscall::Readv => Some(65),
            Syscall::Recvfrom => Some(207),
            Syscall::Recvmsg => Some(212),
            Syscall::Removexattr => Some(14),
            Syscall::Renameat => if arch == Arch::Riscv64 { None } else { Some(38) },
            Syscall::Renameat2 => Some(276),
            Syscall::Rseq => Some(293),
            Syscall::RtSigaction => Some(134),
            Syscall::RtSigprocmask => Some(135),
            Syscall::RtSigreturn => Some(139),
            Syscall::SchedGetaffinity => Some(123),
            Syscall::SchedSetaffinity => Some(122),
            Syscall::SchedYield => Some(124),
            Syscall::Sendmsg => Some(211),
            Syscall::Sendto => Some(206),
            Syscall::SetRobustList => Some(99),
            Syscall::Setgroups => Some(159),
            Syscall::Setresgid => Some(149),
            Syscall::Setresuid => Some(147),
            Syscall::Setxattr => Some(5),
            Syscall::Shutdown => Some(210),
            Syscall::Sigaltstack => Some(132),
            Syscall::Socket => Some(198),
            Syscall::Statx => Some(291),
            Syscall::Symlinkat => Some(36),
            Syscall::Syncfs => Some(267),
            Syscall::Tgkill => Some(131),
            Syscall::Time => None,
            Syscall::TimerfdCreate => Some(85),
            Syscall::TimerfdSettime => Some(86),
            Syscall::Tkill => Some(130),
            Syscall::Umask => Some(166),
            Syscall::Unlink => None,
            Syscall::Unlinkat => Some(35),
            Syscall::Unshare => Some(97),
            Syscall::Utimensat => Some(88),
            Syscall::Write => Some(64),
            Syscall::Writev => Some(66),
        }
    }
}

/// Every system call number fits the 32 bits that a filter compares.
pub proof fn lemma_numbers_are_small(call: Syscall, arch: Arch)
    ensures
        call.spec_number(arch) matches Some(number) ==> 0 <= number < 512,
{
}

/// Two different system calls never share a number on one architecture.
pub proof fn lemma_numbers_are_distinct(a: Syscall, b: Syscall, arch: Arch)
    requires
        a != b,
        a.spec_number(arch) is Some,
        b.spec_number(arch) is Some,
    ensures
        a.spec_number(arch) != b.spec_number(arch),
{
}

/// The kernel's numbers: those of the x86-64 table, and those of the generic table, which the other
/// two architectures share but for `renameat`, which RISC-V lacks.
pub proof fn law_numbers_are_the_kernels(call: Syscall)
    ensures
        (call.spec_number(Arch::X86_64), call.spec_number(Arch::Aarch64)) == (match call {
            Syscall::Accept4 => (Some(288i64), Some(242i64)),
            Syscall::Bind => (Some(49i64), Some(200i64)),
            Syscall::Brk => (Some(12i64), Some(214i64)),
            Syscall::Capget => (Some(125i64), Some(90i64)),
            Syscall::Capset => (Some(126i64), Some(91i64)),
            Syscall::ClockGettime => (Some(228i64), Some(113i64)),
            Syscall::ClockNanosleep => (Some(230i64), Some(115i64)),
            Syscall::Close => (Some(3i64), Some(57i64)),
            Syscall::Connect => (Some(42i64), Some(203i64)),
            Syscall::CopyFileRange => (Some(326i64), Some(285i64)),
            Syscall::Dup => (Some(32i64), Some(23i64)),
            Syscall::EpollCreate1 => (Some(291i64), Some(20i64)),
            Syscall::EpollCtl => (Some(233i64), Some(21i64)),
            Syscall::EpollPwait => (Some(281i64), Some(22i64)),
            Syscall::EpollWait => (Some(232i64), None::<i64>),
            Syscall::Exit => (Some(60i64), Some(93i64)),
            Syscall::Fallocate => (Some(285i64), Some(47i64)),
            Syscall::Fchdir => (Some(81i64), Some(50i64)),
            Syscall::Fchmod => (Some(91i64), Some(52i64)),
            Syscall::Fchmodat => (Some(268i64), Some(53i64)),
            Syscall::Fchownat => (Some(260i64), Some(54i64)),
            Syscall::Fcntl => (Some(72i64), Some(25i64)),
            Syscall::Fdatasync => (Some(75i64), Some(83i64)),
            Syscall::Fgetxattr => (Some(193i64), Some(10i64)),
            Syscall::Flistxattr => (Some(196i64), Some(13i64)),
            Syscall::Flock => (Some(73i64), Some(32i64)),
            Syscall::Fremovexattr => (Some(199i64), Some(16i64)),
            Syscall::Fsetxattr => (Some(190i64), Some(7i64)),
            Syscall::Fstat => (Some(5i64), Some(80i64)),
            Syscall::Fstatfs => (Some(138i64), Some(44i64)),
            Syscall::Fsync => (Some(74i64), Some(82i64)),
            Syscall::Ftruncate => (Some(77i64), Some(46i64)),
            Syscall::Futex => (Some(202i64), Some(98i64)),
            Syscall::Getcwd => (Some(79i64), Some(17i64)),
            Syscall::Getdents => (Some(78i64), None::<i64>),
            Syscall::Getdents64 => (Some(217i64), Some(61i64)),
            Syscall::Getegid => (Some(108i64), Some(177i64)),
            Syscall::Geteuid => (Some(107i64), Some(175i64)),
            Syscall::Getpid => (Some(39i64), Some(172i64)),
            Syscall::Getrandom => (Some(318i64), Some(278i64)),
            Syscall::Gettid => (Some(186i64), Some(178i64)),
            Syscall::Gettimeofday => (Some(96i64), Some(169i64)),
            Syscall::Getxattr => (Some(191i64), Some(8i64)),
            Syscall::IoDestroy => (Some(207i64), Some(1i64)),
            Syscall::IoGetevents => (Some(208i64), Some(4i64)),
            Syscall::IoSubmit => (Some(209i64), Some(2i64)),
            Syscall::IoUringEnter => (Some(426i64), Some(426i64)),
            Syscall::Ioctl => (Some(16i64), Some(29i64)),
            Syscall::Linkat => (Some(265i64), Some(37i64)),
            Syscall::Listen => (Some(50i64), Some(201i64)),
            Syscall::Listxattr => (Some(194i64), Some(11i64)),
            Syscall::Lseek => (Some(8i64), Some(62i64)),
            Syscall::Madvise => (Some(28i64), Some(233i64)),
            Syscall::Membarrier => (Some(324i64), Some(283i64)),
            Syscall::Mkdirat => (Some(258i64), Some(34i64)),
            Syscall::Mknodat => (Some(259i64), Some(33i64)),
            Syscall::Mmap => (Some(9i64), Some(222i64)),
            Syscall::Mprotect => (Some(10i64), Some(226i64)),
            Syscall::Mremap => (Some(25i64), Some(216i64)),
            Syscall::Munmap => (Some(11i64), Some(215i64)),
            Syscall::NameToHandleAt => (Some(303i64), Some(264i64)),
            Syscall::Nanosleep => (Some(35i64), Some(101i64)),
            Syscall::Newfstatat => (Some(262i64), Some(79i64)),
            Syscall::Open => (Some(2i64), None::<i64>),
            Syscall::OpenByHandleAt => (Some(304i64), Some(265i64)),
            Syscall::Openat => (Some(257i64), Some(56i64)),
            Syscall::Openat2 => (Some(437i64), Some(437i64)),
            Syscall::Prctl => (Some(157i64), Some(167i64)),
            Syscall::Pread64 => (Some(17i64), Some(67i64)),
            Syscall::Preadv => (Some(295i64), Some(69i64)),
            Syscall::Preadv2 => (Some(327i64), Some(286i64)),
            Syscall::Pwrite64 => (Some(18i64), Some(68i64)),
            Syscall::Pwritev => (Some(296i64), Some(70i64)),
            Syscall::Pwritev2 => (Some(328i64), Some(287i64)),
            Syscall::Read => (Some(0i64), Some(63i64)),
            Syscall::Readlinkat => (Some(267i64), Some(78i64)),
            Syscall::Readv => (Some(19i64), Some(65i64)),
            Syscall::Recvfrom => (Some(45i64), Some(207i64)),
            Syscall::Recvmsg => (Some(47i64), Some(212i64)),
            Syscall::Removexattr => (Some(197i64), Some(14i64)),
            Syscall::Renameat2 => (Some(316i64), Some(276i64)),
            Syscall::Rseq => (Some(334i64), Some(293i64)),
            Syscall::RtSigaction => (Some(13i64), Some(134i64)),
            Syscall::RtSigprocmask => (Some(14i64), Some(135i64)),
            Syscall::RtSigreturn => (Some(15i64), Some(139i64)),
            Syscall::SchedGetaffinity => (Some(204i64), Some(123i64)),
            Syscall::SchedSetaffinity => (Some(203i64), Some(122i64)),
            Syscall::SchedYield => (Some(24i64), Some(124i64)),
            Syscall::Sendmsg => (Some(46i64), Some(211i64)),
            Syscall::Sendto => (Some(44i64), Some(206i64)),
            Syscall::SetRobustList => (Some(273i64), Some(99i64)),
            Syscall::Setgroups => (Some(116i64), Some(159i64)),
            Syscall::Setresgid => (Some(119i64), Some(149i64)),
            Syscall::Setresuid => (Some(117i64), Some(147i64)),
            Syscall::Setxattr => (Some(188i64), Some(5i64)),
            Syscall::Shutdown => (Some(48i64), Some(210i64)),
            Syscall::Sigaltstack => (Some(131i64), Some(132i64)),
            Syscall::Socket => (Some(41i64), Some(198i64)),
            Syscall::Statx => (Some(332i64), Some(291i64)),
            Syscall::Symlinkat => (Some(266i64), Some(36i64)),
            Syscall::Syncfs => (Some(306i64), Some(267i64)),
            Syscall::Tgkill => (Some(234i64), Some(131i64)),
            Syscall::Time => (Some(201i64), None::<i64>),
            Syscall::TimerfdCreate => (Some(283i64), Some(85i64)),
            Syscall::TimerfdSettime => (Some(286i64), Some(86i64)),
            Syscall::Tkill => (Some(200i64), Some(130i64)),
            Syscall::Umask => (Some(95i64), Some(166i64)),
            Syscall::Unlink => (Some(87i64), None::<i64>),
            Syscall::Unlinkat => (Some(263i64), Some(35i64)),
            Syscall::Unshare => (Some(272i64), Some(97i64)),
            Syscall::Utimensat => (Some(280i64), Some(88i64)),
            Syscall::Write => (Some(1i64), Some(64i64)),
            Syscall::Writev => (Some(20i64), Some(66i64)),
            Syscall::Renameat => (Some(264i64), Some(38i64)),
        }),
        call.spec_number(Arch::Riscv64) == (if call == Syscall::Renameat {
            None
        } else {
            call.spec_number(Arch::Aarch64)
        }),
{
}

/// The names that the standard library gives the architectures.
pub proof fn law_architectures_have_their_names()
    ensures
        Arch::X86_64.spec_name() == "x86_64"@,
        Arch::Aarch64.spec_name() == "aarch64"@,
        Arch::Riscv64.spec_name() == "riscv64"@,
{
}

} // verus!
