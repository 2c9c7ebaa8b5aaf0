//! The BPF programs that confine the virtio worker threads, and the cache that keeps each of
//! them for the workers to come.

use crate::bpf::{compile, new_filter, new_rule, SeccompAction, SockFilter};
#[allow(unused_imports)]
use crate::bpf::{are_single, bpf_program, chains, contents, is_short, numbers_fit};
#[allow(unused_imports)]
use crate::clock::MICROS_LIMIT;
use crate::clock::Stopwatch;
#[allow(unused_imports)]
use crate::seccomp_rules::{
    entries, entry_is_sound, get_seccomp_rules, ioctls_of, lemma_table_is_sound, numbered, table,
    SeccompRule, Target,
};
#[allow(unused_imports)]
use crate::syscalls::lemma_numbers_are_small;
use seccompiler::SeccompRule as Rule;
use seccompiler::BackendError;
use std::collections::BTreeMap;
use std::sync::Arc;
use std::time::Instant;
#[allow(unused_imports)]
use vstd::prelude::*;

verus! {

/// The kinds of virtio worker threads.
#[derive(Clone, Copy, Debug, PartialEq, Eq, Structural)]
pub enum Thread {
    VirtioBalloon,
    VirtioBlock,
    VirtioConsole,
    VirtioIommu,
    VirtioMem,
    VirtioNet,
    VirtioNetCtl,
    VirtioPmem,
    VirtioRng,
    VirtioRtc,
    VirtioFs,
    VirtioVhostBlock,
    VirtioVhostFs,
    VirtioGenericVhostUser,
    VirtioVhostNet,
    VirtioVhostNetCtl,
    VirtioVsock,
    VirtioWatchdog,
}

impl Thread {
    /// Every kind of worker, each once.
    pub const ALL: [Self; 18] = [
        Self::VirtioBalloon,
        Self::VirtioBlock,
        Self::VirtioConsole,
        Self::VirtioIommu,
        Self::VirtioMem,
        Self::VirtioNet,
        Self::VirtioNetCtl,
        Self::VirtioPmem,
        Self::VirtioRng,
        Self::VirtioRtc,
        Self::VirtioFs,
        Self::VirtioVhostBlock,
        Self::VirtioVhostFs,
        Self::VirtioGenericVhostUser,
        Self::VirtioVhostNet,
        Self::VirtioVhostNetCtl,
        Self::VirtioVsock,
        Self::VirtioWatchdog,
    ];

    /// The name that the worker goes by in logs.
    pub open spec fn spec_name(self) -> Seq<char> {
        match self {
            Self::VirtioBalloon => "virtio-balloon"@,
            Self::VirtioBlock => "virtio-block"@,
            Self::VirtioConsole => "virtio-console"@,
            Self::VirtioIommu => "virtio-iommu"@,
            Self::VirtioMem => "virtio-mem"@,
            Self::VirtioNet => "virtio-net"@,
            Self::VirtioNetCtl => "virtio-net-ctl"@,
            Self::VirtioPmem => "virtio-pmem"@,
            Self::VirtioRng => "virtio-rng"@,
            Self::VirtioRtc => "virtio-rtc"@,
            Self::VirtioFs => "virtio-fs"@,
            Self::VirtioVhostBlock => "virtio-vhost-block"@,
            Self::VirtioVhostFs => "virtio-vhost-fs"@,
            Self::VirtioGenericVhostUser => "virtio-generic-vhost-user"@,
            Self::VirtioVhostNet => "virtio-vhost-net"@,
            Self::VirtioVhostNetCtl => "virtio-vhost-net-ctl"@,
            Self::VirtioVsock => "virtio-vsock"@,
            Self::VirtioWatchdog => "virtio-watchdog"@,
        }
    }

    /// Returns the name that the worker goes by in logs.
    pub fn name(self) -> (name: &'static str)
        ensures
            name@ == self.spec_name(),
    {
        match self {
            Self::VirtioBalloon => "virtio-balloon",
            Self::VirtioBlock => "virtio-block",
            Self::VirtioConsole => "virtio-console",
            Self::VirtioIommu => "virtio-iommu",
            Self::VirtioMem => "virtio-mem",
            Self::VirtioNet => "virtio-net",
            Self::VirtioNetCtl => "virtio-net-ctl",
            Self::VirtioPmem => "virtio-pmem",
            Self::VirtioRng => "virtio-rng",
            Self::VirtioRtc => "virtio-rtc",
            Self::VirtioFs => "virtio-fs",
            Self::VirtioVhostBlock => "virtio-vhost-block",
            Self::VirtioVhostFs => "virtio-vhost-fs",
            Self::VirtioGenericVhostUser => "virtio-generic-vhost-user",
            Self::VirtioVhostNet => "virtio-vhost-net",
            Self::VirtioVhostNetCtl => "virtio-vhost-net-ctl",
            Self::VirtioVsock => "virtio-vsock",
            Self::VirtioWatchdog => "virtio-watchdog",
        }
    }
}

/// Why a worker has no filter.
#[derive(Debug)]
pub enum Error {
    /// The seccomp compiler refused the rules.
    Backend(BackendError),
}

/// The rules that a list gives each system call number: those of the last entry for it.
pub open spec fn rule_map(list: Seq<(i64, Seq<SeccompRule>)>) -> Map<i64, Seq<SeccompRule>>
    decreases list.len(),
{
    if list.len() == 0 {
        Map::empty()
    } else {
        rule_map(list.drop_last()).insert(list.last().0, list.last().1)
    }
}

/// The rules of a worker, by system call number.
pub open spec fn worker_rules(thread: Thread, target: Target) -> Map<i64, Seq<SeccompRule>> {
    rule_map(numbered(table(thread, target), target.arch))
}

/// The program that confines a worker, given what happens to the calls that its rules do not
/// allow: none at all where those are let through as well.
pub open spec fn worker_program(action: SeccompAction, thread: Thread, target: Target) -> Seq<
    SockFilter,
> {
    if action == SeccompAction::Allow {
        Seq::empty()
    } else {
        bpf_program(
            worker_rules(thread, target),
            (action, SeccompAction::Allow, target.arch.spec_name()),
        )->0
    }
}

/// Whether every rule of a list names an argument that a system call can have.
spec fn arguments_exist(list: Seq<(i64, Seq<SeccompRule>)>) -> bool {
    forall|i: int, j: int|
        0 <= i < list.len() && 0 <= j < list[i].1.len() ==> (#[trigger] list[i].1[j]).arg_index <= 5
}

/// Makes the rules of a system call.
fn make_rules(chain: Vec<SeccompRule>) -> (rules: Vec<Rule>)
    requires
        forall|j: int| 0 <= j < chain@.len() ==> (#[trigger] chain@[j]).arg_index <= 5,
    ensures
        are_single(rules@),
        contents(rules@) == chain@,
{
    let mut rules: Vec<Rule> = Vec::new();
    let mut i: usize = 0;
    while i < chain.len()
        invariant
            i <= chain@.len(),
            forall|j: int| 0 <= j < chain@.len() ==> (#[trigger] chain@[j]).arg_index <= 5,
            are_single(rules@),
            contents(rules@) == chain@.take(i as int),
        decreases chain@.len() - i,
    {
        let ghost before = rules@;
        rules.push(new_rule(chain[i]));
        assert(contents(rules@) =~= contents(before).push(chain@[i as int]));
        i += 1;
        assert(chain@.take(i as int) =~= chain@.take(i - 1).push(chain@[i - 1]));
    }
    assert(chain@.take(i as int) =~= chain@);
    rules
}

/// Gathers the rules by system call number. A later entry replaces an earlier one for the same
/// number.
fn collect_rules(rules: Vec<(i64, Vec<SeccompRule>)>) -> (map: BTreeMap<i64, Vec<Rule>>)
    requires
        arguments_exist(entries(rules@)),
    ensures
        forall|number: i64| #[trigger] map@.contains_key(number) ==> are_single(map@[number]@),
        chains(map@) == rule_map(entries(rules@)),
{
    let mut map: BTreeMap<i64, Vec<Rule>> = BTreeMap::new();
    let ghost list = rules@;
    assert(chains(map@) =~= rule_map(entries(list.take(0))));
    for entry in it: rules
        invariant
            it.seq() == list,
            arguments_exist(entries(list)),
            forall|number: i64| #[trigger] map@.contains_key(number) ==> are_single(map@[number]@),
            chains(map@) == rule_map(entries(list.take(it.index()))),
    {
        let ghost before = map@;
        let ghost n = it.index();
        proof {
            assert(entry == list[n]);
            assert forall|j: int| 0 <= j < entry.1@.len() implies (#[trigger] entry.1@[j]).arg_index
                <= 5 by {
                assert(entries(list)[n].1[j] == entry.1@[j]);
            }
        }
        map.insert(entry.0, make_rules(entry.1));
        proof {
            assert(entries(list.take(n + 1)).drop_last() =~= entries(list.take(n)));
            assert(chains(map@) =~= chains(before).insert(entry.0, entry.1@));
        }
    }
    assert(list.take(list.len() as int) =~= list);
    map
}

proof fn lemma_compilable_list(list: Seq<(i64, Seq<SeccompRule>)>)
    requires
        forall|i: int| 0 <= i < list.len() ==> 0 <= (#[trigger] list[i]).0 <= u32::MAX,
        forall|i: int| 0 <= i < list.len() ==> (#[trigger] list[i]).1.len() <= 4,
    ensures
        numbers_fit(rule_map(list)),
        rule_map(list).dom().finite(),
        rule_map(list).dom().len() <= list.len(),
        forall|number: i64| #[trigger]
            rule_map(list).contains_key(number) ==> rule_map(list)[number].len() <= 4,
    decreases list.len(),
{
    if list.len() > 0 {
        lemma_compilable_list(list.drop_last());
        assert(list[list.len() - 1].1.len() <= 4);
    }
}

/// A worker's rules can be compiled, to a program that the kernel takes.
proof fn lemma_worker_rules_compile(thread: Thread, target: Target)
    ensures
        arguments_exist(numbered(table(thread, target), target.arch)),
        numbers_fit(worker_rules(thread, target)),
        is_short(worker_rules(thread, target)),
{
    let list = numbered(table(thread, target), target.arch);
    lemma_table_is_sound(thread, target);
    assert forall|i: int| 0 <= i < list.len() implies 0 <= (#[trigger] list[i]).0 <= u32::MAX && (
    list[i].1.len() <= 4) by {
        let entry = table(thread, target)[i];
        assert(entry_is_sound(entry, target.arch, ioctls_of(thread, target)));
        lemma_numbers_are_small(entry.0, target.arch);
    }
    assert forall|i: int, j: int| 0 <= i < list.len() && 0 <= j < list[i].1.len() implies (
    #[trigger] list[i].1[j]).arg_index <= 5 by {
        let entry = table(thread, target)[i];
        assert(entry_is_sound(entry, target.arch, ioctls_of(thread, target)));
        assert(list[i].1 == entry.1);
    }
    lemma_compilable_list(list);
}

/// Compiles the program that confines a worker.
pub fn build_seccomp_filter(
    seccomp_action: &SeccompAction,
    thread_type: Thread,
    target: Target,
) -> (program: Result<Vec<SockFilter>, Error>)
    ensures
        program is Ok,
        confines(program->Ok_0@, *seccomp_action, thread_type, target),
        program->Ok_0@.len() == 0 <==> *seccomp_action == SeccompAction::Allow,
        *seccomp_action != SeccompAction::Allow ==> program->Ok_0@ == bpf_program(
            worker_rules(thread_type, target),
            (*seccomp_action, SeccompAction::Allow, target.arch.spec_name()),
        )->0,
{
    match *seccomp_action {
        SeccompAction::Allow => Ok(Vec::new()),
        _ => {
            proof {
                lemma_worker_rules_compile(thread_type, target);
            }
            let rules = collect_rules(get_seccomp_rules(thread_type, target));
            match new_filter(rules, *seccomp_action, SeccompAction::Allow, target.arch.name()) {
                Ok(filter) => match compile(filter) {
                    Ok(program) => Ok(program),
                    Err(error) => Err(Error::Backend(error)),
                },
                Err(error) => Err(Error::Backend(error)),
            }
        },
    }
}

/// A program in the cache, with what it was compiled from.
struct CachedFilter {
    action: SeccompAction,
    thread: Thread,
    program: Arc<Vec<SockFilter>>,
}

/// The programs compiled so far, each kept for its action and its worker.
pub struct FilterCache {
    target: Target,
    filters: Vec<CachedFilter>,
}

/// A worker's program, and how it was come by.
pub struct FilterLookup {
    pub program: Arc<Vec<SockFilter>>,
    /// Whether the program was in the cache.
    pub cache_hit: bool,
    /// How many microseconds it took to compile, 0 if it was in the cache.
    pub build_us: u128,
    /// How many microseconds the lookup took in all.
    pub lookup_us: u128,
}

/// What compiling every worker's program came to.
pub struct PrecompileSummary {
    pub filter_count: usize,
    pub cache_hits: usize,
    pub build_us: u128,
}

/// Whether a program is the one that confines a worker, and empty only where every call is let
/// through.
pub open spec fn confines(
    program: Seq<SockFilter>,
    action: SeccompAction,
    thread: Thread,
    target: Target,
) -> bool {
    &&& program == worker_program(action, thread, target)
    &&& (program.len() == 0 <==> action == SeccompAction::Allow)
}

/// Whether a list of programs has one for an action and a worker.
pub open spec fn is_cached(
    filters: Seq<(SeccompAction, Thread, Seq<SockFilter>)>,
    key: (SeccompAction, Thread),
) -> bool {
    exists|i: int|
        0 <= i < filters.len() && (#[trigger] filters[i]).0 == key.0 && filters[i].1 == key.1
}

/// The list of programs once the one for an action and a worker has been looked up: as before if
/// it was there, else with that program behind the others.
pub open spec fn after_lookup(
    filters: Seq<(SeccompAction, Thread, Seq<SockFilter>)>,
    key: (SeccompAction, Thread),
    target: Target,
) -> Seq<(SeccompAction, Thread, Seq<SockFilter>)> {
    if is_cached(filters, key) {
        filters
    } else {
        filters.push((key.0, key.1, worker_program(key.0, key.1, target)))
    }
}

/// The list of programs once those for all `keys` have been looked up, one after the other.
pub open spec fn after_lookups(
    filters: Seq<(SeccompAction, Thread, Seq<SockFilter>)>,
    keys: Seq<(SeccompAction, Thread)>,
    target: Target,
) -> Seq<(SeccompAction, Thread, Seq<SockFilter>)>
    decreases keys.len(),
{
    if keys.len() == 0 {
        filters
    } else {
        after_lookup(after_lookups(filters, keys.drop_last(), target), keys.last(), target)
    }
}

/// A lookup makes its own program present, and no other.
pub proof fn lemma_after_lookup(
    filters: Seq<(SeccompAction, Thread, Seq<SockFilter>)>,
    key: (SeccompAction, Thread),
    target: Target,
    other: (SeccompAction, Thread),
)
    ensures
        is_cached(after_lookup(filters, key, target), other) <==> is_cached(filters, other)
            || other == key,
{
    let after = after_lookup(filters, key, target);
    if is_cached(filters, other) {
        let i = choose|i: int|
            0 <= i < filters.len() && (#[trigger] filters[i]).0 == other.0 && filters[i].1
                == other.1;
        assert(after[i] == filters[i]);
    }
    if !is_cached(filters, key) {
        assert(after[filters.len() as int].0 == key.0);
    }
}

/// After lookups, exactly the programs that were there before and those that were looked up are
/// there.
pub proof fn lemma_after_lookups(
    filters: Seq<(SeccompAction, Thread, Seq<SockFilter>)>,
    keys: Seq<(SeccompAction, Thread)>,
    target: Target,
    other: (SeccompAction, Thread),
)
    ensures
        is_cached(after_lookups(filters, keys, target), other) <==> is_cached(filters, other)
            || keys.contains(other),
    decreases keys.len(),
{
    if keys.len() > 0 {
        let rest = keys.drop_last();
        lemma_after_lookups(filters, rest, target, other);
        lemma_after_lookup(after_lookups(filters, rest, target), keys.last(), target, other);
        assert(keys =~= rest.push(keys.last()));
        if rest.contains(other) {
            let j = choose|j: int| 0 <= j < rest.len() && rest[j] == other;
            assert(keys[j] == other);
        }
        if keys.last() == other {
            assert(keys[keys.len() - 1] == other);
        }
    }
}

impl View for CachedFilter {
    type V = (SeccompAction, Thread, Seq<SockFilter>);

    closed spec fn view(&self) -> (SeccompAction, Thread, Seq<SockFilter>) {
        (self.action, self.thread, self.program@)
    }
}

impl View for FilterCache {
    type V = Seq<(SeccompAction, Thread, Seq<SockFilter>)>;

    /// The programs in the cache, each with its action and its worker, the oldest first.
    closed spec fn view(&self) -> Seq<(SeccompAction, Thread, Seq<SockFilter>)> {
        self.filters@.map_values(|filter: CachedFilter| filter@)
    }
}

impl FilterCache {
    /// What the programs in the cache are compiled for.
    pub closed spec fn spec_target(self) -> Target {
        self.target
    }

    /// Every program in the cache confines its worker, and no action and worker have two.
    pub open spec fn wf(self) -> bool {
        &&& forall|i: int|
            0 <= i < self@.len() ==> confines(
                (#[trigger] self@[i]).2,
                self@[i].0,
                self@[i].1,
                self.spec_target(),
            )
        &&& forall|i: int, j: int|
            0 <= i < self@.len() && 0 <= j < self@.len() && (#[trigger] self@[i]).0 == (
            #[trigger] self@[j]).0 && self@[i].1 == self@[j].1 ==> i == j
    }

    /// Returns a cache with no programs yet.
    pub fn new(target: Target) -> (cache: Self)
        ensures
            cache.wf(),
            cache.spec_target() == target,
            cache@ == Seq::<(SeccompAction, Thread, Seq<SockFilter>)>::empty(),
    {
        let cache = FilterCache { target, filters: Vec::with_capacity(18) };
        assert(cache@ =~= Seq::<(SeccompAction, Thread, Seq<SockFilter>)>::empty());
        cache
    }

    /// Returns the program for an action and a worker, if it is in the cache.
    pub fn find(&self, action: &SeccompAction, thread: Thread) -> (program: Option<
        Arc<Vec<SockFilter>>,
    >)
        requires
            self.wf(),
        ensures
            program is Some <==> is_cached(self@, (*action, thread)),
            program matches Some(program) ==> {
                &&& self@.contains((*action, thread, program@))
                &&& confines(program@, *action, thread, self.spec_target())
            },
    {
        let mut i: usize = 0;
        while i < self.filters.len()
            invariant
                self.wf(),
                i <= self.filters@.len(),
                forall|j: int|
                    0 <= j < i ==> !((#[trigger] self@[j]).0 == *action && self@[j].1 == thread),
            decreases self.filters@.len() - i,
        {
            let entry = &self.filters[i];
            assert(self@[i as int] == entry@);
            if entry.action == *action && entry.thread == thread {
                return Some(entry.program.clone());
            }
            i += 1;
        }
        None
    }

    /// Adds the program for an action and a worker that have none in the cache yet.
    fn insert(&mut self, action: &SeccompAction, thread: Thread, program: Arc<Vec<SockFilter>>)
        requires
            old(self).wf(),
            !is_cached(old(self)@, (*action, thread)),
            confines(program@, *action, thread, old(self).spec_target()),
        ensures
            final(self).wf(),
            final(self).spec_target() == old(self).spec_target(),
            final(self)@ == old(self)@.push((*action, thread, program@)),
    {
        self.filters.push(CachedFilter { action: *action, thread, program });
        assert(self@ =~= old(self)@.push((*action, thread, program@)));
    }
}

/// `Thread::ALL` lists every kind of worker, and none of them twice.
pub proof fn law_all_lists_each_worker_once(thread: Thread)
    ensures
        Thread::ALL@.contains(thread),
        Thread::ALL@.no_duplicates(),
        Thread::ALL@.len() == 18,
{
    let i: int = match thread {
        Thread::VirtioBalloon => 0,
        Thread::VirtioBlock => 1,
        Thread::VirtioConsole => 2,
        Thread::VirtioIommu => 3,
        Thread::VirtioMem => 4,
        Thread::VirtioNet => 5,
        Thread::VirtioNetCtl => 6,
        Thread::VirtioPmem => 7,
        Thread::VirtioRng => 8,
        Thread::VirtioRtc => 9,
        Thread::VirtioFs => 10,
        Thread::VirtioVhostBlock => 11,
        Thread::VirtioVhostFs => 12,
        Thread::VirtioGenericVhostUser => 13,
        Thread::VirtioVhostNet => 14,
        Thread::VirtioVhostNetCtl => 15,
        Thread::VirtioVsock => 16,
        Thread::VirtioWatchdog => 17,
    };
    assert(Thread::ALL@[i] == thread);
}

impl FilterLookup {
    /// Returns the outcome of a lookup that found its program in the cache, given the reading of
    /// the clock at its end, in nanoseconds since its start.
    pub fn cached(program: Arc<Vec<SockFilter>>, ended: u128) -> (lookup: Self)
        ensures
            lookup.program@ == program@,
            lookup.cache_hit,
            lookup.build_us == 0,
            lookup.lookup_us == ended / 1000,
    {
        FilterLookup { program, cache_hit: true, build_us: 0, lookup_us: ended / 1000 }
    }

    /// Returns the outcome of a lookup that compiled its program, given the readings of the clock
    /// when it began to compile, when it had compiled, and at its end, in nanoseconds since its
    /// start.
    pub fn compiled(
        program: Arc<Vec<SockFilter>>,
        build_started: u128,
        build_ended: u128,
        ended: u128,
    ) -> (lookup: Self)
        requires
            build_started <= build_ended <= ended,
        ensures
            lookup.program@ == program@,
            !lookup.cache_hit,
            lookup.build_us == (build_ended - build_started) / 1000,
            lookup.lookup_us == ended / 1000,
            lookup.build_us <= lookup.lookup_us,
    {
        FilterLookup {
            program,
            cache_hit: false,
            build_us: (build_ended - build_started) / 1000,
            lookup_us: ended / 1000,
        }
    }
}

/// Returns a worker's program from the cache, after compiling it into the cache if it is not
/// there yet. The lookup counts from `lookup_started`, which lies before the wait for the cache.
/// How long that and the compiling took is up to the clock.
pub fn get_cached_seccomp_filter(
    cache: &mut FilterCache,
    seccomp_action: &SeccompAction,
    thread_type: Thread,
    lookup_started: Instant,
) -> (lookup: Result<FilterLookup, Error>)
    requires
        old(cache).wf(),
    ensures
        lookup is Ok,
        confines(
            lookup->Ok_0.program@,
            *seccomp_action,
            thread_type,
            old(cache).spec_target(),
        ),
        lookup->Ok_0.program@.len() == 0 <==> *seccomp_action == SeccompAction::Allow,
        lookup->Ok_0.cache_hit == is_cached(old(cache)@, (*seccomp_action, thread_type)),
        lookup->Ok_0.cache_hit ==> {
            &&& lookup->Ok_0.build_us == 0
            &&& *final(cache) == *old(cache)
            &&& old(cache)@.contains((*seccomp_action, thread_type, lookup->Ok_0.program@))
        },
        !lookup->Ok_0.cache_hit ==> final(cache)@ == old(cache)@.push(
            (*seccomp_action, thread_type, lookup->Ok_0.program@),
        ),
        lookup->Ok_0.build_us <= lookup->Ok_0.lookup_us < MICROS_LIMIT,
        final(cache).wf(),
        final(cache).spec_target() == old(cache).spec_target(),
        final(cache)@ == after_lookup(
            old(cache)@,
            (*seccomp_action, thread_type),
            old(cache).spec_target(),
        ),
{
    let mut watch = Stopwatch::since(lookup_started);
    if let Some(program) = cache.find(seccomp_action, thread_type) {
        return Ok(FilterLookup::cached(program, watch.read()));
    }
    let build_started: u128 = watch.read();
    let program = match build_seccomp_filter(seccomp_action, thread_type, cache.target) {
        Ok(program) => Arc::new(program),
        Err(error) => {
            return Err(error);
        },
    };
    let build_ended: u128 = watch.read();
    cache.insert(seccomp_action, thread_type, program.clone());
    Ok(FilterLookup::compiled(program, build_started, build_ended, watch.read()))
}

/// How many of `threads` have a program in the list.
pub open spec fn cached_among(
    filters: Seq<(SeccompAction, Thread, Seq<SockFilter>)>,
    action: SeccompAction,
    threads: Seq<Thread>,
) -> nat {
    threads.filter(|thread: Thread| is_cached(filters, (action, thread))).len()
}

/// An action with each of `threads`.
pub open spec fn keys_of(action: SeccompAction, threads: Seq<Thread>) -> Seq<
    (SeccompAction, Thread),
> {
    threads.map_values(|thread: Thread| (action, thread))
}

impl PrecompileSummary {
    /// No more programs are counted than there are workers, no more hits than programs, and no
    /// more time than they can have taken.
    pub open spec fn wf(self) -> bool {
        &&& self.filter_count <= 18
        &&& self.cache_hits <= self.filter_count
        &&& self.build_us <= self.filter_count * MICROS_LIMIT
    }

    /// Returns the summary of no programs.
    pub fn new() -> (summary: Self)
        ensures
            summary.wf(),
            summary.filter_count == 0,
            summary.cache_hits == 0,
            summary.build_us == 0,
    {
        PrecompileSummary { filter_count: 0, cache_hits: 0, build_us: 0 }
    }

    /// Counts one more program, which was in the cache or took `build_us` microseconds.
    pub fn count(&mut self, cache_hit: bool, build_us: u128)
        requires
            old(self).filter_count < usize::MAX,
            old(self).cache_hits < usize::MAX,
            old(self).build_us + build_us <= u128::MAX,
        ensures
            final(self).filter_count == old(self).filter_count + 1,
            final(self).cache_hits == old(self).cache_hits + (if cache_hit {
                1int
            } else {
                0int
            }),
            final(self).build_us == old(self).build_us + build_us,
    {
        self.filter_count += 1;
        if cache_hit {
            self.cache_hits += 1;
        }
        self.build_us += build_us;
    }
}

/// Looks up the program of the first worker that is not counted yet, and counts it.
pub fn precompile_next(
    cache: &mut FilterCache,
    seccomp_action: &SeccompAction,
    lookup_started: Instant,
    summary: &mut PrecompileSummary,
) -> (lookup: Result<FilterLookup, Error>)
    requires
        old(cache).wf(),
        old(summary).wf(),
        old(summary).filter_count < 18,
    ensures
        lookup is Ok,
        is_lookup(
            lookup->Ok_0,
            old(cache)@,
            (*seccomp_action, Thread::ALL@[old(summary).filter_count as int]),
            old(cache).spec_target(),
        ),
        final(summary).wf(),
        final(summary).filter_count == old(summary).filter_count + 1,
        final(summary).cache_hits == old(summary).cache_hits + (if lookup->Ok_0.cache_hit {
            1int
        } else {
            0int
        }),
        final(summary).build_us == old(summary).build_us + lookup->Ok_0.build_us,
        lookup->Ok_0.cache_hit ==> *final(cache) == *old(cache),
        final(cache).wf(),
        final(cache).spec_target() == old(cache).spec_target(),
        final(cache)@ == after_lookup(
            old(cache)@,
            (*seccomp_action, Thread::ALL@[old(summary).filter_count as int]),
            old(cache).spec_target(),
        ),
{
    let all = Thread::ALL;
    let thread_type = all[summary.filter_count];
    match get_cached_seccomp_filter(cache, seccomp_action, thread_type, lookup_started) {
        Ok(lookup) => {
            summary.count(lookup.cache_hit, lookup.build_us);
            Ok(lookup)
        },
        Err(error) => Err(error),
    }
}

/// Whether `lookup` is what looking up a program in a cache with the given programs comes to.
pub open spec fn is_lookup(
    lookup: FilterLookup,
    filters: Seq<(SeccompAction, Thread, Seq<SockFilter>)>,
    key: (SeccompAction, Thread),
    target: Target,
) -> bool {
    &&& confines(lookup.program@, key.0, key.1, target)
    &&& lookup.cache_hit == is_cached(filters, key)
    &&& lookup.cache_hit ==> lookup.build_us == 0
    &&& lookup.build_us <= lookup.lookup_us
}

/// Whether `lookups` are what looking up the programs of `threads` in a cache with the given
/// programs comes to, one after the other.
pub open spec fn are_lookups(
    lookups: Seq<FilterLookup>,
    filters: Seq<(SeccompAction, Thread, Seq<SockFilter>)>,
    action: SeccompAction,
    threads: Seq<Thread>,
    target: Target,
) -> bool {
    &&& lookups.len() == threads.len()
    &&& forall|i: int|
        0 <= i < lookups.len() ==> is_lookup(
            #[trigger] lookups[i],
            filters,
            (action, threads[i]),
            target,
        )
}

/// How long the programs of all lookups took to build.
pub open spec fn total_build_us(lookups: Seq<FilterLookup>) -> int
    decreases lookups.len(),
{
    if lookups.len() == 0 {
        0
    } else {
        total_build_us(lookups.drop_last()) + lookups.last().build_us
    }
}

/// Compiles every worker's program while the VMM is still idle.
pub fn precompile_seccomp_filters(
    cache: &mut FilterCache,
    seccomp_action: &SeccompAction,
) -> (summary: Result<PrecompileSummary, Error>)
    requires
        old(cache).wf(),
    ensures
        summary is Ok,
        summary->Ok_0.filter_count == 18,
        summary->Ok_0.cache_hits == cached_among(old(cache)@, *seccomp_action, Thread::ALL@),
        exists|lookups: Seq<FilterLookup>| #[trigger]
            are_lookups(
                lookups,
                old(cache)@,
                *seccomp_action,
                Thread::ALL@,
                old(cache).spec_target(),
            ) && summary->Ok_0.build_us == total_build_us(lookups),
        summary->Ok_0.cache_hits == 18 ==> summary->Ok_0.build_us == 0 && *final(cache) == *old(
            cache,
        ),
        final(cache).wf(),
        final(cache).spec_target() == old(cache).spec_target(),
        final(cache)@ == after_lookups(
            old(cache)@,
            keys_of(*seccomp_action, Thread::ALL@),
            old(cache).spec_target(),
        ),
        final(cache)@.len() == old(cache)@.len() + 18 - summary->Ok_0.cache_hits,
{
    let ghost threads = Thread::ALL@;
    let ghost before = *cache;
    let ghost mut lookups: Seq<FilterLookup> = Seq::empty();
    let mut summary = PrecompileSummary::new();
    proof {
        law_all_lists_each_worker_once(Thread::VirtioBalloon);
        assert(threads.take(0) =~= Seq::empty());
        assert(keys_of(*seccomp_action, threads.take(0)) =~= Seq::empty());
        reveal(Seq::filter);
    }
    while summary.filter_count < 18
        invariant
            summary.wf(),
            threads == Thread::ALL@,
            threads.len() == 18,
            threads.no_duplicates(),
            cache.wf(),
            cache.spec_target() == before.spec_target(),
            cache@ == after_lookups(
                before@,
                keys_of(*seccomp_action, threads.take(summary.filter_count as int)),
                before.spec_target(),
            ),
            cache@.len() == before@.len() + summary.filter_count - summary.cache_hits,
            summary.cache_hits == cached_among(
                before@,
                *seccomp_action,
                threads.take(summary.filter_count as int),
            ),
            are_lookups(
                lookups,
                before@,
                *seccomp_action,
                threads.take(summary.filter_count as int),
                before.spec_target(),
            ),
            summary.build_us == total_build_us(lookups),
            summary.cache_hits == summary.filter_count ==> summary.build_us == 0 && *cache
                == before,
        decreases 18 - summary.filter_count,
    {
        let ghost n = summary.filter_count as int;
        let ghost taken = threads.take(n);
        let ghost next = threads.take(n + 1);
        let ghost key = (*seccomp_action, threads[n]);
        proof {
            let keys = keys_of(*seccomp_action, taken);
            lemma_after_lookups(before@, keys, before.spec_target(), key);
            if keys.contains(key) {
                let j = choose|j: int| 0 <= j < keys.len() && keys[j] == key;
                assert(threads[j] == threads[n]);
            }
            assert(next.drop_last() =~= taken);
            assert(keys_of(*seccomp_action, next).drop_last() =~= keys);
            assert(keys_of(*seccomp_action, next).last() == key);
            reveal(Seq::filter);
        }
        match precompile_next(cache, seccomp_action, Instant::now(), &mut summary) {
            Ok(lookup) => {
                proof {
                    let more = lookups.push(lookup);
                    assert(more.drop_last() =~= lookups);
                    lookups = more;
                }
            },
            Err(error) => {
                return Err(error);
            },
        }
    }
    assert(threads.take(18) =~= threads);
    Ok(summary)
}

/// Returns a copy of a worker's program, which is in the cache afterwards.
pub fn get_seccomp_filter(
    cache: &mut FilterCache,
    seccomp_action: &SeccompAction,
    thread_type: Thread,
) -> (program: Result<Vec<SockFilter>, Error>)
    requires
        old(cache).wf(),
    ensures
        program is Ok,
        confines(program->Ok_0@, *seccomp_action, thread_type, old(cache).spec_target()),
        program->Ok_0@.len() == 0 <==> *seccomp_action == SeccompAction::Allow,
        final(cache).wf(),
        final(cache).spec_target() == old(cache).spec_target(),
        is_cached(old(cache)@, (*seccomp_action, thread_type)) ==> *final(cache) == *old(cache),
        final(cache)@ == after_lookup(
            old(cache)@,
            (*seccomp_action, thread_type),
            old(cache).spec_target(),
        ),
{
    match get_cached_seccomp_filter(cache, seccomp_action, thread_type, Instant::now()) {
        Ok(lookup) => {
            let program: &Vec<SockFilter> = &lookup.program;
            Ok(program.clone())
        },
        Err(error) => Err(error),
    }
}

} // verus!
