//! What holds of the worker filters and of the filter cache as a whole.

#[allow(unused_imports)]
use crate::bpf::{bpf_program, SeccompAction, SockFilter};
#[allow(unused_imports)]
use crate::seccomp_filters::{
    after_lookup, after_lookups, are_lookups, cached_among, confines, is_cached, is_lookup, keys_of,
    law_all_lists_each_worker_once, lemma_after_lookup, lemma_after_lookups, rule_map,
    total_build_us, worker_rules, FilterCache, FilterLookup, Thread,
};
#[allow(unused_imports)]
use crate::seccomp_rules::{
    allows, any_holds, are_ioctl_rules, common_table, entries, entry_is_sound, equals, holds,
    ioctls_of,
    lemma_table_is_sound, numbered, own_table, table, SeccompRule, Target, AF_UNIX,
};
#[allow(unused_imports)]
use crate::syscalls::{lemma_numbers_are_distinct, Arch, Syscall};
#[allow(unused_imports)]
use vstd::prelude::*;

verus! {

/// The entry at `i` is the last one for its number.
pub open spec fn is_last_entry(list: Seq<(i64, Seq<SeccompRule>)>, i: int) -> bool {
    &&& 0 <= i < list.len()
    &&& forall|j: int| i < j < list.len() ==> (#[trigger] list[j]).0 != list[i].0
}

/// A list of rules gives a system call number the rules of the last entry for it, and gives no
/// other number any.
pub proof fn law_last_entry_wins(list: Seq<(i64, Seq<SeccompRule>)>)
    ensures
        forall|number: i64| #[trigger]
            rule_map(list).contains_key(number) ==> exists|i: int| #[trigger]
                is_last_entry(list, i) && list[i].0 == number,
        forall|i: int| #[trigger]
            is_last_entry(list, i) ==> rule_map(list).contains_key(list[i].0) && rule_map(
                list,
            )[list[i].0] == list[i].1,
    decreases list.len(),
{
    if list.len() > 0 {
        let rest = list.drop_last();
        let end = list.len() - 1;
        law_last_entry_wins(rest);
        assert(is_last_entry(list, end));
        assert forall|number: i64| #[trigger] rule_map(list).contains_key(number) implies exists|
            i: int,
        | #[trigger] is_last_entry(list, i) && list[i].0 == number by {
            if number != list[end].0 {
                assert(rule_map(rest).contains_key(number));
                let i = choose|i: int| #[trigger] is_last_entry(rest, i) && rest[i].0 == number;
                assert forall|j: int| i < j < list.len() implies (#[trigger] list[j]).0
                    != list[i].0 by {
                    if j < end {
                        assert(rest[j] == list[j]);
                    }
                }
                assert(is_last_entry(list, i));
            }
        }
        assert forall|i: int| #[trigger] is_last_entry(list, i) implies rule_map(
            list,
        ).contains_key(list[i].0) && rule_map(list)[list[i].0] == list[i].1 by {
            if i < end {
                assert forall|j: int| i < j < rest.len() implies (#[trigger] rest[j]).0
                    != rest[i].0 by {
                    assert(rest[j] == list[j]);
                }
                assert(is_last_entry(rest, i));
                assert(list[end].0 != list[i].0);
            }
        }
    }
}

/// A list has a last entry for every number that it has an entry for.
proof fn lemma_some_entry_is_last(list: Seq<(i64, Seq<SeccompRule>)>, i: int) -> (last: int)
    requires
        0 <= i < list.len(),
    ensures
        i <= last,
        is_last_entry(list, last),
        list[last].0 == list[i].0,
    decreases list.len() - i,
{
    if exists|j: int| i < j < list.len() && (#[trigger] list[j]).0 == list[i].0 {
        let j = choose|j: int| i < j < list.len() && (#[trigger] list[j]).0 == list[i].0;
        lemma_some_entry_is_last(list, j)
    } else {
        i
    }
}

/// A worker's filter has rules for a system call only if the worker's table lists it, and those
/// of one of the entries for it.
pub proof fn law_only_listed_calls_are_allowed(thread: Thread, target: Target, number: i64)
    requires
        worker_rules(thread, target).contains_key(number),
    ensures
        exists|i: int|
            0 <= i < table(thread, target).len() && (#[trigger] table(thread, target)[i]).0
                .spec_number(target.arch) == Some(number) && worker_rules(thread, target)[number]
                == table(thread, target)[i].1,
{
    let list = numbered(table(thread, target), target.arch);
    law_last_entry_wins(list);
    lemma_table_is_sound(thread, target);
    let i = choose|i: int| #[trigger] is_last_entry(list, i) && list[i].0 == number;
    assert(table(thread, target)[i].0.spec_number(target.arch) is Some);
}

/// A worker's filter has rules for every system call that the worker's table lists.
pub proof fn law_listed_calls_have_rules(thread: Thread, target: Target, i: int)
    requires
        0 <= i < table(thread, target).len(),
    ensures
        worker_rules(thread, target).contains_key(
            table(thread, target)[i].0.spec_number(target.arch)->0,
        ),
{
    let list = numbered(table(thread, target), target.arch);
    law_last_entry_wins(list);
    let last = lemma_some_entry_is_last(list, i);
}

/// A worker's filter allows a system call exactly if the worker's table lists it, and lists it
/// without rules or with one that holds of the arguments.
pub proof fn law_allowed_exactly_if_listed(
    thread: Thread,
    target: Target,
    number: i64,
    args: Seq<u64>,
)
    ensures
        allows(worker_rules(thread, target), number, args) <==> exists|i: int|
            0 <= i < table(thread, target).len() && (#[trigger] table(thread, target)[i]).0
                .spec_number(target.arch) == Some(number) && any_holds(
                table(thread, target)[i].1,
                args,
            ),
{
    let calls = table(thread, target);
    lemma_table_is_sound(thread, target);
    if allows(worker_rules(thread, target), number, args) {
        law_only_listed_calls_are_allowed(thread, target, number);
    }
    assert forall|i: int|
        0 <= i < calls.len() && (#[trigger] calls[i]).0.spec_number(target.arch) == Some(number)
            && any_holds(calls[i].1, args) implies allows(
        worker_rules(thread, target),
        number,
        args,
    ) by {
        law_listed_calls_have_rules(thread, target, i);
        let entry = lemma_rules_come_from_an_entry(thread, target, calls[i].0, number);
        assert(entry_is_sound(calls[i], target.arch, ioctls_of(thread, target)));
        assert(entry.1 == calls[i].1);
    }
}

proof fn lemma_common_calls_have_no_rules(target: Target, i: int)
    requires
        0 <= i < common_table(target).len(),
    ensures
        common_table(target)[i].1.len() == 0,
{
}

/// Every worker may make the common system calls whatever their arguments, also where its own
/// table restricts them.
pub proof fn law_common_calls_are_allowed_everywhere(
    thread: Thread,
    target: Target,
    i: int,
    args: Seq<u64>,
)
    requires
        0 <= i < common_table(target).len(),
    ensures
        allows(
            worker_rules(thread, target),
            common_table(target)[i].0.spec_number(target.arch)->0,
            args,
        ),
{
    let own = own_table(thread, target);
    let list = numbered(table(thread, target), target.arch);
    law_last_entry_wins(list);
    assert(table(thread, target)[own.len() + i] == common_table(target)[i]);
    let last = lemma_some_entry_is_last(list, own.len() + i);
    assert(table(thread, target)[last] == common_table(target)[last - own.len()]);
    lemma_common_calls_have_no_rules(target, last - own.len());
}

/// The rules that a worker's filter has for a system call are those of an entry for that call.
proof fn lemma_rules_come_from_an_entry(
    thread: Thread,
    target: Target,
    call: Syscall,
    number: i64,
) -> (entry: (Syscall, Seq<SeccompRule>))
    requires
        call.spec_number(target.arch) == Some(number),
        worker_rules(thread, target).contains_key(number),
    ensures
        entry.0 == call,
        entry.1 == worker_rules(thread, target)[number],
        entry_is_sound(entry, target.arch, ioctls_of(thread, target)),
        are_ioctl_rules(ioctls_of(thread, target)),
{
    law_only_listed_calls_are_allowed(thread, target, number);
    let i = choose|i: int|
        0 <= i < table(thread, target).len() && (#[trigger] table(thread, target)[i]).0.spec_number(
            target.arch,
        ) == Some(number) && worker_rules(thread, target)[number] == table(thread, target)[i].1;
    if table(thread, target)[i].0 != call {
        lemma_numbers_are_distinct(table(thread, target)[i].0, call, target.arch);
    }
    lemma_table_is_sound(thread, target);
    table(thread, target)[i]
}

/// No worker may open any socket but a Unix domain socket.
pub proof fn law_sockets_are_unix_sockets(
    thread: Thread,
    target: Target,
    number: i64,
    args: Seq<u64>,
)
    requires
        Syscall::Socket.spec_number(target.arch) == Some(number),
        allows(worker_rules(thread, target), number, args),
    ensures
        args[0] % 0x1_0000_0000 == AF_UNIX,
{
    let entry = lemma_rules_come_from_an_entry(thread, target, Syscall::Socket, number);
}

/// No worker may make an `ioctl` but those whose numbers its table lists.
pub proof fn law_ioctls_are_restricted(
    thread: Thread,
    target: Target,
    number: i64,
    args: Seq<u64>,
)
    requires
        Syscall::Ioctl.spec_number(target.arch) == Some(number),
        allows(worker_rules(thread, target), number, args),
    ensures
        exists|i: int|
            0 <= i < worker_rules(thread, target)[number].len() && args[1] % 0x1_0000_0000 == (
            #[trigger] worker_rules(thread, target)[number][i]).value % 0x1_0000_0000,
{
    let entry = lemma_rules_come_from_an_entry(thread, target, Syscall::Ioctl, number);
    let i = choose|i: int| 0 <= i < entry.1.len() && holds(#[trigger] entry.1[i], args);
    assert(entry.1[i] == equals(1, entry.1[i].value));
}

/// A program that confines a worker is compiled from rules that allow, of the calls that the
/// target's architecture has, exactly those that the worker's table for that same target lists
/// without rules or with one that holds; that have no number of any other call; and that are
/// checked for that same architecture. What they do not allow meets with the given action.
pub proof fn law_program_allows_exactly_what_the_table_lists(
    program: Seq<SockFilter>,
    action: SeccompAction,
    thread: Thread,
    target: Target,
) -> (rules: Map<i64, Seq<SeccompRule>>)
    requires
        confines(program, action, thread, target),
        action != SeccompAction::Allow,
    ensures
        program.len() > 0,
        program == bpf_program(
            rules,
            (
                action,
                SeccompAction::Allow,
                match target.arch {
                    Arch::X86_64 => "x86_64"@,
                    Arch::Aarch64 => "aarch64"@,
                    Arch::Riscv64 => "riscv64"@,
                },
            ),
        )->0,
        rules == worker_rules(thread, target),
        forall|call: Syscall, number: i64, args: Seq<u64>|
            #![trigger call.spec_number(target.arch), allows(rules, number, args)]
            call.spec_number(target.arch) == Some(number) ==> (allows(rules, number, args)
                <==> exists|i: int|
                0 <= i < table(thread, target).len() && (#[trigger] table(thread, target)[i]).0
                    == call && any_holds(table(thread, target)[i].1, args)),
        forall|number: i64| #[trigger]
            rules.contains_key(number) ==> exists|i: int|
                0 <= i < table(thread, target).len() && (#[trigger] table(thread, target)[i]).0
                    .spec_number(target.arch) == Some(number),
{
    let rules = worker_rules(thread, target);
    let calls = table(thread, target);
    assert forall|call: Syscall, number: i64, args: Seq<u64>|
        #![trigger call.spec_number(target.arch), allows(rules, number, args)]
        call.spec_number(target.arch) == Some(number) implies (allows(rules, number, args)
        <==> exists|i: int|
        0 <= i < calls.len() && (#[trigger] calls[i]).0 == call && any_holds(
            calls[i].1,
            args,
        )) by {
        law_allowed_exactly_if_listed(thread, target, number, args);
        assert forall|i: int|
            0 <= i < calls.len() && (#[trigger] calls[i]).0.spec_number(target.arch) == Some(
                number,
            ) implies calls[i].0 == call by {
            if calls[i].0 != call {
                lemma_numbers_are_distinct(calls[i].0, call, target.arch);
            }
        }
    }
    assert forall|number: i64| #[trigger] rules.contains_key(number) implies exists|i: int|
        0 <= i < calls.len() && (#[trigger] calls[i]).0.spec_number(target.arch) == Some(
            number,
        ) by {
        law_only_listed_calls_are_allowed(thread, target, number);
    }
    rules
}

/// Where every call is let through, a worker's program is empty.
pub proof fn law_program_is_empty_where_all_is_allowed(
    program: Seq<SockFilter>,
    thread: Thread,
    target: Target,
)
    requires
        confines(program, SeccompAction::Allow, thread, target),
    ensures
        program == Seq::<SockFilter>::empty(),
{
}

/// A list of system calls keeps each number and its rules.
pub proof fn law_entries_keep_numbers_and_rules(rules: Seq<(i64, Vec<SeccompRule>)>)
    ensures
        entries(rules).len() == rules.len(),
        forall|i: int|
            0 <= i < rules.len() ==> (#[trigger] entries(rules)[i]).0 == rules[i].0 && entries(
                rules,
            )[i].1 == rules[i].1@,
{
}

/// A table is numbered call by call, each with its number on that architecture, and keeps its
/// rules.
pub proof fn law_tables_are_numbered_for_their_architecture(
    calls: Seq<(Syscall, Seq<SeccompRule>)>,
    arch: Arch,
)
    ensures
        numbered(calls, arch).len() == calls.len(),
        forall|i: int|
            0 <= i < calls.len() && calls[i].0.spec_number(arch) is Some ==> {
                &&& calls[i].0.spec_number(arch) == Some((#[trigger] numbered(calls, arch)[i]).0)
                &&& numbered(calls, arch)[i].1 == calls[i].1
            },
{
}

/// A list of entries gives no rules if it is empty, and one more entry gives its number its rules
/// and changes no other.
pub proof fn law_rules_grow_entry_by_entry(
    list: Seq<(i64, Seq<SeccompRule>)>,
    entry: (i64, Seq<SeccompRule>),
    other: i64,
)
    requires
        other != entry.0,
    ensures
        !rule_map(Seq::<(i64, Seq<SeccompRule>)>::empty()).contains_key(other),
        rule_map(list.push(entry)).contains_key(entry.0),
        rule_map(list.push(entry))[entry.0] == entry.1,
        rule_map(list.push(entry)).contains_key(other) == rule_map(list).contains_key(other),
        rule_map(list).contains_key(other) ==> rule_map(list.push(entry))[other] == rule_map(
            list,
        )[other],
{
    assert(list.push(entry).drop_last() =~= list);
}

/// The names that the workers go by in logs.
pub proof fn law_workers_have_their_names()
    ensures
        Thread::VirtioBalloon.spec_name() == "virtio-balloon"@,
        Thread::VirtioBlock.spec_name() == "virtio-block"@,
        Thread::VirtioConsole.spec_name() == "virtio-console"@,
        Thread::VirtioIommu.spec_name() == "virtio-iommu"@,
        Thread::VirtioMem.spec_name() == "virtio-mem"@,
        Thread::VirtioNet.spec_name() == "virtio-net"@,
        Thread::VirtioNetCtl.spec_name() == "virtio-net-ctl"@,
        Thread::VirtioPmem.spec_name() == "virtio-pmem"@,
        Thread::VirtioRng.spec_name() == "virtio-rng"@,
        Thread::VirtioRtc.spec_name() == "virtio-rtc"@,
        Thread::VirtioFs.spec_name() == "virtio-fs"@,
        Thread::VirtioVhostBlock.spec_name() == "virtio-vhost-block"@,
        Thread::VirtioVhostFs.spec_name() == "virtio-vhost-fs"@,
        Thread::VirtioGenericVhostUser.spec_name() == "virtio-generic-vhost-user"@,
        Thread::VirtioVhostNet.spec_name() == "virtio-vhost-net"@,
        Thread::VirtioVhostNetCtl.spec_name() == "virtio-vhost-net-ctl"@,
        Thread::VirtioVsock.spec_name() == "virtio-vsock"@,
        Thread::VirtioWatchdog.spec_name() == "virtio-watchdog"@,
{
}

/// A program is in the cache exactly if some entry holds it for that action and that worker, both.
pub proof fn law_cached_programs_have_an_entry(
    filters: Seq<(SeccompAction, Thread, Seq<SockFilter>)>,
    key: (SeccompAction, Thread),
)
    ensures
        is_cached(filters, key) <==> exists|program: Seq<SockFilter>| #[trigger]
            filters.contains((key.0, key.1, program)),
{
    if is_cached(filters, key) {
        let i = choose|i: int|
            0 <= i < filters.len() && (#[trigger] filters[i]).0 == key.0 && filters[i].1 == key.1;
        assert(filters.contains((key.0, key.1, filters[i].2)));
    }
    if exists|program: Seq<SockFilter>| #[trigger] filters.contains((key.0, key.1, program)) {
        let program = choose|program: Seq<SockFilter>| #[trigger]
            filters.contains((key.0, key.1, program));
        let i = choose|i: int| 0 <= i < filters.len() && filters[i] == (key.0, key.1, program);
        assert(filters[i].0 == key.0);
    }
}

/// A lookup of a program that is in the cache changes nothing; of any other, it puts one entry
/// behind the others, which confines that worker if anything does.
pub proof fn law_lookups_add_one_entry(
    filters: Seq<(SeccompAction, Thread, Seq<SockFilter>)>,
    key: (SeccompAction, Thread),
    target: Target,
    program: Seq<SockFilter>,
)
    requires
        confines(program, key.0, key.1, target),
    ensures
        (exists|i: int|
            0 <= i < filters.len() && (#[trigger] filters[i]).0 == key.0 && filters[i].1 == key.1)
            ==> after_lookup(filters, key, target) == filters,
        (forall|i: int|
            0 <= i < filters.len() ==> (#[trigger] filters[i]).0 != key.0 || filters[i].1 != key.1)
            ==> after_lookup(filters, key, target) == filters.push((key.0, key.1, program)),
{
}

/// Lookups one after the other are none, or all but the last and then the last.
pub proof fn law_lookups_follow_each_other(
    filters: Seq<(SeccompAction, Thread, Seq<SockFilter>)>,
    keys: Seq<(SeccompAction, Thread)>,
    key: (SeccompAction, Thread),
    target: Target,
)
    ensures
        after_lookups(filters, Seq::empty(), target) == filters,
        after_lookups(filters, keys.push(key), target) == after_lookup(
            after_lookups(filters, keys, target),
            key,
            target,
        ),
{
    assert(keys.push(key).drop_last() =~= keys);
}

/// Workers in the cache are counted one by one.
pub proof fn law_cached_workers_are_counted(
    filters: Seq<(SeccompAction, Thread, Seq<SockFilter>)>,
    action: SeccompAction,
    threads: Seq<Thread>,
    thread: Thread,
)
    ensures
        cached_among(filters, action, Seq::empty()) == 0,
        cached_among(filters, action, threads.push(thread)) == cached_among(
            filters,
            action,
            threads,
        ) + (if exists|i: int|
            0 <= i < filters.len() && (#[trigger] filters[i]).0 == action && filters[i].1
                == thread {
            1nat
        } else {
            0nat
        }),
{
    reveal(Seq::filter);
    assert(threads.push(thread).drop_last() =~= threads);
}

/// The keys of an action and workers are that action with each worker, in order.
pub proof fn law_keys_are_the_action_with_each_worker(action: SeccompAction, threads: Seq<Thread>)
    ensures
        keys_of(action, threads).len() == threads.len(),
        forall|i: int|
            0 <= i < threads.len() ==> #[trigger] keys_of(action, threads)[i] == (
                action,
                threads[i],
            ),
{
}

/// Build times add up, lookup by lookup.
pub proof fn law_build_times_add_up(lookups: Seq<FilterLookup>, lookup: FilterLookup)
    ensures
        total_build_us(Seq::empty()) == 0,
        total_build_us(lookups.push(lookup)) == total_build_us(lookups) + lookup.build_us,
{
    assert(lookups.push(lookup).drop_last() =~= lookups);
}

/// What a lookup tells is true: a hit is one exactly if an entry was there, took no time to build,
/// and no more time is spent to build than in all; and the program confines the worker.
pub proof fn law_lookups_tell_the_truth(
    lookups: Seq<FilterLookup>,
    filters: Seq<(SeccompAction, Thread, Seq<SockFilter>)>,
    action: SeccompAction,
    threads: Seq<Thread>,
    target: Target,
    i: int,
)
    requires
        are_lookups(lookups, filters, action, threads, target),
        0 <= i < threads.len(),
    ensures
        lookups.len() == threads.len(),
        lookups[i].cache_hit <==> exists|j: int|
            0 <= j < filters.len() && (#[trigger] filters[j]).0 == action && filters[j].1
                == threads[i],
        lookups[i].cache_hit ==> lookups[i].build_us == 0,
        lookups[i].build_us <= lookups[i].lookup_us,
        confines(lookups[i].program@, action, threads[i], target),
{
    assert(is_lookup(lookups[i], filters, (action, threads[i]), target));
}

/// Lookups one after the other: the caches before and after each, what was looked up, whether it
/// was a hit, and the program that it gave.
pub open spec fn is_history(
    caches: Seq<FilterCache>,
    keys: Seq<(SeccompAction, Thread)>,
    hits: Seq<bool>,
    programs: Seq<Seq<SockFilter>>,
    target: Target,
) -> bool {
    &&& caches.len() == keys.len() + 1
    &&& hits.len() == keys.len()
    &&& programs.len() == keys.len()
    &&& caches[0]@.len() == 0
    &&& forall|i: int|
        0 <= i < keys.len() ==> {
            &&& hits[i] == is_cached(caches[i]@, #[trigger] keys[i])
            &&& confines(programs[i], keys[i].0, keys[i].1, target)
            &&& caches[i + 1]@ == after_lookup(caches[i]@, keys[i], target)
        }
}

/// From an empty cache on, a lookup is a hit exactly if there was an earlier one for the same
/// action and worker, so that no program is compiled twice; and it gives the same program as that
/// one did.
pub proof fn law_lookup_hits_exactly_if_repeated(
    caches: Seq<FilterCache>,
    keys: Seq<(SeccompAction, Thread)>,
    hits: Seq<bool>,
    programs: Seq<Seq<SockFilter>>,
    target: Target,
    i: int,
)
    requires
        is_history(caches, keys, hits, programs, target),
        0 <= i < keys.len(),
    ensures
        hits[i] <==> exists|j: int| 0 <= j < i && #[trigger] keys[j] == keys[i],
        forall|j: int|
            0 <= j < keys.len() && #[trigger] keys[j] == keys[i] ==> programs[j] == programs[i],
{
    lemma_cache_of_history(caches, keys, hits, programs, target, i);
    lemma_after_lookups(Seq::empty(), keys.take(i), target, keys[i]);
    if keys.take(i).contains(keys[i]) {
        let j = choose|j: int| 0 <= j < i && keys.take(i)[j] == keys[i];
        assert(keys[j] == keys[i]);
    }
    if exists|j: int| 0 <= j < i && #[trigger] keys[j] == keys[i] {
        let j = choose|j: int| 0 <= j < i && #[trigger] keys[j] == keys[i];
        assert(keys.take(i)[j] == keys[i]);
    }
}

proof fn lemma_cache_of_history(
    caches: Seq<FilterCache>,
    keys: Seq<(SeccompAction, Thread)>,
    hits: Seq<bool>,
    programs: Seq<Seq<SockFilter>>,
    target: Target,
    i: int,
)
    requires
        is_history(caches, keys, hits, programs, target),
        0 <= i <= keys.len(),
    ensures
        caches[i]@ == after_lookups(Seq::empty(), keys.take(i), target),
    decreases i,
{
    if i == 0 {
        assert(caches[0]@ =~= Seq::empty());
    } else {
        lemma_cache_of_history(caches, keys, hits, programs, target, i - 1);
        assert(keys.take(i).drop_last() =~= keys.take(i - 1));
        assert(keys.take(i).last() == keys[i - 1]);
    }
}

/// A lookup changes nothing for any other action or worker.
pub proof fn law_lookups_do_not_disturb_each_other(
    filters: Seq<(SeccompAction, Thread, Seq<SockFilter>)>,
    key: (SeccompAction, Thread),
    target: Target,
    other: (SeccompAction, Thread),
)
    requires
        other != key,
    ensures
        is_cached(after_lookup(filters, key, target), other) == is_cached(filters, other),
        filters.is_prefix_of(after_lookup(filters, key, target)),
{
    lemma_after_lookup(filters, key, target, other);
}

/// After every worker's program has been compiled for an action, each lookup for it is a hit and
/// so is each of another round.
pub proof fn law_precompiled_workers_hit(
    filters: Seq<(SeccompAction, Thread, Seq<SockFilter>)>,
    action: SeccompAction,
    thread: Thread,
    target: Target,
)
    ensures
        ({
            let after = after_lookups(filters, keys_of(action, Thread::ALL@), target);
            &&& is_cached(after, (action, thread))
            &&& after_lookup(after, (action, thread), target) == after
            &&& cached_among(after, action, Thread::ALL@) == Thread::ALL@.len()
        }),
{
    let after = after_lookups(filters, keys_of(action, Thread::ALL@), target);
    assert forall|t: Thread| is_cached(after, (action, t)) by {
        law_all_lists_each_worker_once(t);
        let i = choose|i: int| 0 <= i < Thread::ALL@.len() && Thread::ALL@[i] == t;
        assert(keys_of(action, Thread::ALL@)[i] == (action, t));
        lemma_after_lookups(filters, keys_of(action, Thread::ALL@), target, (action, t));
    }
    lemma_all_cached(after, action, Thread::ALL@);
}

proof fn lemma_all_cached(
    filters: Seq<(SeccompAction, Thread, Seq<SockFilter>)>,
    action: SeccompAction,
    threads: Seq<Thread>,
)
    requires
        forall|t: Thread| is_cached(filters, (action, t)),
    ensures
        cached_among(filters, action, threads) == threads.len(),
    decreases threads.len(),
{
    reveal(Seq::filter);
    if threads.len() > 0 {
        lemma_all_cached(filters, action, threads.drop_last());
        assert(is_cached(filters, (action, threads.last())));
    }
}

} // verus!
