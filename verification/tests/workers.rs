use seccompiler::BackendError;
use std::sync::Arc;
use std::time::Instant;
use virtio_fs::bpf::{SeccompAction, SockFilter};
use virtio_fs::queue::{
    self, dirty_ranges, find_region, Descriptor, DirtyRange, MemoryRegion,
};
use virtio_fs::seccomp_filters::{Error as FilterError, FilterCache, FilterLookup, Thread};
use virtio_fs::seccomp_rules::Target;
use virtio_fs::syscalls::Arch;
use virtio_fs::thread_helper::{
    exit_event_cloned, filter_looked_up, needs_reset_reason, spawn_virtio_thread, thread_spawned,
    SpawnError, SpawnEvent, SpawnStep, WorkerEvent, WorkerStart, WorkerStep,
};

type Error = queue::Error<u8, &'static str, u32>;
type QueueEvent = queue::QueueEvent<u8, &'static str, u32>;
type QueueRun = queue::QueueRun<u8, &'static str, u32>;
type QueueStep = queue::QueueStep<u8, &'static str, u32>;

fn run(events: Vec<QueueEvent>) -> QueueStep {
    let mut run = QueueRun::new();
    for event in events {
        run.process_queue(event);
    }
    run.step
}

fn served(head_index: u16, len: usize) -> Vec<QueueEvent> {
    vec![
        QueueEvent::Chain { head_index },
        QueueEvent::Ready,
        QueueEvent::Ready,
        QueueEvent::Ready,
        QueueEvent::Replied { len },
        QueueEvent::Ready,
    ]
}

fn served_until(count: usize, last: QueueEvent) -> QueueStep {
    let mut events = served(2, 8);
    events.truncate(count);
    events.push(last);
    run(events)
}

#[test]
fn empty_queue_gives_nothing_back() {
    assert_eq!(QueueRun::new().step, QueueStep::PopChain);
    assert_eq!(run(vec![QueueEvent::NoChain]), QueueStep::Finish { used_descs: false });
}

#[test]
fn chains_are_served_in_order_and_given_back() {
    let steps = vec![
        QueueStep::MakeReader { head_index: 4 },
        QueueStep::MakeWriter { head_index: 4 },
        QueueStep::MarkDirty { head_index: 4 },
        QueueStep::HandleMessage { head_index: 4 },
        QueueStep::AddUsed { head_index: 4, len: 80 },
        QueueStep::PopChain,
    ];
    let mut queue_run = QueueRun::new();
    for (event, step) in served(4, 80).into_iter().zip(steps) {
        queue_run.process_queue(event);
        assert_eq!(queue_run.step, step);
    }
    let mut events = served(4, 80);
    events.append(&mut served(9, 0));
    events.push(QueueEvent::NoChain);
    assert_eq!(run(events), QueueStep::Finish { used_descs: true });
}

#[test]
fn reply_lengths_are_cut_to_32_bits() {
    let mut events = served(1, 0x3_0000_0010);
    events.truncate(5);
    assert_eq!(run(events), QueueStep::AddUsed { head_index: 1, len: 16 });
}

#[test]
fn each_failure_stops_the_queue_with_its_error() {
    assert_eq!(
        served_until(1, QueueEvent::BadDescriptors(5)),
        QueueStep::Fail { error: Error::QueueReader(5) }
    );
    assert_eq!(
        served_until(2, QueueEvent::BadDescriptors(6)),
        QueueStep::Fail { error: Error::QueueWriter(6) }
    );
    assert_eq!(
        served_until(4, QueueEvent::NotHandled("no")),
        QueueStep::Fail { error: Error::ProcessQueue("no") }
    );
    assert_eq!(
        served_until(5, QueueEvent::NotTaken(7)),
        QueueStep::Fail { error: Error::QueueAddUsed(7) }
    );
}

#[test]
fn stopped_queues_stay_stopped() {
    let stopped = vec![QueueEvent::NoChain, QueueEvent::Chain { head_index: 1 }];
    assert_eq!(run(stopped), QueueStep::Finish { used_descs: false });
    assert_eq!(served_until(0, QueueEvent::Ready), QueueStep::PopChain);
}

#[test]
fn queue_errors_have_messages() {
    assert_eq!(Error::QueueReader(1).message(), "Failed creating queue reader");
    assert_eq!(Error::QueueWriter(1).message(), "Failed creating queue writer");
    assert_eq!(Error::ProcessQueue("").message(), "Failed processing virtio-fs request");
    assert_eq!(Error::QueueAddUsed(1).message(), "Failed adding used queue entry");
}

#[test]
fn writable_descriptors_dirty_the_region_they_start_in() {
    let regions = vec![
        MemoryRegion { start: 0, len: 0x1000 },
        MemoryRegion { start: 0x1000, len: 0x1000 },
        MemoryRegion { start: 0x1_0000, len: 0x2000 },
    ];
    let writable = vec![
        Descriptor { addr: 0x1_0100, len: 64 },
        Descriptor { addr: 0x5000, len: 64 },
        Descriptor { addr: 0xfff, len: 2 },
        Descriptor { addr: 0x1000, len: 1 },
        Descriptor { addr: 0x1_2000, len: 1 },
    ];
    assert_eq!(
        dirty_ranges(&regions, &writable),
        vec![
            DirtyRange { region: 2, offset: 0x100, len: 64 },
            DirtyRange { region: 0, offset: 0xfff, len: 2 },
            DirtyRange { region: 1, offset: 0, len: 1 },
        ]
    );
    assert_eq!(dirty_ranges(&regions, &vec![]), vec![]);
}

#[test]
fn addresses_are_found_in_the_region_that_holds_them() {
    let top = MemoryRegion { start: u64::MAX - 15, len: 16 };
    let regions = vec![MemoryRegion { start: 0x1000, len: 0x1000 }, top];
    assert_eq!(find_region(&regions, 0xfff), None);
    assert_eq!(find_region(&regions, 0x1000), Some(0));
    assert_eq!(find_region(&regions, 0x1fff), Some(0));
    assert_eq!(find_region(&regions, 0x2000), None);
    assert_eq!(find_region(&regions, u64::MAX), Some(1));
}

fn start(cache: &mut FilterCache, action: SeccompAction) -> WorkerStart {
    let (start, step) = spawn_virtio_thread(cache, &action, Thread::VirtioFs, Instant::now());
    assert!(matches!(step, SpawnStep::CloneExitEvent::<String>));
    start.unwrap()
}

#[test]
fn worker_starts_with_a_filter_from_the_cache() {
    let mut cache = FilterCache::new(Target { arch: Arch::X86_64, gnu: true, sev_snp: false });
    let first = start(&mut cache, SeccompAction::Trap);
    assert_eq!(first.worker_type, "virtio-fs");
    assert!(!first.seccomp_cache_hit);
    assert_eq!(WorkerStep::first(&first.program), WorkerStep::ApplyFilter);

    let second = start(&mut cache, SeccompAction::Trap);
    assert!(second.seccomp_cache_hit);
    assert_eq!(second.seccomp_filter_build_us, 0);
    assert_eq!(second.program, first.program);

    let free = start(&mut cache, SeccompAction::Allow);
    assert_eq!(WorkerStep::first(&free.program), WorkerStep::Run);
}

#[test]
fn worker_starts_as_its_lookup_tells() {
    let program = Arc::new(vec![SockFilter { code: 6, jt: 0, jf: 0, k: 7 }]);
    let lookup = FilterLookup::compiled(program.clone(), 500, 11_500, 12_000);
    let start = WorkerStart::new(lookup, Thread::VirtioNetCtl);
    assert!(Arc::ptr_eq(&start.program, &program));
    assert_eq!(start.worker_type, "virtio-net-ctl");
    assert!(!start.seccomp_cache_hit);
    assert_eq!((start.seccomp_filter_build_us, start.seccomp_filter_lookup_us), (11, 12));
}

#[test]
fn threads_need_a_filter() {
    let lookup = FilterLookup::cached(Arc::new(vec![]), 8_000);
    let (start, step) = filter_looked_up::<String>(Ok(lookup), Thread::VirtioRng);
    assert_eq!(start.unwrap().seccomp_filter_lookup_us, 8);
    assert!(matches!(step, SpawnStep::CloneExitEvent));

    let error = || FilterError::Backend(BackendError::IdenticalActions);
    let (start, step) = filter_looked_up::<String>(Err(error()), Thread::VirtioRng);
    assert!(start.is_none());
    assert!(matches!(
        step,
        SpawnStep::Fail {
            error: SpawnError::CreateSeccompFilter(FilterError::Backend(
                BackendError::IdenticalActions
            ))
        }
    ));
}

#[test]
fn threads_need_the_event_that_stops_the_vmm() {
    let (event, step): (Option<u8>, SpawnStep<String>) = exit_event_cloned(Ok(7));
    assert_eq!(event, Some(7));
    assert!(matches!(step, SpawnStep::SpawnThread));
    let (event, step): (Option<u8>, _) = exit_event_cloned(Err("no more".to_string()));
    assert_eq!(event, None);
    assert!(matches!(
        step,
        SpawnStep::Fail { error: SpawnError::CloneEventFd(error) } if error == "no more"
    ));
}

#[test]
fn started_threads_are_kept() {
    let mut threads = vec![1];
    let step: SpawnStep<String> = thread_spawned(Ok(2), &mut threads);
    assert!(matches!(step, SpawnStep::Finish));
    assert_eq!(threads, vec![1, 2]);
    assert!(matches!(
        thread_spawned(Err("full".to_string()), &mut threads),
        SpawnStep::Fail { error: SpawnError::ThreadSpawn(error) } if error == "full"
    ));
    assert_eq!(threads, vec![1, 2]);
}

#[test]
fn thread_start_stops_at_the_first_failure() {
    let failed: SpawnStep<u8> = SpawnStep::LookUpFilter
        .next(SpawnEvent::Done)
        .next(SpawnEvent::Refused(4))
        .next(SpawnEvent::Done)
        .next(SpawnEvent::Refused(5));
    assert!(matches!(failed, SpawnStep::Fail { error: SpawnError::CloneEventFd(4) }));
    let waiting: SpawnStep<u8> = SpawnStep::LookUpFilter.next(SpawnEvent::Refused(4));
    assert!(matches!(waiting, SpawnStep::LookUpFilter));
}

#[test]
fn worker_runs_only_once_its_filter_is_applied() {
    let filter = WorkerStep::ApplyFilter;
    assert_eq!(filter.next(WorkerEvent::Done), WorkerStep::Run);
    assert_eq!(filter.next(WorkerEvent::Failed), WorkerStep::SignalExit);
}

#[test]
fn worker_reports_how_it_ended() {
    assert_eq!(WorkerStep::Run.next(WorkerEvent::Done), WorkerStep::Exit);
    assert_eq!(WorkerStep::Run.next(WorkerEvent::Failed), WorkerStep::MarkNeedsReset);
    assert_eq!(WorkerStep::Run.next(WorkerEvent::Panicked), WorkerStep::SignalExit);
    assert_eq!(WorkerStep::SignalExit.next(WorkerEvent::Done), WorkerStep::Exit);
    assert_eq!(WorkerStep::MarkNeedsReset.next(WorkerEvent::Done), WorkerStep::Exit);
}

#[test]
fn device_needs_a_reset_for_its_workers_error() {
    assert_eq!(
        needs_reset_reason("_fs0_q1", "Wait(..)"),
        "_fs0_q1: worker exited with error: Wait(..)"
    );
}
