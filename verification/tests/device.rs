use virtio_fs::events::{
    event_read, handle_event, queue_processed, queue_signaled, EventStep, QUEUE_AVAIL_EVENT,
};
use virtio_fs::fs::{
    ActivateError, ActivateStep, Activation, CachePolicy, Fs, NativeFsCache, NativeFsConfig,
    ServerConfig, ServerError, SnapshotError, State, VirtioFsConfig,
};
use virtio_fs::queue;
use virtio_fs::seccomp_filters::Thread;

type Error = queue::Error<u8, u16, u32>;

fn new_fs(tag: &str, access_platform_enabled: bool) -> Fs {
    Fs::new("_fs0".to_string(), tag, 3, 1024, access_platform_enabled, None)
}

#[test]
fn new_device_has_one_queue_more_than_requested() {
    let fs = new_fs("shared", false);
    assert_eq!(fs.id(), "_fs0");
    assert_eq!(fs.device_type(), 26);
    assert_eq!(fs.queue_max_sizes(), &vec![1024; 4]);
    assert_eq!(fs.common.paused_sync, Some(5));
    assert_eq!(fs.common.min_queues, 1);
    assert_eq!(fs.common.acked_features, 0);
    assert!(!fs.common.paused);
    assert_eq!(fs.config.num_request_queues, 3);
}

#[test]
fn device_without_request_queues_still_has_one_queue() {
    let fs = Fs::new("fs".to_string(), "", 0, 64, false, None);
    assert_eq!(fs.queue_max_sizes(), &vec![64]);
    assert_eq!(fs.common.paused_sync, Some(2));
}

#[test]
fn offered_features_depend_on_address_translation() {
    let always = (1u64 << 28) | (1 << 32) | (1 << 35) | (1 << 36) | (1 << 38);
    assert_eq!(new_fs("t", false).features(), always);
    assert_eq!(new_fs("t", true).features(), always | (1 << 33));
    assert_eq!(always, 0x59_1000_0000);
}

#[test]
fn short_tags_are_padded_and_long_ones_cut() {
    let tag = new_fs("shared", false).config.tag;
    assert_eq!(&tag[..6], b"shared");
    assert!(tag[6..].iter().all(|byte| *byte == 0));

    let long = "0123456789abcdefghijklmnopqrstuvwxyzABCDEF";
    assert_eq!(&new_fs(long, false).config.tag[..], &long.as_bytes()[..36]);

    let exact = &long[..36];
    assert_eq!(&new_fs(exact, false).config.tag[..], exact.as_bytes());

    let umlaut = new_fs("\u{e4}", false).config.tag;
    assert_eq!(&umlaut[..3], &[0xc3, 0xa4, 0]);
}

#[test]
fn configuration_space_is_the_tag_and_the_number_of_queues() {
    let mut config = VirtioFsConfig::default();
    assert_eq!(config.as_bytes(), vec![0; 40]);
    config.tag[0] = 7;
    config.tag[35] = 9;
    config.num_request_queues = 0x0403_0201;
    let bytes = config.as_bytes();
    assert_eq!(bytes.len(), 40);
    assert_eq!(bytes[0], 7);
    assert_eq!(&bytes[34..], &[0, 9, 1, 2, 3, 4]);
}

#[test]
fn request_queues_are_counted_in_32_bits() {
    let fs = Fs::new("fs".to_string(), "", 70_000, 64, false, None);
    assert_eq!(fs.config.num_request_queues, 70_000);
    assert_eq!(&fs.config.as_bytes()[36..], &[0x70, 0x11, 1, 0]);
}

#[test]
fn restored_device_is_the_one_of_the_snapshot() {
    let mut fs = new_fs("shared", true);
    fs.common.acked_features = 1 << 32;
    let state = fs.snapshot(Ok(vec![1, 2, 3])).unwrap_or_else(|_| panic!("no snapshot"));
    assert_eq!(state.backend_to_restore(), Some(&vec![1, 2, 3]));

    let restored = Fs::new("_fs0".to_string(), "other", 3, 1024, false, Some(state));
    assert_eq!(restored.features(), fs.features());
    assert_eq!(restored.common.acked_features, 1 << 32);
    assert_eq!(restored.config.as_bytes(), fs.config.as_bytes());
    assert!(restored.common.paused);
    assert_eq!(restored.queue_max_sizes(), &vec![1024; 4]);
}

#[test]
fn snapshot_needs_the_state_of_the_server() {
    let fs = new_fs("shared", false);
    let message = "Failed serializing native virtio-fs state: no space".to_string();
    match fs.snapshot(Err("no space".to_string())) {
        Err(error) => assert_eq!(error, SnapshotError { message }),
        Ok(_) => panic!("a snapshot without the server's state"),
    }
}

#[test]
fn empty_server_state_is_not_restored() {
    let state = State {
        avail_features: 1,
        acked_features: 0,
        config: VirtioFsConfig::default(),
        backend_state: vec![],
    };
    assert_eq!(state.backend_to_restore(), None);
}

fn activate(fs: &mut Fs, queue_indexes: Vec<usize>) -> Activation<&'static str> {
    match fs.activate(true, &queue_indexes) {
        Ok(activation) => activation,
        Err(_) => panic!("not activated"),
    }
}

#[test]
fn activation_needs_a_view_of_guest_memory() {
    let mut fs = new_fs("shared", false);
    match fs.activate::<String>(false, &vec![0, 1]) {
        Err(error) => assert_eq!(error, ActivateError::BadActivate),
        Ok(_) => panic!("activated"),
    }
    assert_eq!(fs.common.paused_sync, Some(5));
}

#[test]
fn activation_has_one_worker_for_each_queue() {
    let mut fs = new_fs("shared", false);
    let workers = activate(&mut fs, vec![0, 7, 12, 65_536 + 305]).workers;
    let names: Vec<&str> = workers.iter().map(|worker| worker.name.as_str()).collect();
    assert_eq!(names, vec!["_fs0_q0", "_fs0_q7", "_fs0_q12", "_fs0_q65841"]);
    let indexes: Vec<u16> = workers.iter().map(|worker| worker.queue_index).collect();
    assert_eq!(indexes, vec![0, 7, 12, 305]);
    assert!(workers.iter().all(|worker| worker.thread_type == Thread::VirtioFs));
    assert_eq!(fs.common.paused_sync, Some(5));
    assert!(activate(&mut fs, vec![]).workers.is_empty());
    assert_eq!(fs.common.paused_sync, Some(1));
}

#[test]
fn activation_starts_its_workers_one_by_one_and_is_reported() {
    let mut fs = new_fs("shared", false);
    let mut activation = activate(&mut fs, vec![3, 4]);
    assert_eq!(activation.step, ActivateStep::ActivateCommon);
    for index in [3, 4] {
        activation.next(Ok(()));
        assert_eq!(activation.step, ActivateStep::DupEvents);
        activation.next(Ok(()));
        assert_eq!(activation.step, ActivateStep::SpawnWorker);
        assert_eq!(activation.worker().unwrap().queue_index, index);
    }
    activation.next(Ok(()));
    assert_eq!(activation.step, ActivateStep::ReportActivated);
    assert!(activation.worker().is_none());
    assert_eq!(activation.spawned, 2);
    activation.next(Ok(()));
    assert_eq!(activation.step, ActivateStep::Finish);
    activation.next(Err("late"));
    assert_eq!(activation.step, ActivateStep::Finish);
}

#[test]
fn device_without_queues_is_activated_without_workers() {
    let mut activation = activate(&mut new_fs("shared", false), vec![]);
    activation.next(Ok(()));
    assert_eq!(activation.step, ActivateStep::ReportActivated);
}

#[test]
fn activation_stops_at_the_first_failure() {
    let outcome = |done: usize| {
        let mut activation = activate(&mut new_fs("shared", false), vec![3, 4]);
        for _ in 0..done {
            activation.next(Ok(()));
        }
        activation.next(Err("refused"));
        activation.next(Ok(()));
        assert_eq!(activation.step, ActivateStep::Fail { error: "refused" });
        activation.spawned
    };
    assert_eq!(outcome(0), 0);
    assert_eq!(outcome(1), 0);
    assert_eq!(outcome(2), 0);
    assert_eq!(outcome(3), 1);
    assert_eq!(outcome(4), 1);
}

#[test]
fn defaults_share_nothing_for_caching() {
    assert_eq!(NativeFsCache::default(), NativeFsCache::Never);
    let config = NativeFsConfig::default();
    assert_eq!(config.shared_dir, std::path::PathBuf::new());
    assert_eq!(config.cache, NativeFsCache::Never);
    assert!(!config.read_only && !config.xattr && !config.announce_submounts);
    assert_eq!(config.clone(), config);
}

#[test]
fn cached_configuration_is_a_duplicate() {
    let config = NativeFsConfig {
        shared_dir: std::path::PathBuf::from("/srv"),
        cache: NativeFsCache::Auto,
        read_only: true,
        xattr: true,
        announce_submounts: false,
    };
    assert_eq!(config.clone(), config);
    assert_ne!(config, NativeFsConfig::default());
}

#[test]
fn cache_setting_selects_the_policy() {
    assert_eq!(CachePolicy::from(NativeFsCache::Auto), CachePolicy::Auto);
    assert_eq!(CachePolicy::from(NativeFsCache::Always), CachePolicy::Always);
    assert_eq!(CachePolicy::from(NativeFsCache::Never), CachePolicy::Never);
}

#[test]
fn server_follows_the_configuration() {
    let mut config = NativeFsConfig {
        shared_dir: std::path::PathBuf::from("/srv"),
        cache: NativeFsCache::Always,
        read_only: true,
        xattr: true,
        announce_submounts: false,
    };
    match Fs::create_server(&config, Some("/srv/real")) {
        Ok(ServerConfig::ReadOnly(server)) => {
            assert_eq!(server.root_dir, "/srv/real");
            assert_eq!(server.cache_policy, CachePolicy::Always);
            assert!(server.xattr);
            assert!(!server.announce_submounts);
        }
        _ => panic!("not a read-only server"),
    }
    config.read_only = false;
    config.announce_submounts = true;
    match Fs::create_server(&config, Some("/srv/real")) {
        Ok(ServerConfig::ReadWrite(server)) => assert!(server.announce_submounts),
        _ => panic!("not a read-write server"),
    }
}

#[test]
fn server_needs_a_path_that_is_text() {
    match Fs::create_server(&NativeFsConfig::default(), None) {
        Err(error) => {
            assert_eq!(error, ServerError::PathNotUtf8);
            assert_eq!(error.message(), "Native virtio-fs path is not valid UTF-8");
        }
        Ok(_) => panic!("a server without a path"),
    }
}

#[test]
fn queue_event_is_read_and_the_queue_served() {
    assert_eq!(QUEUE_AVAIL_EVENT, 16);
    assert_eq!(handle_event(16), EventStep::ReadEvent);
    assert_eq!(handle_event(0x5_0010), EventStep::ReadEvent);
    assert_eq!(event_read(Ok(())), EventStep::ProcessQueue);
}

#[test]
fn guest_is_told_only_of_chains_given_back() {
    assert_eq!(queue_processed(Ok::<bool, Error>(true)), EventStep::SignalQueue);
    assert_eq!(queue_processed(Ok::<bool, Error>(false)), EventStep::Finish);
    assert_eq!(queue_signaled(Ok(())), EventStep::Finish);
}

#[test]
fn failures_stop_the_worker_with_a_message() {
    let fail = |message: &str| EventStep::Fail { message: message.to_string() };
    assert_eq!(handle_event(17), fail("Unexpected virtio-fs event: 17"));
    assert_eq!(handle_event(0x1_0000), fail("Unexpected virtio-fs event: 0"));
    assert_eq!(handle_event(65_535), fail("Unexpected virtio-fs event: 65535"));
    assert_eq!(
        event_read(Err("would block".to_string())),
        fail("Failed reading queue event: would block")
    );
    assert_eq!(
        queue_processed(Err(Error::QueueReader(3))),
        fail("Failed processing virtio-fs queue: Failed creating queue reader")
    );
    assert_eq!(
        queue_signaled(Err("closed".to_string())),
        fail("Failed signaling virtio-fs queue: closed")
    );
}
