//! The native virtio-fs device: its configuration space, its features, its queues and what a
//! snapshot of it holds.

use crate::seccomp_filters::Thread;
use crate::text::{append_decimal, join};
#[allow(unused_imports)]
use crate::text::{decimal, lemma_decimal_is_injective, lemma_decimal_is_not_empty};
#[allow(unused_imports)]
use crate::words::{low_half, low_word};
use crate::words::{to_low_half, to_low_word};
use std::path::PathBuf;
#[allow(unused_imports)]
use vstd::prelude::*;
#[allow(unused_imports)]
use vstd::string::StringExecFns;

verus! {

/// How many queues the device has besides its request queues.
pub const NUM_QUEUE_OFFSET: usize = 1;

/// The length of the tag in the configuration space.
pub const VIRTIO_FS_TAG_LEN: usize = 36;

/// The device type number of virtio-fs.
pub const VIRTIO_FS_DEVICE_TYPE: u32 = 26;

// Feature bits, see include/uapi/linux/virtio_ring.h and virtio_config.h in the kernel code.
pub const VIRTIO_F_RING_INDIRECT_DESC: u32 = 28;

pub const VIRTIO_F_VERSION_1: u32 = 32;

pub const VIRTIO_F_ACCESS_PLATFORM: u32 = 33;

pub const VIRTIO_F_IN_ORDER: u32 = 35;

pub const VIRTIO_F_ORDER_PLATFORM: u32 = 36;

pub const VIRTIO_F_NOTIFICATION_DATA: u32 = 38;

/// `std::path::PathBuf`: a path on the host.
#[verifier::external_type_specification]
#[verifier::external_body]
pub struct ExPathBuf(PathBuf);

/// `PathBuf::new` gives an empty path. A path is opaque here, so nothing more is said of it.
pub assume_specification[ PathBuf::new ]() -> (path: PathBuf);

/// `PathBuf::clone` gives a duplicate of a path.
pub assume_specification[ <PathBuf as Clone>::clone ](path: &PathBuf) -> (duplicate: PathBuf)
    ensures
        duplicate == *path,
;

/// How much of the shared directory the guest may cache.
#[derive(Clone, Copy, Debug, PartialEq, Eq, Structural)]
pub enum NativeFsCache {
    Auto,
    Always,
    Never,
}

impl Default for NativeFsCache {
    fn default() -> (cache: Self)
        ensures
            cache == NativeFsCache::Never,
    {
        NativeFsCache::Never
    }
}

/// The cache policies of the file system server.
#[derive(Clone, Copy, Debug, PartialEq, Eq, Structural)]
pub enum CachePolicy {
    Never,
    Metadata,
    Auto,
    Always,
}

/// The server's policy for what the guest may cache.
pub open spec fn cache_policy(cache: NativeFsCache) -> CachePolicy {
    match cache {
        NativeFsCache::Auto => CachePolicy::Auto,
        NativeFsCache::Always => CachePolicy::Always,
        NativeFsCache::Never => CachePolicy::Never,
    }
}

impl From<NativeFsCache> for CachePolicy {
    fn from(value: NativeFsCache) -> (policy: Self) {
        match value {
            NativeFsCache::Auto => Self::Auto,
            NativeFsCache::Always => Self::Always,
            NativeFsCache::Never => Self::Never,
        }
    }
}

impl vstd::std_specs::convert::FromSpecImpl<NativeFsCache> for CachePolicy {
    open spec fn obeys_from_spec() -> bool {
        true
    }

    open spec fn from_spec(value: NativeFsCache) -> Self {
        cache_policy(value)
    }
}

/// What directory the device shares with the guest, and how.
#[derive(Debug, PartialEq, Eq)]
pub struct NativeFsConfig {
    pub shared_dir: PathBuf,
    pub cache: NativeFsCache,
    pub read_only: bool,
    pub xattr: bool,
    pub announce_submounts: bool,
}

impl Clone for NativeFsConfig {
    fn clone(&self) -> (duplicate: Self)
        ensures
            duplicate == *self,
    {
        NativeFsConfig {
            shared_dir: self.shared_dir.clone(),
            cache: self.cache,
            read_only: self.read_only,
            xattr: self.xattr,
            announce_submounts: self.announce_submounts,
        }
    }
}

impl Default for NativeFsConfig {
    fn default() -> (config: Self)
        ensures
            config.cache == NativeFsCache::Never,
            !config.read_only,
            !config.xattr,
            !config.announce_submounts,
    {
        NativeFsConfig {
            shared_dir: PathBuf::new(),
            cache: NativeFsCache::default(),
            read_only: false,
            xattr: false,
            announce_submounts: false,
        }
    }
}

/// How the file system server is set up, where that differs from its defaults.
pub struct PassthroughConfig {
    pub cache_policy: CachePolicy,
    pub root_dir: String,
    pub xattr: bool,
    pub announce_submounts: bool,
}

/// Which file system server the device runs.
pub enum ServerConfig {
    ReadWrite(PassthroughConfig),
    ReadOnly(PassthroughConfig),
}

impl ServerConfig {
    /// The set-up of the server, whichever it is.
    pub open spec fn passthrough(self) -> PassthroughConfig {
        match self {
            ServerConfig::ReadWrite(config) => config,
            ServerConfig::ReadOnly(config) => config,
        }
    }
}

/// Why the device has no file system server.
#[derive(Clone, Copy, Debug, PartialEq, Eq, Structural)]
pub enum ServerError {
    PathNotUtf8,
}

impl ServerError {
    /// Returns what went wrong, in words.
    pub fn message(&self) -> (message: &'static str)
        ensures
            message@ == "Native virtio-fs path is not valid UTF-8"@,
    {
        "Native virtio-fs path is not valid UTF-8"
    }
}

/// The device's configuration space.
#[derive(Clone, Copy)]
pub struct VirtioFsConfig {
    pub tag: [u8; VIRTIO_FS_TAG_LEN],
    pub num_request_queues: u32,
}

impl Default for VirtioFsConfig {
    fn default() -> (config: Self)
        ensures
            config.tag@ == Seq::new(36, |i: int| 0u8),
            config.num_request_queues == 0,
    {
        let config = VirtioFsConfig { tag: [0; VIRTIO_FS_TAG_LEN], num_request_queues: 0 };
        assert(config.tag@ =~= Seq::new(36, |i: int| 0u8));
        config
    }
}

/// A number as four bytes, the lowest first.
pub open spec fn le_bytes(value: u32) -> Seq<u8> {
    seq![
        (value % 256) as u8,
        (value / 256 % 256) as u8,
        (value / 65536 % 256) as u8,
        (value / 16777216) as u8,
    ]
}

impl VirtioFsConfig {
    /// Returns the configuration space as the guest reads it: the tag, and behind it the number
    /// of request queues, lowest byte first.
    pub fn as_bytes(&self) -> (bytes: Vec<u8>)
        ensures
            bytes@ == self.tag@ + le_bytes(self.num_request_queues),
            bytes@.len() == 40,
            forall|i: int| 0 <= i < 36 ==> #[trigger] bytes@[i] == self.tag@[i],
            bytes@[36] + 0x100 * bytes@[37] + 0x1_0000 * bytes@[38] + 0x100_0000 * bytes@[39]
                == self.num_request_queues,
    {
        let mut bytes: Vec<u8> = Vec::new();
        let mut i: usize = 0;
        while i < VIRTIO_FS_TAG_LEN
            invariant
                i <= VIRTIO_FS_TAG_LEN,
                bytes@ == self.tag@.take(i as int),
            decreases VIRTIO_FS_TAG_LEN - i,
        {
            bytes.push(self.tag[i]);
            i += 1;
            assert(bytes@ =~= self.tag@.take(i as int));
        }
        let value = self.num_request_queues;
        bytes.push((value % 256) as u8);
        bytes.push((value / 256 % 256) as u8);
        bytes.push((value / 65536 % 256) as u8);
        bytes.push((value / 16777216) as u8);
        assert(bytes@ =~= self.tag@ + le_bytes(self.num_request_queues));
        bytes
    }
}

/// What a snapshot of the device holds.
pub struct State {
    pub avail_features: u64,
    pub acked_features: u64,
    pub config: VirtioFsConfig,
    /// The file system server's own state.
    pub backend_state: Vec<u8>,
}

impl State {
    /// Returns the file system server's state, if the server has anything to restore.
    pub fn backend_to_restore(&self) -> (backend_state: Option<&Vec<u8>>)
        ensures
            backend_state == (if self.backend_state@.len() == 0 {
                None
            } else {
                Some(&self.backend_state)
            }),
    {
        if self.backend_state.len() == 0 {
            None
        } else {
            Some(&self.backend_state)
        }
    }
}

/// The part of the device's state that every virtio device has.
pub struct VirtioCommon {
    pub device_type: u32,
    pub avail_features: u64,
    pub acked_features: u64,
    /// The largest size of each queue.
    pub queue_sizes: Vec<u16>,
    /// How many threads meet when the device is paused: its workers and the one that pauses it.
    pub paused_sync: Option<usize>,
    /// How few queues the device can work with.
    pub min_queues: u16,
    pub paused: bool,
}

/// A native virtio-fs device.
pub struct Fs {
    pub common: VirtioCommon,
    pub id: String,
    pub config: VirtioFsConfig,
}

/// A thread that serves one queue of the device.
pub struct FsWorker {
    pub name: String,
    pub queue_index: u16,
    pub thread_type: Thread,
}

/// Why the device cannot be activated.
#[derive(Clone, Copy, Debug, PartialEq, Eq, Structural)]
pub enum ActivateError {
    BadActivate,
}

/// Why there is no snapshot of the device.
#[derive(Debug, PartialEq, Eq)]
pub struct SnapshotError {
    pub message: String,
}

/// What has to be done next to activate a device. `E` tells why it could not be done.
#[derive(Debug, PartialEq, Eq)]
pub enum ActivateStep<E> {
    /// Activate what every virtio device has.
    ActivateCommon,
    /// Duplicate the event descriptors that stop and pause the next worker.
    DupEvents,
    /// Start the next worker.
    SpawnWorker,
    /// Report that the device is activated.
    ReportActivated,
    /// Nothing: the device is activated.
    Finish,
    /// Stop with an error. The workers that were started stay.
    Fail { error: E },
}

/// How far the activation of a device has come.
pub struct Activation<E> {
    /// The threads that serve the queues.
    pub workers: Vec<FsWorker>,
    /// How many of them were started.
    pub spawned: usize,
    pub step: ActivateStep<E>,
}

impl<E> Activation<E> {
    /// Whether nothing has been done yet.
    pub open spec fn is_start(self) -> bool {
        self.spawned == 0 && self.step == ActivateStep::<E>::ActivateCommon
    }

    /// The step once `spawned` workers have been started.
    pub open spec fn step_for(self, spawned: usize) -> ActivateStep<E> {
        if spawned < self.workers@.len() {
            ActivateStep::DupEvents
        } else {
            ActivateStep::ReportActivated
        }
    }

    /// The activation after the next step came to `result`. The first step that fails ends it; a
    /// report cannot fail.
    pub open spec fn after(self, result: Result<(), E>) -> Self {
        match (self.step, result) {
            (ActivateStep::Finish, _) => self,
            (ActivateStep::Fail { .. }, _) => self,
            (ActivateStep::ReportActivated, _) => Activation { step: ActivateStep::Finish, ..self },
            (_, Err(error)) => Activation { step: ActivateStep::Fail { error }, ..self },
            (ActivateStep::ActivateCommon, Ok(_)) => Activation {
                step: self.step_for(self.spawned),
                ..self
            },
            (ActivateStep::DupEvents, Ok(_)) => Activation {
                step: ActivateStep::SpawnWorker,
                ..self
            },
            (ActivateStep::SpawnWorker, Ok(_)) => if self.spawned < self.workers@.len() {
                Activation {
                    spawned: (self.spawned + 1) as usize,
                    step: self.step_for((self.spawned + 1) as usize),
                    ..self
                }
            } else {
                Activation { step: ActivateStep::ReportActivated, ..self }
            },
        }
    }

    /// Returns the worker to be started next.
    pub fn worker(&self) -> (worker: Option<&FsWorker>)
        ensures
            worker == (if self.spawned < self.workers@.len() {
                Some(&self.workers@[self.spawned as int])
            } else {
                None
            }),
    {
        if self.spawned < self.workers.len() {
            Some(&self.workers[self.spawned])
        } else {
            None
        }
    }

    /// Takes in what the next step came to.
    pub fn next(&mut self, result: Result<(), E>)
        ensures
            *final(self) == old(self).after(result),
    {
        match self.step {
            ActivateStep::Finish => {
                return;
            },
            ActivateStep::Fail { .. } => {
                return;
            },
            ActivateStep::ReportActivated => {
                self.step = ActivateStep::Finish;
                return;
            },
            _ => {},
        }
        if let Err(error) = result {
            self.step = ActivateStep::Fail { error };
            return;
        }
        match self.step {
            ActivateStep::DupEvents => {
                self.step = ActivateStep::SpawnWorker;
                return;
            },
            ActivateStep::SpawnWorker => {
                if self.spawned < self.workers.len() {
                    self.spawned += 1;
                }
            },
            _ => {},
        }
        if self.spawned < self.workers.len() {
            self.step = ActivateStep::DupEvents;
        } else {
            self.step = ActivateStep::ReportActivated;
        }
    }
}

/// The activation after its steps came to the given results.
pub open spec fn activation_after<E>(
    start: Activation<E>,
    results: Seq<Result<(), E>>,
) -> Activation<E>
    decreases results.len(),
{
    if results.len() == 0 {
        start
    } else {
        activation_after(start, results.drop_last()).after(results.last())
    }
}

/// The features that a new device offers.
pub open spec fn offered_features(access_platform_enabled: bool) -> u64 {
    let always = (1u64 << VIRTIO_F_RING_INDIRECT_DESC) | (1u64 << VIRTIO_F_VERSION_1) | (1u64
        << VIRTIO_F_IN_ORDER) | (1u64 << VIRTIO_F_ORDER_PLATFORM) | (1u64
        << VIRTIO_F_NOTIFICATION_DATA);
    if access_platform_enabled {
        always | (1u64 << VIRTIO_F_ACCESS_PLATFORM)
    } else {
        always
    }
}

/// The first bytes of a tag, as many as fit, and zeros behind them.
pub open spec fn padded_tag(tag: Seq<u8>) -> Seq<u8> {
    Seq::new(
        36,
        |i: int|
            if i < tag.len() {
                tag[i]
            } else {
                0
            },
    )
}

/// The name of the thread that serves a queue.
pub open spec fn worker_name(id: Seq<char>, queue_index: usize) -> Seq<char> {
    id + "_q"@ + decimal(queue_index as nat)
}

impl Fs {
    /// What a snapshot of the device holds, given the file system server's state.
    pub open spec fn spec_snapshot(self, backend_state: Vec<u8>) -> State {
        State {
            avail_features: self.common.avail_features,
            acked_features: self.common.acked_features,
            config: self.config,
            backend_state,
        }
    }

    /// Whether the device has the features and the configuration space of a snapshot.
    pub open spec fn restores(self, state: State) -> bool {
        &&& self.common.avail_features == state.avail_features
        &&& self.common.acked_features == state.acked_features
        &&& self.config == state.config
    }

    /// Returns a device with `req_num_queues` request queues. With a `state` it is the device of
    /// that snapshot, paused; else it is a new one, with the given tag.
    pub fn new(
        id: String,
        tag: &str,
        req_num_queues: usize,
        queue_size: u16,
        access_platform_enabled: bool,
        state: Option<State>,
    ) -> (fs: Self)
        requires
            2 * (req_num_queues + NUM_QUEUE_OFFSET) <= isize::MAX,
        ensures
            fs.id@ == id@,
            fs.common.device_type == VIRTIO_FS_DEVICE_TYPE,
            fs.common.min_queues == 1,
            fs.common.queue_sizes@ == Seq::new(
                (req_num_queues + NUM_QUEUE_OFFSET) as nat,
                |i: int| queue_size,
            ),
            fs.common.paused_sync == Some((req_num_queues + NUM_QUEUE_OFFSET + 1) as usize),
            fs.common.paused == state is Some,
            match state {
                Some(state) => {
                    &&& fs.restores(state)
                    &&& fs.common.avail_features == state.avail_features
                    &&& fs.common.acked_features == state.acked_features
                    &&& fs.config == state.config
                },
                None => {
                    &&& fs.common.avail_features == offered_features(access_platform_enabled)
                    &&& fs.common.acked_features == 0
                    &&& fs.config.tag@ == padded_tag(vstd::utf8::encode_utf8(tag@))
                    &&& fs.config.num_request_queues == low_word(req_num_queues)
                    &&& fs.config.num_request_queues as nat == req_num_queues as nat
                        % 0x1_0000_0000
                },
            },
    {
        let num_queues: usize = NUM_QUEUE_OFFSET + req_num_queues;
        let paused = state.is_some();
        let (avail_features, acked_features, config): (u64, u64, VirtioFsConfig) = match state {
            Some(state) => (state.avail_features, state.acked_features, state.config),
            None => {
                let mut avail_features: u64 = (1u64 << VIRTIO_F_RING_INDIRECT_DESC) | (1u64
                    << VIRTIO_F_VERSION_1) | (1u64 << VIRTIO_F_IN_ORDER) | (1u64
                    << VIRTIO_F_ORDER_PLATFORM) | (1u64 << VIRTIO_F_NOTIFICATION_DATA);
                if access_platform_enabled {
                    avail_features = avail_features | (1u64 << VIRTIO_F_ACCESS_PLATFORM);
                }
                let mut config = VirtioFsConfig::default();
                config.tag = Self::pad_tag(tag.as_bytes());
                config.num_request_queues = to_low_word(req_num_queues);
                (avail_features, 0, config)
            },
        };
        let queue_sizes = vec![queue_size; num_queues];
        assert(queue_sizes@ =~= Seq::new(num_queues as nat, |i: int| queue_size));
        Fs {
            common: VirtioCommon {
                device_type: VIRTIO_FS_DEVICE_TYPE,
                avail_features,
                acked_features,
                queue_sizes,
                paused_sync: Some(num_queues + 1),
                min_queues: 1,
                paused,
            },
            id,
            config,
        }
    }

    /// Cuts a tag down to the length it has in the configuration space, or pads it with zeros.
    fn pad_tag(tag: &[u8]) -> (padded: [u8; VIRTIO_FS_TAG_LEN])
        ensures
            padded@ == padded_tag(tag@),
    {
        let mut padded: [u8; VIRTIO_FS_TAG_LEN] = [0; VIRTIO_FS_TAG_LEN];
        let mut i: usize = 0;
        while i < tag.len() && i < VIRTIO_FS_TAG_LEN
            invariant
                i <= tag@.len(),
                i <= VIRTIO_FS_TAG_LEN,
                forall|j: int| 0 <= j < i ==> padded@[j] == tag@[j],
                forall|j: int| i <= j < VIRTIO_FS_TAG_LEN ==> padded@[j] == 0,
            decreases VIRTIO_FS_TAG_LEN - i,
        {
            padded[i] = tag[i];
            i += 1;
        }
        assert(padded@ =~= padded_tag(tag@));
        padded
    }

    /// Decides which file system server the device runs, given the full path of the shared
    /// directory, or `None` for a path that is no text.
    pub fn create_server(config: &NativeFsConfig, root_dir: Option<&str>) -> (server: Result<
        ServerConfig,
        ServerError,
    >)
        ensures
            match root_dir {
                None => server == Err::<ServerConfig, ServerError>(ServerError::PathNotUtf8),
                Some(root_dir) => {
                    &&& server is Ok
                    &&& server->Ok_0 is ReadOnly <==> config.read_only
                    &&& server->Ok_0.passthrough().cache_policy == cache_policy(config.cache)
                    &&& server->Ok_0.passthrough().root_dir@ == root_dir@
                    &&& server->Ok_0.passthrough().xattr == config.xattr
                    &&& server->Ok_0.passthrough().announce_submounts == config.announce_submounts
                },
            },
    {
        match root_dir {
            None => Err(ServerError::PathNotUtf8),
            Some(root_dir) => {
                let fs_config = PassthroughConfig {
                    cache_policy: CachePolicy::from(config.cache),
                    root_dir: root_dir.to_owned(),
                    xattr: config.xattr,
                    announce_submounts: config.announce_submounts,
                };
                if config.read_only {
                    Ok(ServerConfig::ReadOnly(fs_config))
                } else {
                    Ok(ServerConfig::ReadWrite(fs_config))
                }
            },
        }
    }

    /// Returns what a snapshot of the device holds, given the file system server's state, or why
    /// that could not be serialized.
    pub fn snapshot(&self, backend_state: Result<Vec<u8>, String>) -> (state: Result<
        State,
        SnapshotError,
    >)
        ensures
            match backend_state {
                Ok(backend_state) => {
                    &&& state == Ok::<State, SnapshotError>(self.spec_snapshot(backend_state))
                    &&& state->Ok_0.avail_features == self.common.avail_features
                    &&& state->Ok_0.acked_features == self.common.acked_features
                    &&& state->Ok_0.config == self.config
                    &&& state->Ok_0.backend_state@ == backend_state@
                },
                Err(error) => state is Err && state->Err_0.message@
                    == "Failed serializing native virtio-fs state: "@ + error@,
            },
    {
        match backend_state {
            Ok(backend_state) => Ok(
                State {
                    avail_features: self.common.avail_features,
                    acked_features: self.common.acked_features,
                    config: self.config,
                    backend_state,
                },
            ),
            Err(error) => Err(
                SnapshotError {
                    message: join("Failed serializing native virtio-fs state: ", &error),
                },
            ),
        }
    }

    /// Readies the device for the given queues and starts its activation, with the threads that
    /// serve them, one for each, in order. Without a view of guest memory the device stays as it
    /// is.
    pub fn activate<E>(&mut self, has_memory_view: bool, queue_indexes: &Vec<usize>) -> (
        activation: Result<Activation<E>, ActivateError>)
        requires
            queue_indexes@.len() < usize::MAX,
        ensures
            !has_memory_view ==> activation == Err::<Activation<E>, ActivateError>(
                ActivateError::BadActivate,
            ) && *final(self) == *old(self),
            has_memory_view ==> {
                &&& activation is Ok
                &&& activation->Ok_0.is_start()
                &&& activation->Ok_0.workers@.len() == queue_indexes@.len()
                &&& forall|i: int|
                    #![trigger activation->Ok_0.workers@[i]]
                    0 <= i < queue_indexes@.len() ==> {
                        let worker = activation->Ok_0.workers@[i];
                        &&& worker.name@ == worker_name(old(self).id@, queue_indexes@[i])
                        &&& worker.queue_index == low_half(queue_indexes@[i] as u64)
                        &&& worker.queue_index as nat == queue_indexes@[i] as nat % 0x1_0000
                        &&& worker.thread_type == Thread::VirtioFs
                    }
                &&& final(self).id == old(self).id
                &&& final(self).config == old(self).config
                &&& final(self).common == (VirtioCommon {
                    paused_sync: Some((queue_indexes@.len() + 1) as usize),
                    ..old(self).common
                })
            },
    {
        if !has_memory_view {
            return Err(ActivateError::BadActivate);
        }
        self.common.paused_sync = Some(queue_indexes.len() + 1);
        let mut workers: Vec<FsWorker> = Vec::new();
        let mut i: usize = 0;
        while i < queue_indexes.len()
            invariant
                i <= queue_indexes@.len(),
                workers@.len() == i,
                self.id == old(self).id,
                self.config == old(self).config,
                self.common == (VirtioCommon {
                    paused_sync: Some((queue_indexes@.len() + 1) as usize),
                    ..old(self).common
                }),
                forall|j: int|
                    #![trigger workers@[j]]
                    0 <= j < i ==> {
                        &&& workers@[j].name@ == worker_name(old(self).id@, queue_indexes@[j])
                        &&& workers@[j].queue_index == low_half(queue_indexes@[j] as u64)
                        &&& workers@[j].queue_index as nat == queue_indexes@[j] as nat % 0x1_0000
                        &&& workers@[j].thread_type == Thread::VirtioFs
                    },
            decreases queue_indexes@.len() - i,
        {
            let queue_index: usize = queue_indexes[i];
            let mut name = self.id.clone();
            name.append("_q");
            append_decimal(&mut name, queue_index);
            workers.push(
                FsWorker {
                    name,
                    queue_index: to_low_half(queue_index as u64),
                    thread_type: Thread::VirtioFs,
                },
            );
            i += 1;
        }
        Ok(Activation { workers, spawned: 0, step: ActivateStep::ActivateCommon })
    }

    /// Returns the device type number of virtio-fs.
    pub fn device_type(&self) -> (device_type: u32)
        ensures
            device_type == self.common.device_type,
    {
        self.common.device_type
    }

    /// Returns the largest size of each queue.
    pub fn queue_max_sizes(&self) -> (sizes: &Vec<u16>)
        ensures
            *sizes == self.common.queue_sizes,
    {
        &self.common.queue_sizes
    }

    /// Returns the features that the device offers.
    pub fn features(&self) -> (features: u64)
        ensures
            features == self.common.avail_features,
    {
        self.common.avail_features
    }

    /// Returns the name of the device.
    pub fn id(&self) -> (id: String)
        ensures
            id@ == self.id@,
    {
        self.id.clone()
    }
}

/// A device that is restored from a snapshot has the features and the configuration space of the
/// device the snapshot was taken of, and the next snapshot of it holds the same again.
pub proof fn law_restore_undoes_snapshot(fs: Fs, restored: Fs, backend_state: Vec<u8>)
    requires
        restored.restores(fs.spec_snapshot(backend_state)),
    ensures
        restored.common.avail_features == fs.common.avail_features,
        restored.common.acked_features == fs.common.acked_features,
        restored.config == fs.config,
        restored.spec_snapshot(backend_state) == fs.spec_snapshot(backend_state),
{
}

/// The guest reads back the whole tag, and zeros behind it, unless the tag is too long; then it
/// reads the start of it.
pub proof fn law_configuration_space_holds_the_tag(tag: Seq<u8>)
    ensures
        padded_tag(tag).len() == VIRTIO_FS_TAG_LEN,
        tag.len() <= VIRTIO_FS_TAG_LEN ==> tag.is_prefix_of(padded_tag(tag)),
        tag.len() > VIRTIO_FS_TAG_LEN ==> padded_tag(tag).is_prefix_of(tag),
        forall|i: int| tag.len() <= i < VIRTIO_FS_TAG_LEN ==> padded_tag(tag)[i] == 0,
{
}

/// The configuration space can be read back from its bytes: no two have the same.
pub proof fn law_configuration_space_can_be_read_back(first: VirtioFsConfig, second: VirtioFsConfig)
    requires
        first.tag@ + le_bytes(first.num_request_queues) == second.tag@ + le_bytes(
            second.num_request_queues,
        ),
    ensures
        first.tag@ == second.tag@,
        first.num_request_queues == second.num_request_queues,
{
    let bytes = first.tag@ + le_bytes(first.num_request_queues);
    assert(first.tag@ =~= bytes.take(36));
    assert(second.tag@ =~= bytes.take(36));
    assert(le_bytes(first.num_request_queues) =~= bytes.skip(36));
    assert(le_bytes(second.num_request_queues) =~= bytes.skip(36));
    lemma_le_bytes_add_up(first.num_request_queues);
    lemma_le_bytes_add_up(second.num_request_queues);
}

proof fn lemma_le_bytes_add_up(value: u32)
    ensures
        value == le_bytes(value)[0] + 256 * le_bytes(value)[1] + 65536 * le_bytes(value)[2]
            + 16777216 * le_bytes(value)[3],
{
    law_bytes_add_up(value);
}

/// A number is written as four bytes, of which the first counts ones, the second 256s, and so on.
pub proof fn law_bytes_add_up(value: u32)
    ensures
        le_bytes(value).len() == 4,
        value == le_bytes(value)[0] + 0x100 * le_bytes(value)[1] + 0x1_0000 * le_bytes(value)[2]
            + 0x100_0000 * le_bytes(value)[3],
{
}

/// A worker's thread has the device's name, `_q` and the number of its queue.
pub proof fn law_worker_names_tell_device_and_queue(id: Seq<char>, queue_index: usize)
    ensures
        worker_name(id, queue_index) == id + "_q"@ + decimal(queue_index as nat),
        id.is_prefix_of(worker_name(id, queue_index)),
        worker_name(id, queue_index).len() > id.len() + 2,
        worker_name(id, queue_index)[id.len() as int] == '_',
        worker_name(id, queue_index)[id.len() as int + 1] == 'q',
        queue_index < 10 ==> worker_name(id, queue_index)[id.len() as int + 2] == (0x30
            + queue_index) as char,
{
    reveal_strlit("_q");
    lemma_decimal_is_not_empty(queue_index as nat);
    assert(id.is_prefix_of(worker_name(id, queue_index)));
}

/// A snapshot holds the device's features and configuration space and the server's state, as they
/// are; and a device that is restored from one has them, as they are.
pub proof fn law_snapshots_hold_the_device(fs: Fs, backend_state: Vec<u8>, state: State)
    ensures
        fs.spec_snapshot(backend_state).avail_features == fs.common.avail_features,
        fs.spec_snapshot(backend_state).acked_features == fs.common.acked_features,
        fs.spec_snapshot(backend_state).config == fs.config,
        fs.spec_snapshot(backend_state).backend_state == backend_state,
        fs.restores(state) <==> fs.common.avail_features == state.avail_features
            && fs.common.acked_features == state.acked_features && fs.config == state.config,
{
}

/// What the guest may cache selects the policy of the same name.
pub proof fn law_cache_policies_have_the_same_name()
    ensures
        cache_policy(NativeFsCache::Auto) == CachePolicy::Auto,
        cache_policy(NativeFsCache::Always) == CachePolicy::Always,
        cache_policy(NativeFsCache::Never) == CachePolicy::Never,
{
}

/// A server is set up as its configuration says, whichever server it is.
pub proof fn law_servers_hold_their_configuration(config: PassthroughConfig)
    ensures
        ServerConfig::ReadOnly(config).passthrough() == config,
        ServerConfig::ReadWrite(config).passthrough() == config,
{
}

/// Each step of an activation is followed by the one that is due: the common part first, then two
/// steps for each worker, the report when none is left, and the end. The first that fails stops
/// it, a report cannot fail, and an activation that has ended stays as it is.
pub proof fn law_activation_steps_follow_each_other<E>(
    activation: Activation<E>,
    result: Result<(), E>,
)
    requires
        activation.spawned <= activation.workers.len(),
    ensures
        ({
            let next = activation.after(result);
            let left = activation.workers@.len() - activation.spawned;
            &&& next.workers == activation.workers
            &&& match activation.step {
                ActivateStep::ActivateCommon => {
                    &&& next.spawned == activation.spawned
                    &&& result is Ok && left > 0 ==> next.step is DupEvents
                    &&& result is Ok && left == 0 ==> next.step is ReportActivated
                    &&& result matches Err(e) ==> next.step == (ActivateStep::Fail { error: e })
                },
                ActivateStep::DupEvents => {
                    &&& next.spawned == activation.spawned
                    &&& result is Ok ==> next.step is SpawnWorker
                    &&& result matches Err(e) ==> next.step == (ActivateStep::Fail { error: e })
                },
                ActivateStep::SpawnWorker => {
                    &&& result is Ok && left > 0 ==> next.spawned == activation.spawned + 1
                    &&& result is Ok && left > 1 ==> next.step is DupEvents
                    &&& result is Ok && left <= 1 ==> next.step is ReportActivated
                    &&& result matches Err(e) ==> next.step == (ActivateStep::Fail { error: e })
                        && next.spawned == activation.spawned
                },
                ActivateStep::ReportActivated => next.step is Finish && next.spawned
                    == activation.spawned,
                _ => next == activation,
            }
        }),
{
    assert(activation.workers@.len() == activation.workers.len());
}

/// An activation starts with the common part and with no worker started.
pub proof fn law_activation_starts_with_nothing_done<E>(start: Activation<E>)
    ensures
        start.is_start() <==> start.spawned == 0 && start.step is ActivateCommon,
        activation_after(start, Seq::<Result<(), E>>::empty()) == start,
{
}

/// An activation takes its results one after the other.
pub proof fn law_activation_takes_results_in_order<E>(
    start: Activation<E>,
    results: Seq<Result<(), E>>,
    result: Result<(), E>,
)
    ensures
        activation_after(start, results.push(result)) == activation_after(start, results).after(
            result,
        ),
{
    assert(results.push(result).drop_last() =~= results);
}

/// With all done, each worker takes two steps after the one of the common part: so the `k`-th
/// worker's events are duplicated after `2k + 1` steps and it is started after `2k + 2`; and with
/// `n` workers the activation is reported after `2n + 1` steps and ends with the next.
pub proof fn law_workers_are_started_in_turn<E>(
    start: Activation<E>,
    results: Seq<Result<(), E>>,
    k: int,
)
    requires
        start.is_start(),
        forall|j: int| 0 <= j < results.len() ==> #[trigger] results[j] is Ok,
        0 <= k < start.workers@.len(),
    ensures
        results.len() == 2 * k + 1 ==> activation_after(start, results).step is DupEvents
            && activation_after(start, results).spawned == k,
        results.len() == 2 * k + 2 ==> activation_after(start, results).step is SpawnWorker
            && activation_after(start, results).spawned == k,
        results.len() == 2 * start.workers@.len() + 1 ==> activation_after(
            start,
            results,
        ).step is ReportActivated && activation_after(start, results).spawned
            == start.workers@.len(),
        results.len() > 2 * start.workers@.len() + 1 ==> activation_after(
            start,
            results,
        ).step is Finish,
{
    law_activation_starts_every_worker(start, results);
}

/// No two queues of a device have threads of the same name.
pub proof fn law_worker_names_are_distinct(id: Seq<char>, first: usize, second: usize)
    requires
        worker_name(id, first) == worker_name(id, second),
    ensures
        first == second,
{
    let name = worker_name(id, first);
    let n = (id + "_q"@).len() as int;
    assert(decimal(first as nat) =~= name.skip(n));
    assert(decimal(second as nat) =~= name.skip(n));
    lemma_decimal_is_injective(first as nat, second as nat);
}

/// Where an activation has come after `count` steps that were all done: first what every device
/// has is activated, then for each worker the event descriptors are duplicated and the worker is
/// started, and at the end the activation is reported.
pub open spec fn activation_at<E>(start: Activation<E>, count: int) -> (int, ActivateStep<E>) {
    let n = start.workers@.len();
    if count == 0 {
        (0, ActivateStep::ActivateCommon)
    } else if count == 2 * n + 1 {
        (n as int, ActivateStep::ReportActivated)
    } else if count > 2 * n + 1 {
        (n as int, ActivateStep::Finish)
    } else if count % 2 == 1 {
        ((count - 1) / 2, ActivateStep::DupEvents)
    } else {
        ((count - 1) / 2, ActivateStep::SpawnWorker)
    }
}

/// An activation whose steps are all done starts every worker, in order, and is reported once,
/// when the last of them was started.
pub proof fn law_activation_starts_every_worker<E>(
    start: Activation<E>,
    results: Seq<Result<(), E>>,
)
    requires
        start.is_start(),
        forall|j: int| 0 <= j < results.len() ==> #[trigger] results[j] is Ok,
    ensures
        activation_after(start, results).workers == start.workers,
        activation_after(start, results).spawned == activation_at(start, results.len() as int).0,
        activation_after(start, results).step == activation_at(start, results.len() as int).1,
    decreases results.len(),
{
    if results.len() > 0 {
        law_activation_starts_every_worker(start, results.drop_last());
        assert(results[results.len() - 1] is Ok);
        assert(start.workers@.len() == start.workers.len());
    }
}

/// The first step of an activation that fails ends it with that step's error: the workers started
/// before stay, no other is started, and no activation is reported, then or later.
pub proof fn law_activation_stops_at_the_first_failure<E>(
    start: Activation<E>,
    results: Seq<Result<(), E>>,
    failed: int,
)
    requires
        start.is_start(),
        0 <= failed < results.len(),
        failed <= 2 * start.workers@.len(),
        forall|j: int| 0 <= j < failed ==> #[trigger] results[j] is Ok,
        results[failed] is Err,
    ensures
        activation_after(start, results).step == (ActivateStep::Fail {
            error: results[failed]->Err_0,
        }),
        activation_after(start, results).spawned == (if failed == 0 {
            0
        } else {
            (failed - 1) / 2
        }),
        forall|count: int|
            0 <= count <= results.len() ==> !((#[trigger] activation_after(
                start,
                results.take(count),
            )).step is ReportActivated),
    decreases results.len(),
{
    let before = results.drop_last();
    if failed < before.len() {
        law_activation_stops_at_the_first_failure(start, before, failed);
    } else {
        law_activation_starts_every_worker(start, before);
    }
    assert forall|count: int| 0 <= count <= results.len() implies !((#[trigger] activation_after(
        start,
        results.take(count),
    )).step is ReportActivated) by {
        if count == results.len() {
            assert(results.take(count) =~= results);
        } else if failed < before.len() {
            assert(results.take(count) =~= before.take(count));
        } else {
            assert forall|j: int|
                0 <= j < count implies #[trigger] results.take(count)[j] is Ok by {
                assert(results[j] is Ok);
            }
            law_activation_starts_every_worker(start, results.take(count));
        }
    }
}

/// A new device offers indirect descriptors, the current version of virtio, buffers used in
/// order, accesses ordered by the platform and notification data, and translated addresses where
/// those are enabled; and nothing else.
pub proof fn law_offered_features(access_platform_enabled: bool, bit: u64)
    requires
        bit < 64,
    ensures
        (offered_features(access_platform_enabled) >> bit) & 1 == 1 <==> bit == 28 || bit == 32
            || bit == 35 || bit == 36 || bit == 38 || (access_platform_enabled && bit == 33),
{
    assert(((((1u64 << 28u32) | (1u64 << 32u32) | (1u64 << 35u32) | (1u64 << 36u32) | (1u64
        << 38u32)) >> bit) & 1 == 1) <==> (bit == 28 || bit == 32 || bit == 35 || bit == 36 || bit
        == 38)) by (bit_vector)
        requires
            bit < 64,
    ;
    assert(((((1u64 << 28u32) | (1u64 << 32u32) | (1u64 << 35u32) | (1u64 << 36u32) | (1u64
        << 38u32) | (1u64 << 33u32)) >> bit) & 1 == 1) <==> (bit == 28 || bit == 32 || bit == 35
        || bit == 36 || bit == 38 || bit == 33)) by (bit_vector)
        requires
            bit < 64,
    ;
}

} // verus!
