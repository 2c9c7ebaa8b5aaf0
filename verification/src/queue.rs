//! Serving a virtio-fs queue: what is done with each chain of descriptors, in what order, and
//! which guest pages a request may dirty.

#[allow(unused_imports)]
use crate::words::low_word;
use crate::words::to_low_word;
#[allow(unused_imports)]
use vstd::prelude::*;

verus! {

/// Why a queue can no longer be served: `D` tells what is wrong with the descriptors, `S` what
/// the server could not do, and `Q` what is wrong with the queue.
#[derive(Debug, PartialEq, Eq)]
pub enum Error<D, S, Q> {
    QueueReader(D),
    QueueWriter(D),
    ProcessQueue(S),
    QueueAddUsed(Q),
}

impl<D, S, Q> Error<D, S, Q> {
    /// What went wrong, in words.
    pub open spec fn spec_message(self) -> Seq<char> {
        match self {
            Error::QueueReader(_) => "Failed creating queue reader"@,
            Error::QueueWriter(_) => "Failed creating queue writer"@,
            Error::ProcessQueue(_) => "Failed processing virtio-fs request"@,
            Error::QueueAddUsed(_) => "Failed adding used queue entry"@,
        }
    }

    /// Returns what went wrong, in words.
    pub fn message(&self) -> (message: &'static str)
        ensures
            message@ == self.spec_message(),
    {
        match self {
            Error::QueueReader(_) => "Failed creating queue reader",
            Error::QueueWriter(_) => "Failed creating queue writer",
            Error::ProcessQueue(_) => "Failed processing virtio-fs request",
            Error::QueueAddUsed(_) => "Failed adding used queue entry",
        }
    }
}

/// What has to be done next to serve a queue.
#[derive(Debug, PartialEq, Eq)]
pub enum QueueStep<D, S, Q> {
    /// Take the next chain of descriptors from the queue.
    PopChain,
    /// Make a reader of the chain.
    MakeReader { head_index: u16 },
    /// Make a writer to the chain.
    MakeWriter { head_index: u16 },
    /// Mark the guest pages behind the chain's writable descriptors as dirty.
    MarkDirty { head_index: u16 },
    /// Have the file system server handle the request in the chain.
    HandleMessage { head_index: u16 },
    /// Give the chain back, with the length of the reply in it, cut down to 32 bits.
    AddUsed { head_index: u16, len: u32 },
    /// Stop, with whether any chain was given back.
    Finish { used_descs: bool },
    /// Stop with an error.
    Fail { error: Error<D, S, Q> },
}

/// What came of a step.
#[derive(Debug, PartialEq, Eq)]
pub enum QueueEvent<D, S, Q> {
    /// The queue has no further chain.
    NoChain,
    /// The queue had a chain, which starts with the given descriptor.
    Chain { head_index: u16 },
    /// The step is done.
    Ready,
    /// The chain can be neither read nor written.
    BadDescriptors(D),
    /// The server wrote a reply of the given length.
    Replied { len: usize },
    /// The server could not handle the request.
    NotHandled(S),
    /// The queue did not take the chain back.
    NotTaken(Q),
}

/// How far a queue has been served.
#[derive(Debug, PartialEq, Eq)]
pub struct QueueRun<D, S, Q> {
    pub used_descs: bool,
    pub step: QueueStep<D, S, Q>,
}

impl<D, S, Q> QueueRun<D, S, Q> {
    /// A run that is about to take its first chain.
    pub open spec fn start() -> Self {
        QueueRun { used_descs: false, step: QueueStep::PopChain }
    }

    /// Whether `event` can come of the next step.
    pub open spec fn spec_accepts(self, event: QueueEvent<D, S, Q>) -> bool {
        match self.step {
            QueueStep::PopChain => event is NoChain || event is Chain,
            QueueStep::MakeReader { .. } => event is Ready || event is BadDescriptors,
            QueueStep::MakeWriter { .. } => event is Ready || event is BadDescriptors,
            QueueStep::MarkDirty { .. } => event is Ready,
            QueueStep::HandleMessage { .. } => event is Replied || event is NotHandled,
            QueueStep::AddUsed { .. } => event is Ready || event is NotTaken,
            QueueStep::Finish { .. } => false,
            QueueStep::Fail { .. } => false,
        }
    }

    /// The run after `event` came of the next step. An event that cannot come of it changes
    /// nothing.
    pub open spec fn after(self, event: QueueEvent<D, S, Q>) -> Self {
        match (self.step, event) {
            (QueueStep::PopChain, QueueEvent::NoChain) => self.at(
                QueueStep::Finish { used_descs: self.used_descs },
            ),
            (QueueStep::PopChain, QueueEvent::Chain { head_index }) => self.at(
                QueueStep::MakeReader { head_index },
            ),
            (QueueStep::MakeReader { head_index }, QueueEvent::Ready) => self.at(
                QueueStep::MakeWriter { head_index },
            ),
            (QueueStep::MakeReader { .. }, QueueEvent::BadDescriptors(error)) => self.at(
                QueueStep::Fail { error: Error::QueueReader(error) },
            ),
            (QueueStep::MakeWriter { head_index }, QueueEvent::Ready) => self.at(
                QueueStep::MarkDirty { head_index },
            ),
            (QueueStep::MakeWriter { .. }, QueueEvent::BadDescriptors(error)) => self.at(
                QueueStep::Fail { error: Error::QueueWriter(error) },
            ),
            (QueueStep::MarkDirty { head_index }, QueueEvent::Ready) => self.at(
                QueueStep::HandleMessage { head_index },
            ),
            (QueueStep::HandleMessage { head_index }, QueueEvent::Replied { len }) => self.at(
                QueueStep::AddUsed { head_index, len: low_word(len) },
            ),
            (QueueStep::HandleMessage { .. }, QueueEvent::NotHandled(error)) => self.at(
                QueueStep::Fail { error: Error::ProcessQueue(error) },
            ),
            (QueueStep::AddUsed { .. }, QueueEvent::Ready) => QueueRun {
                used_descs: true,
                step: QueueStep::PopChain,
            },
            (QueueStep::AddUsed { .. }, QueueEvent::NotTaken(error)) => self.at(
                QueueStep::Fail { error: Error::QueueAddUsed(error) },
            ),
            _ => self,
        }
    }

    /// The run with another step next.
    pub open spec fn at(self, step: QueueStep<D, S, Q>) -> Self {
        QueueRun { used_descs: self.used_descs, step }
    }

    /// Returns a run that is about to take its first chain.
    pub fn new() -> (run: Self)
        ensures
            run == Self::start(),
    {
        QueueRun { used_descs: false, step: QueueStep::PopChain }
    }

    /// Takes in what came of the next step.
    pub fn process_queue(&mut self, event: QueueEvent<D, S, Q>)
        ensures
            *final(self) == old(self).after(event),
            old(self).step is HandleMessage && event is Replied ==> {
                &&& final(self).step is AddUsed
                &&& final(self).step->AddUsed_head_index == old(self).step->HandleMessage_head_index
                &&& final(self).step->len as nat == event->len as nat % 0x1_0000_0000
            },
    {
        match self.step {
            QueueStep::PopChain => match event {
                QueueEvent::NoChain => {
                    self.step = QueueStep::Finish { used_descs: self.used_descs };
                },
                QueueEvent::Chain { head_index } => {
                    self.step = QueueStep::MakeReader { head_index };
                },
                _ => {},
            },
            QueueStep::MakeReader { head_index } => match event {
                QueueEvent::Ready => {
                    self.step = QueueStep::MakeWriter { head_index };
                },
                QueueEvent::BadDescriptors(error) => {
                    self.step = QueueStep::Fail { error: Error::QueueReader(error) };
                },
                _ => {},
            },
            QueueStep::MakeWriter { head_index } => match event {
                QueueEvent::Ready => {
                    self.step = QueueStep::MarkDirty { head_index };
                },
                QueueEvent::BadDescriptors(error) => {
                    self.step = QueueStep::Fail { error: Error::QueueWriter(error) };
                },
                _ => {},
            },
            QueueStep::MarkDirty { head_index } => match event {
                QueueEvent::Ready => {
                    self.step = QueueStep::HandleMessage { head_index };
                },
                _ => {},
            },
            QueueStep::HandleMessage { head_index } => match event {
                QueueEvent::Replied { len } => {
                    self.step = QueueStep::AddUsed { head_index, len: to_low_word(len) };
                },
                QueueEvent::NotHandled(error) => {
                    self.step = QueueStep::Fail { error: Error::ProcessQueue(error) };
                },
                _ => {},
            },
            QueueStep::AddUsed { .. } => match event {
                QueueEvent::Ready => {
                    self.used_descs = true;
                    self.step = QueueStep::PopChain;
                },
                QueueEvent::NotTaken(error) => {
                    self.step = QueueStep::Fail { error: Error::QueueAddUsed(error) };
                },
                _ => {},
            },
            _ => {},
        }
    }
}

/// The run after the given events, from its start.
pub open spec fn run_of<D, S, Q>(events: Seq<QueueEvent<D, S, Q>>) -> QueueRun<D, S, Q>
    decreases events.len(),
{
    if events.len() == 0 {
        QueueRun::start()
    } else {
        run_of(events.drop_last()).after(events.last())
    }
}

/// Whether each event can come of the step that is next when it comes.
pub open spec fn is_run<D, S, Q>(events: Seq<QueueEvent<D, S, Q>>) -> bool
    decreases events.len(),
{
    events.len() == 0 || (is_run(events.drop_last()) && run_of(events.drop_last()).spec_accepts(
        events.last(),
    ))
}

/// What comes of serving one chain: its descriptors are taken from the queue, read, written and
/// marked as dirty, the server replies, and the chain is given back.
pub open spec fn serving<D, S, Q>(chain: (u16, usize)) -> Seq<QueueEvent<D, S, Q>> {
    seq![
        QueueEvent::Chain { head_index: chain.0 },
        QueueEvent::Ready,
        QueueEvent::Ready,
        QueueEvent::Ready,
        QueueEvent::Replied { len: chain.1 },
        QueueEvent::Ready,
    ]
}

/// What comes of serving chains, given by head and length of the reply, one after the other.
pub open spec fn serving_all<D, S, Q>(chains: Seq<(u16, usize)>) -> Seq<QueueEvent<D, S, Q>>
    decreases chains.len(),
{
    if chains.len() == 0 {
        Seq::empty()
    } else {
        serving_all(chains.drop_last()) + serving(chains.last())
    }
}

/// Whether `events` are what has come of a chain when `step` is next: nothing before a chain is
/// taken, the first few of the events that serve it after that, and the last of them a failure
/// where the run has stopped with an error.
pub open spec fn served_part<D, S, Q>(
    step: QueueStep<D, S, Q>,
    events: Seq<QueueEvent<D, S, Q>>,
) -> bool {
    match step {
        QueueStep::PopChain => events.len() == 0,
        QueueStep::MakeReader { head_index } => events =~= serving((head_index, 0)).take(1),
        QueueStep::MakeWriter { head_index } => events =~= serving((head_index, 0)).take(2),
        QueueStep::MarkDirty { head_index } => events =~= serving((head_index, 0)).take(3),
        QueueStep::HandleMessage { head_index } => events =~= serving((head_index, 0)).take(4),
        QueueStep::AddUsed { head_index, len } => events.len() == 5 && events[4] is Replied
            && low_word(events[4]->len) == len && events =~= serving(
            (head_index, events[4]->len),
        ).take(5),
        QueueStep::Finish { .. } => events =~= seq![QueueEvent::NoChain],
        QueueStep::Fail { error } => events.len() > 1 && events[0] is Chain && match error {
            Error::QueueReader(e) => events =~= serving((events[0]->head_index, 0)).take(1).push(
                QueueEvent::BadDescriptors(e),
            ),
            Error::QueueWriter(e) => events =~= serving((events[0]->head_index, 0)).take(2).push(
                QueueEvent::BadDescriptors(e),
            ),
            Error::ProcessQueue(e) => events =~= serving((events[0]->head_index, 0)).take(4).push(
                QueueEvent::NotHandled(e),
            ),
            Error::QueueAddUsed(e) => events.len() == 6 && events[4] is Replied && events
                =~= serving((events[0]->head_index, events[4]->len)).take(5).push(
                QueueEvent::NotTaken(e),
            ),
        },
    }
}

/// Every run serves whole chains one after the other and is then on its way through another one,
/// or has stopped; and it counts as having given back a chain exactly if one was served whole.
pub proof fn law_runs_serve_whole_chains<D, S, Q>(events: Seq<QueueEvent<D, S, Q>>) -> (chains: Seq<
    (u16, usize),
>)
    requires
        is_run(events),
    ensures
        serving_all(chains).is_prefix_of(events),
        served_part(
            run_of(events).step,
            events.skip(serving_all::<D, S, Q>(chains).len() as int),
        ),
        run_of(events).used_descs == (chains.len() > 0),
        run_of(events).step matches QueueStep::Finish { used_descs } ==> used_descs == (chains.len()
            > 0),
    decreases events.len(),
{
    if events.len() == 0 {
        assert(events.skip(0) =~= Seq::empty());
        Seq::empty()
    } else {
        let before = events.drop_last();
        let event = events.last();
        let chains = law_runs_serve_whole_chains(before);
        let n = serving_all::<D, S, Q>(chains).len() as int;
        let part = before.skip(n);
        assert(events.skip(n) =~= part.push(event));
        match run_of(before).step {
            QueueStep::AddUsed { head_index, len } => {
                if event is Ready {
                    let more = chains.push((head_index, part[4]->len));
                    assert(more.drop_last() =~= chains);
                    assert(serving_all(more) =~= serving_all(chains) + part.push(event));
                    assert(events =~= serving_all(more));
                    assert(events.skip(serving_all::<D, S, Q>(more).len() as int) =~= Seq::empty());
                    more
                } else {
                    chains
                }
            },
            _ => chains,
        }
    }
}

/// Serving any chains and then finding the queue empty is a run, which stops with whether there
/// were any.
pub proof fn law_every_chain_can_be_served<D, S, Q>(chains: Seq<(u16, usize)>)
    ensures
        is_run(serving_all::<D, S, Q>(chains).push(QueueEvent::NoChain)),
        run_of(serving_all::<D, S, Q>(chains).push(QueueEvent::NoChain)).step == (
        QueueStep::<D, S, Q>::Finish { used_descs: chains.len() > 0 }),
{
    lemma_serving_all_is_run::<D, S, Q>(chains);
    let events = serving_all::<D, S, Q>(chains).push(QueueEvent::NoChain);
    assert(events.drop_last() =~= serving_all(chains));
}

proof fn lemma_serving_all_is_run<D, S, Q>(chains: Seq<(u16, usize)>)
    ensures
        is_run(serving_all::<D, S, Q>(chains)),
        run_of(serving_all::<D, S, Q>(chains)) == (QueueRun::<D, S, Q> {
            used_descs: chains.len() > 0,
            step: QueueStep::PopChain,
        }),
    decreases chains.len(),
{
    if chains.len() > 0 {
        let before = serving_all::<D, S, Q>(chains.drop_last());
        let chain = serving::<D, S, Q>(chains.last());
        lemma_serving_all_is_run::<D, S, Q>(chains.drop_last());
        let e1 = before.push(chain[0]);
        let e2 = e1.push(chain[1]);
        let e3 = e2.push(chain[2]);
        let e4 = e3.push(chain[3]);
        let e5 = e4.push(chain[4]);
        let e6 = e5.push(chain[5]);
        assert(e1.drop_last() =~= before);
        assert(e2.drop_last() =~= e1);
        assert(e3.drop_last() =~= e2);
        assert(e4.drop_last() =~= e3);
        assert(e5.drop_last() =~= e4);
        assert(e6.drop_last() =~= e5);
        assert(is_run(e1) && run_of(e1).step is MakeReader);
        assert(is_run(e2) && run_of(e2).step is MakeWriter);
        assert(is_run(e3) && run_of(e3).step is MarkDirty);
        assert(is_run(e4) && run_of(e4).step is HandleMessage);
        assert(is_run(e5) && run_of(e5).step is AddUsed);
        assert(is_run(e6) && run_of(e6).step is PopChain);
        assert(serving_all(chains) =~= e6);
    }
}

/// A chain is taken, read, written, marked as dirty, answered and given back, in this order; it is
/// given back by the head it was taken with, and with the whole length of the reply, of which only
/// multiples of 2^32 are left out; and only then does it count as given back.
pub proof fn law_chain_is_given_back_with_its_reply<D, S, Q>(
    run: QueueRun<D, S, Q>,
    head_index: u16,
    len: usize,
)
    requires
        run.step is PopChain,
    ensures
        ({
            let taken = run.after(QueueEvent::Chain { head_index });
            let read = taken.after(QueueEvent::Ready);
            let written = read.after(QueueEvent::Ready);
            let marked = written.after(QueueEvent::Ready);
            let answered = marked.after(QueueEvent::Replied { len });
            let given_back = answered.after(QueueEvent::Ready);
            &&& taken.step == (QueueStep::<D, S, Q>::MakeReader { head_index })
            &&& read.step == (QueueStep::<D, S, Q>::MakeWriter { head_index })
            &&& written.step == (QueueStep::<D, S, Q>::MarkDirty { head_index })
            &&& marked.step == (QueueStep::<D, S, Q>::HandleMessage { head_index })
            &&& answered.step is AddUsed
            &&& answered.step->AddUsed_head_index == head_index
            &&& answered.step->len as nat == len as nat % 0x1_0000_0000
            &&& len < 0x1_0000_0000 ==> answered.step->len == len
            &&& answered.used_descs == run.used_descs
            &&& given_back.step is PopChain
            &&& given_back.used_descs
        }),
{
}

/// Wherever serving a chain fails, it stops with the error of that step and nothing is added to
/// what was given back before.
pub proof fn law_chain_stops_with_the_error_of_its_step<D, S, Q>(
    run: QueueRun<D, S, Q>,
    head_index: u16,
    len: usize,
    bad: D,
    unhandled: S,
    refused: Q,
)
    requires
        run.step is PopChain,
    ensures
        ({
            let taken = run.after(QueueEvent::Chain { head_index });
            let read = taken.after(QueueEvent::Ready);
            let marked = read.after(QueueEvent::Ready).after(QueueEvent::Ready);
            let answered = marked.after(QueueEvent::Replied { len });
            let no_reader = taken.after(QueueEvent::BadDescriptors(bad));
            let no_writer = read.after(QueueEvent::BadDescriptors(bad));
            let no_answer = marked.after(QueueEvent::NotHandled(unhandled));
            let not_back = answered.after(QueueEvent::NotTaken(refused));
            &&& no_reader.step == (QueueStep::<D, S, Q>::Fail { error: Error::QueueReader(bad) })
            &&& no_writer.step == (QueueStep::<D, S, Q>::Fail { error: Error::QueueWriter(bad) })
            &&& no_answer.step == (QueueStep::<D, S, Q>::Fail {
                error: Error::ProcessQueue(unhandled),
            })
            &&& not_back.step == (QueueStep::<D, S, Q>::Fail {
                error: Error::QueueAddUsed(refused),
            })
            &&& no_reader.used_descs == run.used_descs
            &&& no_writer.used_descs == run.used_descs
            &&& no_answer.used_descs == run.used_descs
            &&& not_back.used_descs == run.used_descs
        }),
{
}

/// A run starts with nothing given back; an empty queue stops it, with whether anything was; and
/// a run that has stopped stays as it is.
pub proof fn law_queue_run_starts_and_stops<D, S, Q>(
    run: QueueRun<D, S, Q>,
    event: QueueEvent<D, S, Q>,
)
    ensures
        QueueRun::<D, S, Q>::start().step is PopChain,
        !QueueRun::<D, S, Q>::start().used_descs,
        run.step is PopChain ==> run.after(QueueEvent::NoChain).step == (
        QueueStep::<D, S, Q>::Finish { used_descs: run.used_descs }),
        run.step is Finish || run.step is Fail ==> run.after(event) == run,
{
}

/// What went wrong has words of its own.
pub proof fn law_errors_have_their_words<D, S, Q>(bad: D, unhandled: S, refused: Q)
    ensures
        Error::<D, S, Q>::QueueReader(bad).spec_message() == "Failed creating queue reader"@,
        Error::<D, S, Q>::QueueWriter(bad).spec_message() == "Failed creating queue writer"@,
        Error::<D, S, Q>::ProcessQueue(unhandled).spec_message()
            == "Failed processing virtio-fs request"@,
        Error::<D, S, Q>::QueueAddUsed(refused).spec_message()
            == "Failed adding used queue entry"@,
{
}

/// A stretch of guest memory.
#[derive(Clone, Copy, Debug, PartialEq, Eq, Structural)]
pub struct MemoryRegion {
    pub start: u64,
    pub len: u64,
}

impl MemoryRegion {
    /// Whether the region holds the byte at `addr`.
    pub open spec fn spec_contains(self, addr: u64) -> bool {
        self.start <= addr && addr - self.start < self.len
    }

    /// Returns whether the region holds the byte at `addr`.
    pub fn contains(&self, addr: u64) -> (contains: bool)
        ensures
            contains == self.spec_contains(addr),
    {
        self.start <= addr && addr - self.start < self.len
    }
}

/// A descriptor that the server may write to.
#[derive(Clone, Copy, Debug, PartialEq, Eq, Structural)]
pub struct Descriptor {
    pub addr: u64,
    pub len: u32,
}

/// A stretch of a region that has to be marked as dirty.
#[derive(Clone, Copy, Debug, PartialEq, Eq, Structural)]
pub struct DirtyRange {
    /// The place of the region among all of them.
    pub region: usize,
    /// Where the stretch starts in the region.
    pub offset: usize,
    pub len: usize,
}

/// Whether no byte of guest memory lies in two regions.
pub open spec fn are_disjoint(regions: Seq<MemoryRegion>) -> bool {
    forall|i: int, j: int, addr: u64|
        0 <= i < regions.len() && 0 <= j < regions.len() && #[trigger] regions[i].spec_contains(
            addr,
        ) && #[trigger] regions[j].spec_contains(addr) ==> i == j
}

/// The place of the first region, from the place `from` on, that holds the byte at `addr`.
pub open spec fn region_of(regions: Seq<MemoryRegion>, addr: u64, from: int) -> Option<int>
    decreases regions.len() - from,
{
    if from < 0 || from >= regions.len() {
        None
    } else if regions[from].spec_contains(addr) {
        Some(from)
    } else {
        region_of(regions, addr, from + 1)
    }
}

/// What has to be marked as dirty before the server may write to a descriptor: the stretch of
/// the region that it starts in, and nothing if it starts in none.
pub open spec fn dirty_range(regions: Seq<MemoryRegion>, descriptor: Descriptor) -> Option<
    DirtyRange,
> {
    match region_of(regions, descriptor.addr, 0) {
        Some(region) => Some(
            DirtyRange {
                region: region as usize,
                offset: ((descriptor.addr - regions[region].start) as u64) as usize,
                len: descriptor.len as usize,
            },
        ),
        None => None,
    }
}

/// What has to be marked as dirty before the server may write to any of the descriptors, in their
/// order.
pub open spec fn dirty_ranges_of(regions: Seq<MemoryRegion>, writable: Seq<Descriptor>) -> Seq<
    DirtyRange,
>
    decreases writable.len(),
{
    if writable.len() == 0 {
        Seq::empty()
    } else {
        let ranges = dirty_ranges_of(regions, writable.drop_last());
        match dirty_range(regions, writable.last()) {
            Some(range) => ranges.push(range),
            None => ranges,
        }
    }
}

/// Returns the place of the region that holds the byte at `addr`.
pub fn find_region(regions: &Vec<MemoryRegion>, addr: u64) -> (region: Option<usize>)
    ensures
        match region {
            Some(region) => region_of(regions@, addr, 0) == Some(region as int),
            None => region_of(regions@, addr, 0) is None,
        },
{
    let mut i: usize = 0;
    while i < regions.len()
        invariant
            i <= regions@.len(),
            region_of(regions@, addr, 0) == region_of(regions@, addr, i as int),
        decreases regions@.len() - i,
    {
        if regions[i].contains(addr) {
            return Some(i);
        }
        i += 1;
    }
    None
}

/// Returns what has to be marked as dirty before the server may write to the descriptors.
pub fn dirty_ranges(regions: &Vec<MemoryRegion>, writable: &Vec<Descriptor>) -> (ranges: Vec<
    DirtyRange,
>)
    ensures
        ranges@ == dirty_ranges_of(regions@, writable@),
        forall|i: int, r: int|
            #![trigger writable@[i], regions@[r]]
            0 <= i < writable@.len() && starts_first_in(regions@, r, writable@[i].addr)
                && writable@[i].addr - regions@[r].start <= usize::MAX ==> exists|k: int|
                0 <= k < ranges@.len() && (#[trigger] ranges@[k]).region == r && regions@[r].start
                    + ranges@[k].offset == writable@[i].addr && ranges@[k].len
                    == writable@[i].len,
{
    let mut ranges: Vec<DirtyRange> = Vec::new();
    let mut i: usize = 0;
    while i < writable.len()
        invariant
            i <= writable@.len(),
            ranges@ == dirty_ranges_of(regions@, writable@.take(i as int)),
        decreases writable@.len() - i,
    {
        let descriptor = writable[i];
        proof {
            assert(writable@.take(i + 1).drop_last() =~= writable@.take(i as int));
            law_region_holds_the_address(regions@, descriptor.addr, 0);
        }
        if let Some(region) = find_region(regions, descriptor.addr) {
            ranges.push(
                DirtyRange {
                    region,
                    offset: (descriptor.addr - regions[region].start) as usize,
                    len: descriptor.len as usize,
                },
            );
        }
        i += 1;
    }
    assert(writable@.take(i as int) =~= writable@);
    proof {
        assert(regions@.len() == regions.len());
        assert forall|j: int, r: int|
            #![trigger writable@[j], regions@[r]]
            0 <= j < writable@.len() && starts_first_in(regions@, r, writable@[j].addr)
                && writable@[j].addr - regions@[r].start <= usize::MAX implies exists|k: int|
            0 <= k < ranges@.len() && (#[trigger] ranges@[k]).region == r && regions@[r].start
                + ranges@[k].offset == writable@[j].addr && ranges@[k].len == writable@[j].len by {
            law_every_descriptor_is_marked(regions@, writable@, j, r);
        }
    }
    ranges
}

/// The region that is found for an address is the first that holds it, and one is found for every
/// address that some region holds.
pub proof fn law_region_holds_the_address(regions: Seq<MemoryRegion>, addr: u64, from: int)
    requires
        0 <= from,
    ensures
        match region_of(regions, addr, from) {
            Some(i) => {
                &&& from <= i < regions.len()
                &&& regions[i].spec_contains(addr)
                &&& forall|j: int| from <= j < i ==> !(#[trigger] regions[j]).spec_contains(addr)
            },
            None => forall|j: int|
                from <= j < regions.len() ==> !(#[trigger] regions[j]).spec_contains(addr),
        },
    decreases regions.len() - from,
{
    if from < regions.len() && !regions[from].spec_contains(addr) {
        law_region_holds_the_address(regions, addr, from + 1);
    }
}

/// Among regions that do not overlap, the one that holds an address is the one that is found.
pub proof fn law_region_is_unique(regions: Seq<MemoryRegion>, addr: u64, i: int)
    requires
        are_disjoint(regions),
        0 <= i < regions.len(),
        regions[i].spec_contains(addr),
    ensures
        region_of(regions, addr, 0) == Some(i),
{
    law_region_holds_the_address(regions, addr, 0);
}

/// A region holds the bytes from its start up to its end.
pub proof fn law_regions_hold_their_bytes(region: MemoryRegion, addr: u64)
    ensures
        region.spec_contains(addr) <==> region.start <= addr < region.start + region.len,
{
}

/// Whether the region at `r` is the first that holds the byte at `addr`.
pub open spec fn starts_first_in(regions: Seq<MemoryRegion>, r: int, addr: u64) -> bool {
    &&& 0 <= r < regions.len()
    &&& regions[r].start <= addr < regions[r].start + regions[r].len
    &&& forall|j: int|
        0 <= j < r ==> !((#[trigger] regions[j]).start <= addr < regions[j].start + regions[j].len)
}

/// A single descriptor dirties exactly the stretch of the first region that holds its address, from
/// that address on and for its whole length; and nothing if no region holds it.
pub proof fn law_one_descriptor_dirties_its_stretch(
    regions: Seq<MemoryRegion>,
    descriptor: Descriptor,
    r: int,
)
    requires
        regions.len() <= usize::MAX,
    ensures
        (forall|j: int|
            0 <= j < regions.len() ==> !((#[trigger] regions[j]).start <= descriptor.addr
                < regions[j].start + regions[j].len)) ==> dirty_ranges_of(
            regions,
            seq![descriptor],
        ).len() == 0,
        0 <= r < regions.len() && regions[r].start <= descriptor.addr < regions[r].start
            + regions[r].len && descriptor.addr - regions[r].start <= usize::MAX && (forall|j: int|
            0 <= j < r ==> !((#[trigger] regions[j]).start <= descriptor.addr < regions[j].start
                + regions[j].len)) ==> {
            let ranges = dirty_ranges_of(regions, seq![descriptor]);
            &&& ranges.len() == 1
            &&& ranges[0].region == r
            &&& regions[r].start + ranges[0].offset == descriptor.addr
            &&& ranges[0].len == descriptor.len
        },
{
    let one = seq![descriptor];
    assert(one.drop_last() =~= Seq::empty());
    assert(one.last() == descriptor);
    reveal_with_fuel(dirty_ranges_of, 2);
    law_region_holds_the_address(regions, descriptor.addr, 0);
}

/// Descriptors are marked one after the other, and none changes what the others dirty.
pub proof fn law_descriptors_are_marked_one_by_one(
    regions: Seq<MemoryRegion>,
    first: Seq<Descriptor>,
    second: Seq<Descriptor>,
)
    ensures
        dirty_ranges_of(regions, first + second) == dirty_ranges_of(regions, first)
            + dirty_ranges_of(regions, second),
        dirty_ranges_of(regions, Seq::empty()).len() == 0,
    decreases second.len(),
{
    if second.len() == 0 {
        assert(first + second =~= first);
        assert(dirty_ranges_of(regions, first) + dirty_ranges_of(regions, second)
            =~= dirty_ranges_of(regions, first));
    } else {
        assert((first + second).drop_last() =~= first + second.drop_last());
        assert((first + second).last() == second.last());
        law_descriptors_are_marked_one_by_one(regions, first, second.drop_last());
        assert(dirty_ranges_of(regions, first + second) =~= dirty_ranges_of(regions, first)
            + dirty_ranges_of(regions, second));
    }
}

/// For every descriptor that the server may write to and that starts in a region, a stretch of
/// that region is marked which starts at the descriptor's address and has its length; so every
/// byte of it that lies in the region is marked.
pub proof fn law_every_descriptor_is_marked(
    regions: Seq<MemoryRegion>,
    writable: Seq<Descriptor>,
    i: int,
    r: int,
)
    requires
        regions.len() <= usize::MAX,
        0 <= i < writable.len(),
        0 <= r < regions.len(),
        regions[r].start <= writable[i].addr < regions[r].start + regions[r].len,
        writable[i].addr - regions[r].start <= usize::MAX,
        forall|j: int|
            0 <= j < r ==> !((#[trigger] regions[j]).start <= writable[i].addr < regions[j].start
                + regions[j].len),
    ensures
        exists|k: int|
            0 <= k < dirty_ranges_of(regions, writable).len() && (#[trigger] dirty_ranges_of(
                regions,
                writable,
            )[k]).region == r && regions[r].start + dirty_ranges_of(regions, writable)[k].offset
                == writable[i].addr && dirty_ranges_of(regions, writable)[k].len
                == writable[i].len,
        forall|addr: int|
            writable[i].addr <= addr < writable[i].addr + writable[i].len
                ==> #[trigger] is_marked(regions, dirty_ranges_of(regions, writable), r, addr),
{
    let before = writable.take(i);
    let one = seq![writable[i]];
    let after = writable.skip(i + 1);
    assert(writable =~= before + one + after);
    law_descriptors_are_marked_one_by_one(regions, before, one);
    law_descriptors_are_marked_one_by_one(regions, before + one, after);
    law_one_descriptor_dirties_its_stretch(regions, writable[i], r);
    let k = dirty_ranges_of(regions, before).len() as int;
    let range = dirty_ranges_of(regions, writable)[k];
    assert(range == dirty_ranges_of(regions, one)[0]);
    assert forall|addr: int|
        writable[i].addr <= addr < writable[i].addr + writable[i].len implies #[trigger] is_marked(
        regions,
        dirty_ranges_of(regions, writable),
        r,
        addr,
    ) by {
        assert(dirty_ranges_of(regions, writable)[k].region == r);
    }
}

/// Whether the guest address is marked in the region at `r`.
pub open spec fn is_marked(
    regions: Seq<MemoryRegion>,
    ranges: Seq<DirtyRange>,
    r: int,
    addr: int,
) -> bool {
    exists|k: int|
        0 <= k < ranges.len() && (#[trigger] ranges[k]).region == r && regions[r].start
            + ranges[k].offset <= addr < regions[r].start + ranges[k].offset + ranges[k].len
}

/// Nothing is marked but stretches of the descriptors: each that is marked starts at the address of
/// one of them, in the region that holds it, and has its length.
pub proof fn law_only_descriptors_are_marked(
    regions: Seq<MemoryRegion>,
    writable: Seq<Descriptor>,
    k: int,
)
    requires
        regions.len() <= usize::MAX,
        forall|r: int| 0 <= r < regions.len() ==> (#[trigger] regions[r]).len <= usize::MAX,
        0 <= k < dirty_ranges_of(regions, writable).len(),
    ensures
        exists|i: int|
            0 <= i < writable.len() && ({
                let range = dirty_ranges_of(regions, writable)[k];
                &&& range.region < regions.len()
                &&& regions[range.region as int].start + range.offset == (
                #[trigger] writable[i]).addr
                &&& range.offset < regions[range.region as int].len
                &&& range.len == writable[i].len
            }),
    decreases writable.len(),
{
    let before = writable.drop_last();
    law_region_holds_the_address(regions, writable.last().addr, 0);
    if k < dirty_ranges_of(regions, before).len() {
        law_only_descriptors_are_marked(regions, before, k);
        let i = choose|i: int|
            0 <= i < before.len() && ({
                let range = dirty_ranges_of(regions, before)[k];
                &&& range.region < regions.len()
                &&& regions[range.region as int].start + range.offset == (
                #[trigger] before[i]).addr
                &&& range.offset < regions[range.region as int].len
                &&& range.len == before[i].len
            });
        assert(writable[i] == before[i]);
    } else {
        assert(writable[writable.len() - 1] == writable.last());
    }
}

} // verus!
