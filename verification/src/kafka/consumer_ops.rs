//! Bounded reads from one partition. What to ask the broker for is decided
//! here, step by step; the caller talks to the broker and reports what came
//! back.

use vstd::prelude::*;

verus! {

/// Longest wait for the answer to a metadata or watermark request, in
/// milliseconds.
pub const REQUEST_TIMEOUT_MS: u64 = 1000;

/// Length of one poll, in milliseconds.
pub const POLL_SLICE_MS: u64 = 10;

/// When a record was written, as far as the broker tells.
#[derive(Debug, Clone, Copy, PartialEq, Eq, Structural)]
pub enum Timestamp {
    NotAvailable,
    CreateTime(i64),
    LogAppendTime(i64),
}

/// One message read from a partition.
#[derive(Debug)]
pub struct Record {
    pub partition: i32,
    pub offset: i64,
    pub timestamp: Timestamp,
    pub key: Option<Vec<u8>>,
    pub payload: Option<Vec<u8>>,
    pub headers: Vec<(String, Vec<u8>)>,
}

/// Where in a partition a read starts.
#[derive(Debug, Clone, Copy, PartialEq, Eq, Structural)]
pub enum StartOffset {
    /// At the earliest message that the partition still holds.
    Beginning,
    /// The given number of messages before the end of the partition.
    Tail(i64),
    /// At the given offset.
    At(i64),
}

impl StartOffset {
    /// The offset of the first message of a read, in a partition that holds
    /// the offsets from `earliest` up to, not including, `latest`.
    pub open spec fn position(self, earliest: int, latest: int) -> int {
        match self {
            StartOffset::Beginning => earliest,
            StartOffset::Tail(count) => latest - count,
            StartOffset::At(offset) => offset as int,
        }
    }

    /// The offset of the first message of a read, in a partition that holds
    /// the offsets from `earliest` up to, not including, `latest`; nothing
    /// where that offset is no 64-bit number.
    pub fn first_offset(&self, earliest: i64, latest: i64) -> (r: Option<i64>)
        ensures
            match r {
                Some(offset) => offset == self.position(earliest as int, latest as int),
                None => !(i64::MIN <= self.position(earliest as int, latest as int) <= i64::MAX),
            },
    {
        match self {
            StartOffset::Beginning => Some(earliest),
            StartOffset::Tail(count) => latest.checked_sub(*count),
            StartOffset::At(offset) => Some(*offset),
        }
    }
}

/// How many messages a tail read goes back from the end of a partition that
/// holds the offsets from `earliest` up to, not including, `latest`, when
/// `desired` messages are asked for: as many as are asked for, but no more
/// than the partition holds, and none where nothing is asked for or the
/// partition is empty.
pub open spec fn tail_want(earliest: int, latest: int, desired: int) -> int {
    if desired <= 0 || latest - earliest <= 0 {
        0
    } else if latest - earliest <= desired {
        latest - earliest
    } else {
        desired
    }
}

/// How many messages a tail read goes back from the end of the partition.
pub fn tail_count(earliest: i64, latest: i64, desired: i64) -> (want: i64)
    ensures
        want == tail_want(earliest as int, latest as int, desired as int),
        0 <= want,
        want <= desired || want == 0,
{
    if desired <= 0 || latest <= earliest {
        return 0;
    }
    match latest.checked_sub(earliest) {
        Some(available) => if available <= desired {
            available
        } else {
            desired
        },
        None => desired,
    }
}

/// Which read of a partition is made.
#[derive(Debug, Clone, Copy, PartialEq, Eq, Structural)]
pub enum ReadMode {
    /// The most recent messages.
    Tail,
    /// The messages from a given offset on.
    Offset(i64),
    /// The messages from the start of the partition on.
    Beginning,
}

/// How far a read has come.
#[derive(Debug, Clone, Copy, PartialEq, Eq, Structural)]
pub enum ReadPhase {
    /// The watermarks of the partition are needed.
    Watermarks,
    /// The consumer has to be assigned to the partition.
    Assign,
    /// Messages are polled.
    Poll,
    /// Nothing is left to do.
    Done,
}

/// The step of a read that the broker refused.
#[derive(Debug, Clone, Copy, PartialEq, Eq, Structural)]
pub enum ReadFailure {
    /// The watermarks could not be fetched.
    Watermarks,
    /// The consumer could not be assigned.
    Assign,
}

/// What the caller does next for a read.
#[derive(Debug, Clone, Copy, PartialEq, Eq, Structural)]
pub enum ReadAction {
    /// Fetch the watermarks of the partition and report them.
    FetchWatermarks,
    /// Assign the consumer to the partition at the given start and report
    /// how that went.
    Assign(StartOffset),
    /// Poll once, for a short while, and report what came.
    Poll,
    /// Stop: the read is over.
    Finish,
}

/// What the caller reports back.
#[derive(Debug)]
pub enum ReadEvent {
    /// The earliest and the latest offset of the partition.
    Watermarks(i64, i64),
    /// The consumer is assigned.
    Assigned,
    /// The request for watermarks or the assignment failed.
    Failed,
    /// A poll brought a message.
    Message(Record),
    /// A poll brought nothing: no message is available right now.
    NoMessage,
    /// A poll ended in an error.
    PollFailed,
}

/// The state of a read, as plain values.
pub struct ReadView {
    pub topic: Seq<char>,
    pub partition: i32,
    pub mode: ReadMode,
    /// The number of messages asked for.
    pub desired: i64,
    pub phase: ReadPhase,
    /// Where the consumer is assigned; in a tail read, known once the
    /// watermarks are.
    pub start: StartOffset,
    /// The messages read so far, in the order in which they came.
    pub buffer: Seq<Record>,
    pub failure: Option<ReadFailure>,
}

impl ReadView {
    /// A read as it begins. Where no message is asked for it is over at
    /// once; a tail read needs the watermarks first, the others go straight
    /// to the assignment.
    pub open spec fn begin(topic: Seq<char>, partition: i32, mode: ReadMode, desired: i64) -> ReadView {
        ReadView {
            topic,
            partition,
            mode,
            desired,
            phase: if desired <= 0 {
                ReadPhase::Done
            } else {
                match mode {
                    ReadMode::Tail => ReadPhase::Watermarks,
                    _ => ReadPhase::Assign,
                }
            },
            start: match mode {
                ReadMode::Tail => StartOffset::Tail(0),
                ReadMode::Offset(offset) => StartOffset::At(offset),
                ReadMode::Beginning => StartOffset::Beginning,
            },
            buffer: Seq::empty(),
            failure: None,
        }
    }

    /// Whether polling goes on: the time is not up and fewer messages than
    /// asked for have come.
    pub open spec fn polls_on(self, expired: bool) -> bool {
        !expired && self.buffer.len() < self.desired
    }

    /// What the caller does next, given whether the time for the read is up.
    pub open spec fn action(self, expired: bool) -> ReadAction {
        match self.phase {
            ReadPhase::Watermarks => ReadAction::FetchWatermarks,
            ReadPhase::Assign => ReadAction::Assign(self.start),
            ReadPhase::Poll => if self.polls_on(expired) {
                ReadAction::Poll
            } else {
                ReadAction::Finish
            },
            ReadPhase::Done => ReadAction::Finish,
        }
    }

    /// The read after the caller was told what to do next: a read that was
    /// told to finish is over.
    pub open spec fn after_action(self, expired: bool) -> ReadView {
        if self.action(expired) == ReadAction::Finish {
            ReadView { phase: ReadPhase::Done, ..self }
        } else {
            self
        }
    }

    /// The read after the caller reported `event`. A report that does not
    /// answer what the read waits for changes nothing.
    pub open spec fn on_event(self, event: ReadEvent) -> ReadView {
        match (self.phase, event) {
            (ReadPhase::Watermarks, ReadEvent::Watermarks(earliest, latest)) => ReadView {
                phase: ReadPhase::Assign,
                start: StartOffset::Tail(
                    tail_want(earliest as int, latest as int, self.desired as int) as i64,
                ),
                ..self
            },
            (ReadPhase::Watermarks, ReadEvent::Failed) => ReadView {
                phase: ReadPhase::Done,
                failure: Some(ReadFailure::Watermarks),
                ..self
            },
            (ReadPhase::Assign, ReadEvent::Assigned) => ReadView {
                phase: if self.start == StartOffset::Tail(0) {
                    ReadPhase::Done
                } else {
                    ReadPhase::Poll
                },
                ..self
            },
            (ReadPhase::Assign, ReadEvent::Failed) => ReadView {
                phase: ReadPhase::Done,
                failure: Some(ReadFailure::Assign),
                ..self
            },
            (ReadPhase::Poll, ReadEvent::Message(record)) => if self.buffer.len() < self.desired {
                ReadView { buffer: self.buffer.push(record), ..self }
            } else {
                self
            },
            (ReadPhase::Poll, ReadEvent::NoMessage) => if self.buffer.len() > 0 {
                ReadView { phase: ReadPhase::Done, ..self }
            } else {
                self
            },
            _ => self,
        }
    }

    /// What holds of every read: it never holds more messages than were
    /// asked for and none before it polls, it goes on only where messages
    /// were asked for, and one that failed is over and holds nothing.
    pub open spec fn well_formed(self) -> bool {
        &&& self.buffer.len() == 0 || self.buffer.len() <= self.desired
        &&& !(self.phase is Done) ==> self.desired > 0 && self.failure is None
        &&& (self.phase is Watermarks || self.phase is Assign) ==> self.buffer.len() == 0
        &&& self.failure is Some ==> self.buffer.len() == 0
    }
}

/// A read of one partition in progress.
#[derive(Debug)]
pub struct PartitionRead {
    topic: String,
    partition: i32,
    mode: ReadMode,
    desired: i64,
    phase: ReadPhase,
    start: StartOffset,
    buffer: Vec<Record>,
    failure: Option<ReadFailure>,
}

impl View for PartitionRead {
    type V = ReadView;

    closed spec fn view(&self) -> ReadView {
        ReadView {
            topic: self.topic@,
            partition: self.partition,
            mode: self.mode,
            desired: self.desired,
            phase: self.phase,
            start: self.start,
            buffer: self.buffer@,
            failure: self.failure,
        }
    }
}

impl PartitionRead {
    fn begin(topic: String, partition: i32, mode: ReadMode, desired: i64) -> (r: Self)
        ensures
            r@ == ReadView::begin(topic@, partition, mode, desired),
            r@.well_formed(),
    {
        let phase = if desired <= 0 {
            ReadPhase::Done
        } else {
            match mode {
                ReadMode::Tail => ReadPhase::Watermarks,
                _ => ReadPhase::Assign,
            }
        };
        let start = match mode {
            ReadMode::Tail => StartOffset::Tail(0),
            ReadMode::Offset(offset) => StartOffset::At(offset),
            ReadMode::Beginning => StartOffset::Beginning,
        };
        PartitionRead {
            topic,
            partition,
            mode,
            desired,
            phase,
            start,
            buffer: Vec::new(),
            failure: None,
        }
    }

    /// A read of the last `desired` messages of a partition.
    pub fn tail(topic: String, partition: i32, desired: i64) -> (r: Self)
        ensures
            r@ == ReadView::begin(topic@, partition, ReadMode::Tail, desired),
            r@.well_formed(),
    {
        Self::begin(topic, partition, ReadMode::Tail, desired)
    }

    /// A read of up to `max_messages` messages of a partition, from the
    /// given offset on.
    pub fn from_offset(topic: String, partition: i32, offset: i64, max_messages: i64) -> (r: Self)
        ensures
            r@ == ReadView::begin(topic@, partition, ReadMode::Offset(offset), max_messages),
            r@.well_formed(),
    {
        Self::begin(topic, partition, ReadMode::Offset(offset), max_messages)
    }

    /// A read of up to `max_messages` messages of a partition, from its
    /// start on.
    pub fn from_beginning(topic: String, partition: i32, max_messages: i64) -> (r: Self)
        ensures
            r@ == ReadView::begin(topic@, partition, ReadMode::Beginning, max_messages),
            r@.well_formed(),
    {
        Self::begin(topic, partition, ReadMode::Beginning, max_messages)
    }

    /// The topic that is read.
    pub fn topic(&self) -> (r: &String)
        ensures
            r@ == self@.topic,
    {
        &self.topic
    }

    /// The partition that is read.
    pub fn partition(&self) -> (r: i32)
        ensures
            r == self@.partition,
    {
        self.partition
    }

    /// The number of messages read so far.
    pub fn len(&self) -> (r: usize)
        ensures
            r == self@.buffer.len(),
    {
        self.buffer.len()
    }

    /// What the caller does next. `expired` says whether the time for the
    /// whole read is up. Once the answer is `Finish` the read is over and
    /// stays so.
    pub fn next_action(&mut self, expired: bool) -> (r: ReadAction)
        ensures
            r == old(self)@.action(expired),
            final(self)@ == old(self)@.after_action(expired),
            old(self)@.well_formed() ==> final(self)@.well_formed(),
    {
        match self.phase {
            ReadPhase::Watermarks => ReadAction::FetchWatermarks,
            ReadPhase::Assign => ReadAction::Assign(self.start),
            ReadPhase::Poll => {
                let room = self.desired > 0 && (self.buffer.len() as u64) < (self.desired as u64);
                if !expired && room {
                    ReadAction::Poll
                } else {
                    self.phase = ReadPhase::Done;
                    ReadAction::Finish
                }
            },
            ReadPhase::Done => ReadAction::Finish,
        }
    }

    /// Takes what the caller reports.
    pub fn on_event(&mut self, event: ReadEvent)
        ensures
            final(self)@ == old(self)@.on_event(event),
            old(self)@.well_formed() ==> final(self)@.well_formed(),
    {
        match self.phase {
            ReadPhase::Watermarks => match event {
                ReadEvent::Watermarks(earliest, latest) => {
                    self.start = StartOffset::Tail(tail_count(earliest, latest, self.desired));
                    self.phase = ReadPhase::Assign;
                },
                ReadEvent::Failed => {
                    self.failure = Some(ReadFailure::Watermarks);
                    self.phase = ReadPhase::Done;
                },
                _ => {},
            },
            ReadPhase::Assign => match event {
                ReadEvent::Assigned => {
                    let nothing = match self.start {
                        StartOffset::Tail(count) => count == 0,
                        _ => false,
                    };
                    self.phase = if nothing {
                        ReadPhase::Done
                    } else {
                        ReadPhase::Poll
                    };
                },
                ReadEvent::Failed => {
                    self.failure = Some(ReadFailure::Assign);
                    self.phase = ReadPhase::Done;
                },
                _ => {},
            },
            ReadPhase::Poll => match event {
                ReadEvent::Message(record) => {
                    if self.desired > 0 && (self.buffer.len() as u64) < (self.desired as u64) {
                        self.buffer.push(record);
                    }
                },
                ReadEvent::NoMessage => {
                    if self.buffer.len() > 0 {
                        self.phase = ReadPhase::Done;
                    }
                },
                _ => {},
            },
            ReadPhase::Done => {},
        }
    }

    /// Ends the read: the messages that came, in the order in which they
    /// came, or the step that the broker refused.
    pub fn finish(self) -> (r: Result<Vec<Record>, ReadFailure>)
        ensures
            match self@.failure {
                Some(failure) => r == Err::<Vec<Record>, ReadFailure>(failure),
                None => r is Ok && r->Ok_0@ == self@.buffer,
            },
    {
        match self.failure {
            Some(failure) => Err(failure),
            None => Ok(self.buffer),
        }
    }
}

/// The messages of the reads that went well, one read after the other; a
/// read that failed adds nothing.
pub open spec fn gathered<E>(outcomes: Seq<Result<Vec<Record>, E>>) -> Seq<Record>
    decreases outcomes.len(),
{
    if outcomes.len() == 0 {
        Seq::empty()
    } else {
        gathered(outcomes.drop_last()) + match outcomes.last() {
            Ok(records) => records@,
            Err(_) => Seq::empty(),
        }
    }
}

/// Puts together what the reads of the partitions of a topic brought, in the
/// order of the partitions. A partition whose read failed is passed over.
pub fn gather<E>(outcomes: Vec<Result<Vec<Record>, E>>) -> (r: Vec<Record>)
    ensures
        r@ == gathered(outcomes@),
{
    let ghost all = outcomes@;
    let mut rest = outcomes;
    let mut tail: Vec<Record> = Vec::new();
    // Taken from the end, so that each batch can be moved: `tail` holds what
    // the outcomes behind `rest` brought.
    while rest.len() > 0
        invariant
            rest@.len() <= all.len(),
            rest@ == all.take(rest@.len() as int),
            gathered(all) == gathered(rest@) + tail@,
        decreases rest@.len(),
    {
        let outcome = rest.pop().unwrap();
        match outcome {
            Ok(mut records) => {
                records.append(&mut tail);
                tail = records;
            },
            Err(_) => {},
        }
    }
    tail
}

/// A read that asks for no message, or for fewer, is over before it begins:
/// the caller is told to finish without a word to the broker, whatever is
/// reported changes nothing, and the read holds no message.
pub proof fn law_nothing_asked_nothing_read(
    topic: Seq<char>,
    partition: i32,
    mode: ReadMode,
    desired: i64,
    expired: bool,
    event: ReadEvent,
)
    requires
        desired <= 0,
    ensures
        ReadView::begin(topic, partition, mode, desired).action(expired) == ReadAction::Finish,
        ReadView::begin(topic, partition, mode, desired).buffer.len() == 0,
        ReadView::begin(topic, partition, mode, desired).failure is None,
        ReadView::begin(topic, partition, mode, desired).on_event(event) == ReadView::begin(
            topic,
            partition,
            mode,
            desired,
        ),
        ReadView::begin(topic, partition, mode, desired).after_action(expired).phase is Done,
{
}

/// A tail read never goes back further than the partition reaches: from the
/// watermarks `earliest <= latest` and the number asked for, it takes the
/// smaller of what is there and what is asked for.
pub proof fn law_tail_takes_the_smaller(earliest: i64, latest: i64, desired: i64)
    requires
        0 <= earliest <= latest,
        0 <= desired,
    ensures
        tail_want(earliest as int, latest as int, desired as int) == if latest - earliest
            <= desired {
            latest - earliest
        } else {
            desired as int
        },
        tail_want(earliest as int, latest as int, desired as int) <= latest - earliest,
        tail_want(earliest as int, latest as int, desired as int) <= desired,
{
}

/// Once the watermarks are in, a tail read has the consumer assigned as far
/// before the end of the partition as `tail_want` says.
pub proof fn law_tail_assigns_from_the_end(
    topic: Seq<char>,
    partition: i32,
    desired: i64,
    earliest: i64,
    latest: i64,
    expired: bool,
)
    requires
        desired > 0,
    ensures
        ReadView::begin(topic, partition, ReadMode::Tail, desired).action(expired)
            == ReadAction::FetchWatermarks,
        ReadView::begin(topic, partition, ReadMode::Tail, desired).on_event(
            ReadEvent::Watermarks(earliest, latest),
        ).action(expired) == ReadAction::Assign(
            StartOffset::Tail(tail_want(earliest as int, latest as int, desired as int) as i64),
        ),
{
}

/// A tail read whose watermarks cannot be fetched is over at once: nothing is
/// assigned and nothing is polled, it holds no message, and it ends as the
/// failure of its first step, whatever is reported after that.
pub proof fn law_failed_watermarks_end_the_read(
    topic: Seq<char>,
    partition: i32,
    desired: i64,
    expired: bool,
    later: ReadEvent,
)
    requires
        desired > 0,
    ensures
        ({
            let failed = ReadView::begin(topic, partition, ReadMode::Tail, desired).on_event(
                ReadEvent::Failed,
            );
            &&& failed.action(expired) == ReadAction::Finish
            &&& failed.failure == Some(ReadFailure::Watermarks)
            &&& failed.buffer.len() == 0
            &&& failed.on_event(later) == failed
            &&& failed.after_action(expired) == failed
        }),
{
}

/// A read keeps what it is: reports and questions change neither topic,
/// partition, mode nor the number asked for, and keep a read well formed, so
/// that it never holds more messages than were asked for.
pub proof fn law_read_stays_bounded(read: ReadView, event: ReadEvent, expired: bool)
    requires
        read.well_formed(),
    ensures
        read.on_event(event).well_formed(),
        read.after_action(expired).well_formed(),
        read.on_event(event).desired == read.desired,
        read.after_action(expired).desired == read.desired,
        read.on_event(event).buffer.len() <= read.buffer.len() + 1,
        read.after_action(expired).buffer == read.buffer,
{
}

/// A poll that brings nothing ends a read that holds a message already and
/// leaves one that holds none polling; a poll that fails changes nothing.
pub proof fn law_empty_poll(read: ReadView)
    requires
        read.phase is Poll,
    ensures
        read.buffer.len() > 0 ==> read.on_event(ReadEvent::NoMessage).phase is Done,
        read.buffer.len() == 0 ==> read.on_event(ReadEvent::NoMessage) == read,
        read.on_event(ReadEvent::PollFailed) == read,
        read.on_event(ReadEvent::NoMessage).buffer == read.buffer,
{
}

/// What two runs of reads bring together is what the first brings, then what
/// the second brings.
pub proof fn law_gathered_in_order<E>(
    first: Seq<Result<Vec<Record>, E>>,
    second: Seq<Result<Vec<Record>, E>>,
)
    ensures
        gathered(first + second) == gathered(first) + gathered(second),
    decreases second.len(),
{
    if second.len() > 0 {
        assert((first + second).drop_last() =~= first + second.drop_last());
        law_gathered_in_order(first, second.drop_last());
    }
}

/// A partition whose read failed adds nothing: the result is that of the
/// other partitions alone, in their order.
pub proof fn law_failed_read_adds_nothing<E>(outcomes: Seq<Result<Vec<Record>, E>>, k: int)
    requires
        0 <= k < outcomes.len(),
        outcomes[k] is Err,
    ensures
        gathered(outcomes) == gathered(outcomes.remove(k)),
{
    let before = outcomes.take(k);
    let one = seq![outcomes[k]];
    let after = outcomes.skip(k + 1);
    assert(outcomes =~= before + one + after);
    law_gathered_in_order(before + one, after);
    law_gathered_in_order(before, one);
    law_gathered_in_order(before, after);
    assert(one.drop_last() =~= Seq::<Result<Vec<Record>, E>>::empty());
    assert(gathered(Seq::<Result<Vec<Record>, E>>::empty()) =~= Seq::<Record>::empty());
}

/// A partition whose read went well adds its messages behind those of the
/// partitions before it.
pub proof fn law_good_read_adds_its_messages<E>(
    outcomes: Seq<Result<Vec<Record>, E>>,
    records: Vec<Record>,
)
    ensures
        gathered(outcomes.push(Ok(records))) == gathered(outcomes) + records@,
{
    assert(outcomes.push(Ok(records)).drop_last() =~= outcomes);
}

} // verus!
