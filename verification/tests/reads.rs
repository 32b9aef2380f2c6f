use kators::kafka::consumer_ops::gather;
use kators::kafka::consumer_ops::tail_count;
use kators::kafka::consumer_ops::PartitionRead;
use kators::kafka::consumer_ops::ReadAction;
use kators::kafka::consumer_ops::ReadEvent;
use kators::kafka::consumer_ops::ReadFailure;
use kators::kafka::consumer_ops::Record;
use kators::kafka::consumer_ops::StartOffset;
use kators::kafka::consumer_ops::Timestamp;
use kators::kafka::consumer_ops::POLL_SLICE_MS;
use kators::kafka::consumer_ops::REQUEST_TIMEOUT_MS;

fn record(partition: i32, offset: i64) -> Record {
    Record {
        partition,
        offset,
        timestamp: Timestamp::CreateTime(1_700_000_000_000 + offset),
        key: Some(offset.to_string().into_bytes()),
        payload: Some(vec![1, 2, 3]),
        headers: vec![("h".to_string(), vec![0])],
    }
}

/// A partition as a broker would serve it: it holds the offsets from
/// `earliest` up to `latest` and counts what is asked of it.
struct FakePartition {
    earliest: i64,
    latest: i64,
    next: i64,
    watermark_calls: usize,
    assign_calls: usize,
    poll_calls: usize,
    assigned: Option<StartOffset>,
    fail_watermarks: bool,
    fail_assign: bool,
}

impl FakePartition {
    fn new(earliest: i64, latest: i64) -> Self {
        FakePartition {
            earliest,
            latest,
            next: earliest,
            watermark_calls: 0,
            assign_calls: 0,
            poll_calls: 0,
            assigned: None,
            fail_watermarks: false,
            fail_assign: false,
        }
    }

    fn calls(&self) -> usize {
        self.watermark_calls + self.assign_calls + self.poll_calls
    }

    fn serve(&mut self, action: ReadAction, partition: i32) -> ReadEvent {
        match action {
            ReadAction::FetchWatermarks => {
                self.watermark_calls += 1;
                if self.fail_watermarks {
                    ReadEvent::Failed
                } else {
                    ReadEvent::Watermarks(self.earliest, self.latest)
                }
            }
            ReadAction::Assign(start) => {
                self.assign_calls += 1;
                if self.fail_assign {
                    return ReadEvent::Failed;
                }
                self.assigned = Some(start);
                self.next = start.first_offset(self.earliest, self.latest).unwrap();
                ReadEvent::Assigned
            }
            ReadAction::Poll => {
                self.poll_calls += 1;
                if self.next < self.latest {
                    let r = record(partition, self.next);
                    self.next += 1;
                    ReadEvent::Message(r)
                } else {
                    ReadEvent::NoMessage
                }
            }
            ReadAction::Finish => unreachable!(),
        }
    }
}

fn run(mut read: PartitionRead, fake: &mut FakePartition, polls_before_deadline: usize) -> Result<Vec<Record>, ReadFailure> {
    let partition = read.partition();
    loop {
        let expired = fake.poll_calls >= polls_before_deadline;
        match read.next_action(expired) {
            ReadAction::Finish => return read.finish(),
            action => {
                let event = fake.serve(action, partition);
                read.on_event(event);
            }
        }
    }
}

#[test]
fn tail_read_of_orders() {
    let mut fake = FakePartition::new(100, 150);
    let read = PartitionRead::tail("orders".to_string(), 0, 30);
    assert_eq!(read.topic(), "orders");
    assert_eq!(read.partition(), 0);
    let records = run(read, &mut fake, 1000).unwrap();
    assert_eq!(fake.assigned, Some(StartOffset::Tail(30)));
    assert_eq!(StartOffset::Tail(30).first_offset(100, 150), Some(120));
    assert_eq!(fake.watermark_calls, 1);
    assert_eq!(fake.assign_calls, 1);
    assert!(records.len() <= 30);
    assert_eq!(records.len(), 30);
    for (i, r) in records.iter().enumerate() {
        assert!(120 <= r.offset && r.offset < 150);
        assert_eq!(r.offset, 120 + i as i64);
        assert_eq!(r.partition, 0);
    }
}

#[test]
fn nothing_asked_for_means_no_call() {
    for desired in [0i64, -1, i64::MIN] {
        let mut fake = FakePartition::new(100, 150);
        let records = run(PartitionRead::tail("orders".to_string(), 0, desired), &mut fake, 1000).unwrap();
        assert!(records.is_empty());
        assert_eq!(fake.calls(), 0);
        let mut fake = FakePartition::new(100, 150);
        let records = run(PartitionRead::from_offset("orders".to_string(), 0, 110, desired), &mut fake, 1000).unwrap();
        assert!(records.is_empty());
        assert_eq!(fake.calls(), 0);
        let mut fake = FakePartition::new(100, 150);
        let records = run(PartitionRead::from_beginning("orders".to_string(), 0, desired), &mut fake, 1000).unwrap();
        assert!(records.is_empty());
        assert_eq!(fake.calls(), 0);
    }
}

#[test]
fn tail_count_is_the_smaller_of_available_and_desired() {
    assert_eq!(tail_count(100, 150, 30), 30);
    assert_eq!(tail_count(100, 150, 50), 50);
    assert_eq!(tail_count(100, 150, 51), 50);
    assert_eq!(tail_count(100, 150, 200), 50);
    assert_eq!(tail_count(0, 0, 10), 0);
    assert_eq!(tail_count(7, 7, 10), 0);
    assert_eq!(tail_count(0, 1, 1), 1);
    assert_eq!(tail_count(0, i64::MAX, 5), 5);
    assert_eq!(tail_count(0, i64::MAX, i64::MAX), i64::MAX);
    for (e, l, d) in [(0i64, 10i64, 3i64), (5, 9, 100), (0, 0, 0), (3, 1000, 997), (3, 1000, 998)] {
        assert_eq!(tail_count(e, l, d), std::cmp::min(l - e, d));
    }
}

#[test]
fn tail_count_of_an_empty_or_odd_partition_is_zero() {
    assert_eq!(tail_count(5, 3, 10), 0);
    assert_eq!(tail_count(0, 10, 0), 0);
    assert_eq!(tail_count(0, 10, -1), 0);
    assert_eq!(tail_count(i64::MIN, i64::MAX, 7), 7);
    assert_eq!(tail_count(i64::MAX, i64::MIN, 7), 0);
}

#[test]
fn first_offset_of_each_start() {
    assert_eq!(StartOffset::Beginning.first_offset(100, 150), Some(100));
    assert_eq!(StartOffset::At(110).first_offset(100, 150), Some(110));
    assert_eq!(StartOffset::Tail(0).first_offset(100, 150), Some(150));
    assert_eq!(StartOffset::Tail(50).first_offset(100, 150), Some(100));
    assert_eq!(StartOffset::Tail(1).first_offset(0, i64::MIN), None);
}

#[test]
fn short_partition_gives_all_it_has() {
    let mut fake = FakePartition::new(100, 105);
    let records = run(PartitionRead::tail("orders".to_string(), 0, 30), &mut fake, 1000).unwrap();
    assert_eq!(fake.assigned, Some(StartOffset::Tail(5)));
    let offsets: Vec<i64> = records.iter().map(|r| r.offset).collect();
    assert_eq!(offsets, vec![100, 101, 102, 103, 104]);
    // Five polls brought a message; the sixth brought none and ended the read.
    assert_eq!(fake.poll_calls, 6);
}

#[test]
fn empty_partition_is_not_polled() {
    let mut fake = FakePartition::new(100, 100);
    let records = run(PartitionRead::tail("orders".to_string(), 0, 30), &mut fake, 1000).unwrap();
    assert!(records.is_empty());
    assert_eq!(fake.watermark_calls, 1);
    assert_eq!(fake.assigned, Some(StartOffset::Tail(0)));
    assert_eq!(fake.poll_calls, 0);
}

#[test]
fn watermark_failure_is_reported() {
    let mut fake = FakePartition::new(100, 150);
    fake.fail_watermarks = true;
    let r = run(PartitionRead::tail("orders".to_string(), 0, 30), &mut fake, 1000);
    assert_eq!(r.err(), Some(ReadFailure::Watermarks));
    assert_eq!(fake.assign_calls, 0);
    assert_eq!(fake.poll_calls, 0);
}

#[test]
fn assign_failure_is_reported() {
    let mut fake = FakePartition::new(100, 150);
    fake.fail_assign = true;
    let r = run(PartitionRead::tail("orders".to_string(), 0, 30), &mut fake, 1000);
    assert_eq!(r.err(), Some(ReadFailure::Assign));
    assert_eq!(fake.poll_calls, 0);
    let mut fake = FakePartition::new(100, 150);
    fake.fail_assign = true;
    let r = run(PartitionRead::from_beginning("orders".to_string(), 0, 30), &mut fake, 1000);
    assert_eq!(r.err(), Some(ReadFailure::Assign));
}

#[test]
fn deadline_ends_the_read() {
    let mut fake = FakePartition::new(100, 150);
    let records = run(PartitionRead::tail("orders".to_string(), 0, 30), &mut fake, 4).unwrap();
    assert_eq!(records.len(), 4);
    assert_eq!(fake.poll_calls, 4);
}

#[test]
fn empty_poll_before_any_message_keeps_polling() {
    let mut read = PartitionRead::tail("orders".to_string(), 0, 3);
    assert_eq!(read.next_action(false), ReadAction::FetchWatermarks);
    read.on_event(ReadEvent::Watermarks(0, 10));
    assert_eq!(read.next_action(false), ReadAction::Assign(StartOffset::Tail(3)));
    read.on_event(ReadEvent::Assigned);
    assert_eq!(read.next_action(false), ReadAction::Poll);
    read.on_event(ReadEvent::NoMessage);
    assert_eq!(read.next_action(false), ReadAction::Poll);
    read.on_event(ReadEvent::PollFailed);
    assert_eq!(read.next_action(false), ReadAction::Poll);
    read.on_event(ReadEvent::Message(record(0, 7)));
    assert_eq!(read.len(), 1);
    assert_eq!(read.next_action(false), ReadAction::Poll);
    read.on_event(ReadEvent::PollFailed);
    assert_eq!(read.next_action(false), ReadAction::Poll);
    read.on_event(ReadEvent::NoMessage);
    assert_eq!(read.next_action(false), ReadAction::Finish);
    let records = read.finish().unwrap();
    assert_eq!(records.len(), 1);
    assert_eq!(records[0].offset, 7);
}

#[test]
fn a_finished_read_stays_finished() {
    let mut read = PartitionRead::tail("orders".to_string(), 0, 3);
    read.on_event(ReadEvent::Watermarks(0, 10));
    read.on_event(ReadEvent::Assigned);
    assert_eq!(read.next_action(true), ReadAction::Finish);
    assert_eq!(read.next_action(false), ReadAction::Finish);
    read.on_event(ReadEvent::Message(record(0, 7)));
    assert_eq!(read.len(), 0);
    assert!(read.finish().unwrap().is_empty());
}

#[test]
fn reports_out_of_turn_change_nothing() {
    let mut read = PartitionRead::tail("orders".to_string(), 0, 3);
    read.on_event(ReadEvent::Message(record(0, 1)));
    read.on_event(ReadEvent::Assigned);
    read.on_event(ReadEvent::NoMessage);
    assert_eq!(read.len(), 0);
    assert_eq!(read.next_action(false), ReadAction::FetchWatermarks);
    read.on_event(ReadEvent::Watermarks(0, 10));
    read.on_event(ReadEvent::Watermarks(0, 2));
    assert_eq!(read.next_action(false), ReadAction::Assign(StartOffset::Tail(3)));
}

#[test]
fn never_more_messages_than_asked_for() {
    let mut read = PartitionRead::tail("orders".to_string(), 0, 2);
    read.on_event(ReadEvent::Watermarks(0, 10));
    read.on_event(ReadEvent::Assigned);
    for offset in 0..5 {
        read.on_event(ReadEvent::Message(record(0, offset)));
    }
    assert_eq!(read.len(), 2);
    assert_eq!(read.next_action(false), ReadAction::Finish);
    let offsets: Vec<i64> = read.finish().unwrap().iter().map(|r| r.offset).collect();
    assert_eq!(offsets, vec![0, 1]);
}

#[test]
fn read_from_offset_and_from_beginning() {
    let mut fake = FakePartition::new(100, 150);
    let records = run(PartitionRead::from_offset("orders".to_string(), 0, 140, 30), &mut fake, 1000).unwrap();
    assert_eq!(fake.watermark_calls, 0);
    assert_eq!(fake.assigned, Some(StartOffset::At(140)));
    let offsets: Vec<i64> = records.iter().map(|r| r.offset).collect();
    assert_eq!(offsets, (140..150).collect::<Vec<i64>>());

    let mut fake = FakePartition::new(100, 150);
    let records = run(PartitionRead::from_beginning("orders".to_string(), 3, 4), &mut fake, 1000).unwrap();
    assert_eq!(fake.watermark_calls, 0);
    assert_eq!(fake.assigned, Some(StartOffset::Beginning));
    let offsets: Vec<i64> = records.iter().map(|r| r.offset).collect();
    assert_eq!(offsets, vec![100, 101, 102, 103]);
    assert!(records.iter().all(|r| r.partition == 3));
}

#[test]
fn all_partitions_with_one_failure() {
    let partitions = 4;
    let failing = 2;
    let mut outcomes: Vec<Result<Vec<Record>, ReadFailure>> = Vec::new();
    for p in 0..partitions {
        let mut fake = FakePartition::new(0, 3);
        fake.fail_watermarks = p == failing;
        outcomes.push(run(PartitionRead::tail("orders".to_string(), p, 10), &mut fake, 1000));
    }
    let records = gather(outcomes);
    let seen: Vec<(i32, i64)> = records.iter().map(|r| (r.partition, r.offset)).collect();
    assert_eq!(
        seen,
        vec![(0, 0), (0, 1), (0, 2), (1, 0), (1, 1), (1, 2), (3, 0), (3, 1), (3, 2)]
    );
}

#[test]
fn gather_of_nothing_and_of_failures_only() {
    let none: Vec<Result<Vec<Record>, String>> = vec![];
    assert!(gather(none).is_empty());
    let failures: Vec<Result<Vec<Record>, String>> = vec![Err("a".to_string()), Err("b".to_string())];
    assert!(gather(failures).is_empty());
    let mixed: Vec<Result<Vec<Record>, String>> = vec![Ok(vec![]), Ok(vec![record(1, 5)]), Err("x".to_string()), Ok(vec![record(2, 6), record(2, 7)])];
    let seen: Vec<(i32, i64)> = gather(mixed).iter().map(|r| (r.partition, r.offset)).collect();
    assert_eq!(seen, vec![(1, 5), (2, 6), (2, 7)]);
}

#[test]
fn timing_constants() {
    assert_eq!(REQUEST_TIMEOUT_MS, 1000);
    assert_eq!(POLL_SLICE_MS, 10);
}
