use fern_uring::{RingBufferConsumer, RingBufferError, RingBufferProducer};
use std::sync::atomic::{AtomicU32, Ordering};

#[test]
fn producer_and_consumer_work_together_to_avoid_deadlocks() {
    const ENTRIES: usize = 2;
    let entries = vec![0u32; ENTRIES];
    let mask = u32::try_from(ENTRIES).unwrap() - 1;
    let head = AtomicU32::new(0);
    let tail = AtomicU32::new(u32::try_from(ENTRIES).unwrap());

    let consumer = RingBufferConsumer::new(&entries, &head, &tail, mask).unwrap();
    let producer = RingBufferProducer::new(&entries, &head, &tail, mask).unwrap();

    // One interleaving of the two roles: each makes ENTRIES + 1
    // reserve/commit rounds, retrying whenever the counterpart has not
    // caught up yet.
    let mut consumed = 0usize;
    let mut produced = 0usize;
    while consumed <= ENTRIES || produced <= ENTRIES {
        if consumed <= ENTRIES {
            if let Some(result) = consumer.reserve() {
                let _ = consumer.commit(result);
                consumed += 1;
            }
        }
        if produced <= ENTRIES {
            if let Some(result) = producer.reserve() {
                let _ = producer.commit(result);
                produced += 1;
            }
        }
    }

    // The head reached a certain point, consuming a certain number of
    // entries; the tail could only reach its point because the head moved.
    assert_eq!(ENTRIES + 1, head.load(Ordering::Acquire) as usize);
    assert_eq!(ENTRIES * 2 + 1, tail.load(Ordering::Acquire) as usize);
}

#[test]
fn construction_succeeds_for_power_of_two_lengths() {
    for exponent in 0..11u32 {
        let len = 1usize << exponent;
        let entries = vec![0u32; len];
        let head = AtomicU32::new(0);
        let tail = AtomicU32::new(0);
        let mask = u32::try_from(len).unwrap() - 1;

        assert!(RingBufferProducer::new(&entries, &head, &tail, mask).is_ok());
        assert!(RingBufferConsumer::new(&entries, &head, &tail, mask).is_ok());
        assert!(RingBufferProducer::new_big(&entries, &head, &tail, mask).is_ok());
        assert!(RingBufferConsumer::new_big(&entries, &head, &tail, mask).is_ok());
    }
}

#[test]
fn zero_length_ring_is_rejected() {
    // The next power of two after zero is one, so a zero-length ring can
    // never equal its own next power of two: construction must fail, and
    // deterministically with the power-of-two error (the mask check never
    // runs).
    let entries: Vec<u32> = Vec::new();
    let head = AtomicU32::new(0);
    let tail = AtomicU32::new(0);

    let p = RingBufferProducer::new(&entries, &head, &tail, 0);
    assert!(p.is_err_and(|e| e == RingBufferError::LengthNotPowerOfTwo));
    let pb = RingBufferProducer::new_big(&entries, &head, &tail, 0);
    assert!(pb.is_err_and(|e| e == RingBufferError::LengthNotPowerOfTwo));
    let c = RingBufferConsumer::new(&entries, &head, &tail, 0);
    assert!(c.is_err_and(|e| e == RingBufferError::LengthNotPowerOfTwo));
    let cb = RingBufferConsumer::new_big(&entries, &head, &tail, 0);
    assert!(cb.is_err_and(|e| e == RingBufferError::LengthNotPowerOfTwo));

    // A one-length ring is its own next power of two and is accepted.
    let one = vec![0u32; 1];
    assert!(RingBufferProducer::new(&one, &head, &tail, 0).is_ok());
}

#[test]
fn available_is_wrapping_difference() {
    let entries = vec![0u32; 4];
    let mask = 3;

    // Freshly constructed with head == tail: nothing is available and a
    // consumer reservation yields no handle.
    let head = AtomicU32::new(7);
    let tail = AtomicU32::new(7);
    let consumer = RingBufferConsumer::new(&entries, &head, &tail, mask).unwrap();
    let producer = RingBufferProducer::new(&entries, &head, &tail, mask).unwrap();
    assert_eq!(0, consumer.available());
    assert_eq!(0, producer.available());
    assert!(consumer.reserve().is_none());

    // The difference is taken modulo 2^32, so it survives counter
    // wraparound.
    let head = AtomicU32::new(u32::MAX);
    let tail = AtomicU32::new(1);
    let consumer = RingBufferConsumer::new(&entries, &head, &tail, mask).unwrap();
    assert_eq!(2, consumer.available());
}

#[test]
fn empty_reports_not_full() {
    let entries = vec![0u32; 4];
    let mask = 3;
    let head = AtomicU32::new(0);
    let tail = AtomicU32::new(0);
    let producer = RingBufferProducer::new(&entries, &head, &tail, mask).unwrap();

    // "Empty" is literally "not yet full": true while the occupancy is
    // below the entries length.
    assert!(producer.empty());
    tail.store(4, Ordering::Release);
    assert!(!producer.empty());
}

#[test]
fn sequential_fill_advances_tail_in_order() {
    let entries = vec![0u32; 4];
    let mask = 3;
    let head = AtomicU32::new(0);
    let tail = AtomicU32::new(0);
    let producer = RingBufferProducer::new(&entries, &head, &tail, mask).unwrap();

    // Reserving then committing up to capacity succeeds every time and
    // advances the tail by one per round.
    for i in 0..4u32 {
        let entry = producer.reserve().expect("capacity not yet reached");
        assert_eq!(i, tail.load(Ordering::Acquire));
        assert!(producer.commit(entry).is_ok());
        assert_eq!(i + 1, tail.load(Ordering::Acquire));
    }

    // Reserving beyond the remaining capacity fails without side effects.
    assert!(producer.reserve().is_none());
    assert_eq!(4, tail.load(Ordering::Acquire));
}

#[test]
fn competing_commits_serialize_in_index_order() {
    // Capacity 2, head 0, tail 2: claimant A reserves index 0, claimant B
    // reserves index 1. B's commit fails while the head still expects
    // index 0 and leaves it unchanged; A's commit succeeds; the slot B
    // claimed then commits.
    let entries = vec![0u32; 2];
    let mask = 1;
    let head = AtomicU32::new(0);
    let tail = AtomicU32::new(2);
    let consumer = RingBufferConsumer::new(&entries, &head, &tail, mask).unwrap();

    let entry_a = consumer.reserve().expect("index 0 is claimable");
    let entry_b = consumer.reserve().expect("index 1 is claimable");
    assert!(consumer.reserve().is_none());

    let out_of_order = consumer.commit(entry_b);
    assert!(out_of_order.is_err_and(|e| e == RingBufferError::CommitOutOfOrder));
    assert_eq!(0, head.load(Ordering::Acquire));

    assert!(consumer.commit(entry_a).is_ok());
    assert_eq!(1, head.load(Ordering::Acquire));

    // A failed commit consumes the single-use handle, so the retry claims
    // the same index again through a fresh consumer seeded from the
    // advanced head.
    let retry = RingBufferConsumer::new(&entries, &head, &tail, mask).unwrap();
    let entry_b_again = retry.reserve().expect("index 1 is claimable again");
    assert!(retry.commit(entry_b_again).is_ok());
    assert_eq!(2, head.load(Ordering::Acquire));
}

#[test]
fn counters_wrap_around() {
    let entries = vec![0u32; 2];
    let mask = 1;
    let head = AtomicU32::new(u32::MAX);
    let tail = AtomicU32::new(u32::MAX);
    let producer = RingBufferProducer::new(&entries, &head, &tail, mask).unwrap();

    let first = producer.reserve().expect("ring is free");
    assert!(producer.commit(first).is_ok());
    assert_eq!(0, tail.load(Ordering::Acquire));

    let second = producer.reserve().expect("one slot remains");
    assert!(producer.commit(second).is_ok());
    assert_eq!(1, tail.load(Ordering::Acquire));

    assert_eq!(2, producer.available());
    assert!(producer.reserve().is_none());
}

#[test]
fn reserved_entry_addresses_masked_slot() {
    let entries = vec![10u32, 20, 30, 40];
    let mask = 3;
    let head = AtomicU32::new(0);
    let tail = AtomicU32::new(4);
    let consumer = RingBufferConsumer::new(&entries, &head, &tail, mask).unwrap();

    // Indices 0..4 fold onto slots 0..4 through the mask.
    for expected in [10u32, 20, 30, 40] {
        let entry = consumer.reserve().expect("a published entry remains");
        assert_eq!(expected, *entry.entry());
        assert!(consumer.commit(entry).is_ok());
    }
}

#[test]
fn big_mode_reserves_doubled_slots() {
    let entries = vec![10u32, 20, 30, 40];
    let mask = 3;
    let head = AtomicU32::new(0);
    let tail = AtomicU32::new(4);
    let consumer = RingBufferConsumer::new_big(&entries, &head, &tail, mask).unwrap();

    // Logical entries span two physical slots: index 0 addresses slot 0
    // and index 1 addresses slot 2.
    let first = consumer.reserve().expect("index 0 is claimable");
    assert_eq!(10, *first.entry());
    assert!(consumer.commit(first).is_ok());

    let second = consumer.reserve().expect("index 1 is claimable");
    assert_eq!(30, *second.entry());
    assert!(consumer.commit(second).is_ok());

    // Index 2 would double past the entries slice; the defensive bound
    // yields no handle instead.
    assert!(consumer.reserve().is_none());
}

#[test]
fn error_messages_describe_each_failure() {
    assert_eq!(
        "Entries slice was too long for the ring buffer.",
        RingBufferError::EntriesSliceTooLong.message()
    );
    assert_eq!(
        "Length of entries was not a power of two.",
        RingBufferError::LengthNotPowerOfTwo.message()
    );
    assert_eq!(
        "Mask has incorrect value for length of entries.",
        RingBufferError::InvalidMaskValue.message()
    );
    assert_eq!(
        "A commit was attempted out of order. Another thread may have the next entry to commit. Retrying the operation may succeed.",
        RingBufferError::CommitOutOfOrder.message()
    );
    assert_eq!(
        RingBufferError::EntriesSliceTooLong,
        RingBufferError::default()
    );
}
