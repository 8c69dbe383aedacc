use i68apollo::cable::{InterfaceState, ReassemblyBuffer};

/// Runs the read loop: serve a record once enough is queued, else take the next chunk.
fn read(buf: &mut ReassemblyBuffer, chunks: &mut Vec<Vec<u8>>, n: usize, repair: bool) -> Vec<u8> {
    loop {
        if let Some(r) = buf.next_record(n, repair) {
            return r;
        }
        let c = chunks.remove(0);
        buf.absorb(&c);
    }
}

#[test]
fn records_follow_the_concatenation_of_chunks() {
    let mut buf = ReassemblyBuffer::new();
    let mut chunks = vec![vec![1u8, 2], vec![3, 4, 5], vec![6], vec![7, 8, 9]];
    assert_eq!(read(&mut buf, &mut chunks, 4, false), vec![1, 2, 3, 4]);
    assert_eq!(buf.queued(), 1);
    assert_eq!(read(&mut buf, &mut chunks, 2, false), vec![5, 6]);
    assert_eq!(read(&mut buf, &mut chunks, 3, false), vec![7, 8, 9]);
    assert_eq!(buf.stat_bytes_read_overall(), 9);
    assert!(chunks.is_empty());
}

#[test]
fn record_waits_for_enough_bytes() {
    let mut buf = ReassemblyBuffer::new();
    assert_eq!(buf.next_record(3, true), None);
    buf.absorb(&[1, 2]);
    assert_eq!(buf.next_record(3, true), None);
    assert_eq!(buf.queued(), 2);
    buf.absorb(&[3]);
    assert_eq!(buf.next_record(3, true), Some(vec![1, 2, 3]));
    assert_eq!(buf.queued(), 0);
    assert_eq!(buf.stat_overreads(), 0);
    assert_eq!(buf.stat_malformed_reads(), 0);
}

#[test]
fn overread_not_a_whole_record_is_repaired() {
    let mut buf = ReassemblyBuffer::new();
    buf.absorb(&[10, 11, 12, 13, 14]);
    assert_eq!(buf.next_record(3, true), Some(vec![12, 13, 14]));
    assert_eq!(buf.stat_malformed_reads(), 1);
    assert_eq!(buf.stat_overreads(), 1);
    assert_eq!(buf.queued(), 0);
    assert_eq!(buf.stat_bytes_read_overall(), 5);
}

#[test]
fn overread_of_whole_records_is_kept() {
    let mut buf = ReassemblyBuffer::new();
    buf.absorb(&[1, 2, 3, 4, 5, 6, 7, 8, 9]);
    assert_eq!(buf.next_record(3, true), Some(vec![1, 2, 3]));
    assert_eq!(buf.stat_malformed_reads(), 0);
    assert_eq!(buf.stat_overreads(), 1);
    assert_eq!(buf.next_record(3, true), Some(vec![4, 5, 6]));
    assert_eq!(buf.next_record(3, true), Some(vec![7, 8, 9]));
    assert_eq!(buf.stat_overreads(), 1);
}

#[test]
fn overread_without_repair_drops_nothing() {
    let mut buf = ReassemblyBuffer::new();
    buf.absorb(&[1, 2, 3, 4, 5]);
    assert_eq!(buf.next_record(3, false), Some(vec![1, 2, 3]));
    assert_eq!(buf.stat_overreads(), 1);
    assert_eq!(buf.stat_malformed_reads(), 0);
    assert_eq!(buf.queued(), 2);
}

#[test]
fn repair_counts_excess_since_last_record() {
    let mut buf = ReassemblyBuffer::new();
    buf.absorb(&[1, 2]);
    buf.absorb(&[3, 4, 5, 6]);
    // six bytes queued for a record of four: two left over, not a whole record
    assert_eq!(buf.next_record(4, true), Some(vec![3, 4, 5, 6]));
    assert_eq!(buf.stat_malformed_reads(), 1);
}

#[test]
fn single_byte_records_are_never_malformed() {
    let mut buf = ReassemblyBuffer::new();
    buf.absorb(&[0x50, 7, 8]);
    assert_eq!(buf.next_record(1, true), Some(vec![0x50]));
    assert_eq!(buf.stat_malformed_reads(), 0);
    assert_eq!(buf.stat_overreads(), 1);
}

#[test]
fn release_is_idempotent() {
    let mut s = InterfaceState::Claimed;
    assert!(s.may_transfer());
    assert!(s.release());
    assert_eq!(s, InterfaceState::Released);
    assert!(!s.may_transfer());
    assert!(!s.release());
    assert_eq!(s, InterfaceState::Released);
    let mut never = InterfaceState::Unclaimed;
    assert!(!never.release());
    assert_eq!(never, InterfaceState::Unclaimed);
}
