use exospot::bridge::ByteBridge;
use exospot::bridge::ReadOutcome;

fn expect_data(r: ReadOutcome) -> Vec<u8> {
    match r {
        ReadOutcome::Data(d) => d,
        ReadOutcome::End => panic!("stream ended early"),
        ReadOutcome::Pending => panic!("no data buffered"),
    }
}

#[test]
fn open_empty_stream_is_pending_not_ended() {
    let mut b = ByteBridge::new();
    assert!(matches!(b.read(16), ReadOutcome::Pending));
    assert!(matches!(b.read(1), ReadOutcome::Pending));
    assert!(!b.is_ended());
}

#[test]
fn bytes_come_back_in_stream_order() {
    let mut b = ByteBridge::new();
    b.push_chunk(vec![1, 2, 3]);
    b.push_chunk(vec![4, 5]);
    assert_eq!(expect_data(b.read(2)), vec![1, 2]);
    assert_eq!(expect_data(b.read(16)), vec![3, 4, 5]);
    assert!(matches!(b.read(1), ReadOutcome::Pending));
}

#[test]
fn zero_length_chunk_changes_nothing() {
    let mut b = ByteBridge::new();
    b.push_chunk(vec![]);
    assert!(matches!(b.read(4), ReadOutcome::Pending));
    b.push_chunk(vec![9]);
    b.push_chunk(vec![]);
    assert_eq!(expect_data(b.read(4)), vec![9]);
    assert!(matches!(b.read(4), ReadOutcome::Pending));
}

#[test]
fn end_comes_only_after_the_last_byte() {
    let mut b = ByteBridge::new();
    b.push_chunk(vec![7, 8]);
    b.finish();
    assert!(b.is_ended());
    // Buffered bytes still come out before the end is signalled.
    assert_eq!(expect_data(b.read(1)), vec![7]);
    assert_eq!(expect_data(b.read(1)), vec![8]);
    assert!(matches!(b.read(1), ReadOutcome::End));
    // And the end answer repeats harmlessly after that.
    assert!(matches!(b.read(64), ReadOutcome::End));
}

#[test]
fn finished_empty_stream_ends_immediately() {
    let mut b = ByteBridge::new();
    b.finish();
    assert!(matches!(b.read(32), ReadOutcome::End));
}

#[test]
fn available_counts_unread_bytes() {
    let mut b = ByteBridge::new();
    assert_eq!(b.available(), 0);
    b.push_chunk(vec![1, 2, 3, 4]);
    assert_eq!(b.available(), 4);
    let _ = b.read(3);
    assert_eq!(b.available(), 1);
}

#[test]
fn peek_reads_ahead_without_consuming() {
    let mut b = ByteBridge::new();
    b.push_chunk(vec![0x49, 0x44]);
    b.push_chunk(vec![0x33, 0x04]);
    assert_eq!(b.peek(3), vec![0x49, 0x44, 0x33]);
    assert_eq!(b.peek(16), vec![0x49, 0x44, 0x33, 0x04]);
    // The peeked bytes are all still there for the reader.
    assert_eq!(expect_data(b.read(16)), vec![0x49, 0x44, 0x33, 0x04]);
}

#[test]
fn seek_fails_and_length_is_unknown() {
    let mut b = ByteBridge::new();
    b.push_chunk(vec![1, 2, 3]);
    assert!(!b.is_seekable());
    assert_eq!(b.byte_len(), None);
    assert!(b.seek(2).is_err());
    // The refused seek moved nothing.
    assert_eq!(expect_data(b.read(8)), vec![1, 2, 3]);
}
