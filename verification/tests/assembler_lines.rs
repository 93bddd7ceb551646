//! Tests of the serial line assembler and the interrupt-side receive
//! queue.

use light_signal::assembler::LINE_CAPACITY;
use light_signal::assembler::LineAssembler;
use light_signal::assembler::RX_QUEUE_CAPACITY;
use light_signal::assembler::RxQueue;

#[test]
fn assembles_one_line() {
    let mut assembler = LineAssembler::new();
    assembler.feed(b"F:1\n");
    assert_eq!(assembler.next_line(), Some(b"F:1\n".to_vec()));
    assert_eq!(assembler.next_line(), None);
}

#[test]
fn keeps_line_boundaries() {
    let mut assembler = LineAssembler::new();
    assembler.feed(b"F:1\nF:0\nF:");
    assert_eq!(assembler.next_line(), Some(b"F:1\n".to_vec()));
    assert_eq!(assembler.next_line(), Some(b"F:0\n".to_vec()));
    assert_eq!(assembler.next_line(), None);
    assembler.feed(b"2\n");
    assert_eq!(assembler.next_line(), Some(b"F:2\n".to_vec()));
}

#[test]
fn assembles_across_feeds() {
    let mut assembler = LineAssembler::new();
    assembler.feed(b"F:");
    assert_eq!(assembler.next_line(), None);
    assembler.feed(b"A");
    assert_eq!(assembler.next_line(), None);
    assembler.feed(b"\n");
    assert_eq!(assembler.next_line(), Some(b"F:A\n".to_vec()));
}

#[test]
fn overlong_line_is_discarded_as_a_whole() {
    let mut assembler = LineAssembler::new();
    for _ in 0..(LINE_CAPACITY + 100) {
        assembler.feed(b"x");
    }
    assert_eq!(assembler.next_line(), None);
    assembler.feed(b"\n");
    assert_eq!(assembler.next_line(), None);
    // Parsing resumes cleanly with the next line.
    assembler.feed(b"F:1\n");
    assert_eq!(assembler.next_line(), Some(b"F:1\n".to_vec()));
}

#[test]
fn overflow_keeps_earlier_complete_lines() {
    let mut assembler = LineAssembler::new();
    assembler.feed(b"F:0\n");
    for _ in 0..(LINE_CAPACITY + 10) {
        assembler.feed(b"y");
    }
    assembler.feed(b"\nF:1\n");
    assert_eq!(assembler.next_line(), Some(b"F:0\n".to_vec()));
    assert_eq!(assembler.next_line(), Some(b"F:1\n".to_vec()));
    assert_eq!(assembler.next_line(), None);
}

#[test]
fn queue_drops_bytes_when_full() {
    let mut queue = RxQueue::new();
    let accepted: Vec<u8> = (0..RX_QUEUE_CAPACITY as u8).map(|i| b'a' + i).collect();
    for (i, b) in accepted.iter().enumerate() {
        assert!(queue.push_byte(*b), "byte {} should be accepted", i);
    }
    assert!(!queue.push_byte(b'z'));

    let mut assembler = LineAssembler::new();
    queue.drain_into(&mut assembler);
    // The dropped byte is gone; the accepted bytes came through in arrival
    // order.
    assembler.feed(b"\n");
    let line = assembler.next_line().expect("a line must be complete");
    assert_eq!(line.len(), RX_QUEUE_CAPACITY + 1);
    assert_eq!(&line[..RX_QUEUE_CAPACITY], accepted);
}

#[test]
fn drained_queue_accepts_again() {
    let mut queue = RxQueue::new();
    let mut assembler = LineAssembler::new();
    for b in b"F:D\n" {
        assert!(queue.push_byte(*b));
    }
    queue.drain_into(&mut assembler);
    assert!(queue.push_byte(b'x'));
    assert_eq!(assembler.next_line(), Some(b"F:D\n".to_vec()));
}
