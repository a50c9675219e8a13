use uart_term::inbound::{
    inbound_step, InboundNext, InboundStep, ReadOutcome, POLL_INTERVAL_MILLIS, READ_CAPACITY,
};

fn buffer_with(bytes: &[u8]) -> [u8; READ_CAPACITY] {
    let mut buffer = [0u8; READ_CAPACITY];
    buffer[..bytes.len()].copy_from_slice(bytes);
    buffer
}

/// Feeds `stream` through the inbound path in reads of at most `chunk` bytes,
/// with an empty read before each, and returns what the console shows.
fn relay(stream: &[u8], chunk: usize) -> Vec<u8> {
    let mut console = Vec::new();
    for piece in stream.chunks(chunk) {
        let idle = inbound_step(&buffer_with(&[]), ReadOutcome::Received(0), false);
        assert_eq!(idle.next, InboundNext::Pause { millis: 10 });
        console.extend_from_slice(&idle.output);
        let step = inbound_step(&buffer_with(piece), ReadOutcome::Received(piece.len()), false);
        assert_eq!(step.next, InboundNext::Pause { millis: 10 });
        console.extend_from_slice(&step.output);
    }
    console
}

#[test]
fn buffer_holds_512_bytes_and_pause_is_ten_milliseconds() {
    assert_eq!(READ_CAPACITY, 512);
    assert_eq!(POLL_INTERVAL_MILLIS, 10);
}

#[test]
fn received_bytes_are_forwarded_verbatim() {
    let step = inbound_step(&buffer_with(b"OK\n"), ReadOutcome::Received(3), false);
    assert_eq!(
        step,
        InboundStep { output: b"OK\n".to_vec(), next: InboundNext::Pause { millis: 10 } }
    );
}

#[test]
fn only_the_received_part_of_the_buffer_is_forwarded() {
    let step = inbound_step(&buffer_with(b"OK\nstale"), ReadOutcome::Received(3), false);
    assert_eq!(step.output, b"OK\n");
    let one = inbound_step(&buffer_with(b"OK\nstale"), ReadOutcome::Received(1), false);
    assert_eq!(one.output, b"O");
}

#[test]
fn a_full_buffer_is_forwarded_whole() {
    let bytes: Vec<u8> = (0..READ_CAPACITY).map(|i| (i % 256) as u8).collect();
    let step = inbound_step(&bytes, ReadOutcome::Received(READ_CAPACITY), false);
    assert_eq!(step.output, bytes);
    assert_eq!(step.next, InboundNext::Pause { millis: 10 });
}

#[test]
fn bytes_are_not_reframed() {
    let bytes = [0x00, 0xff, b'\r', b'\n', 0x1b, b'[', 0x80, 0x7f];
    let step = inbound_step(&buffer_with(&bytes), ReadOutcome::Received(bytes.len()), false);
    assert_eq!(step.output, bytes);
}

#[test]
fn an_empty_read_shows_nothing_and_goes_on() {
    let step = inbound_step(&buffer_with(b"stale"), ReadOutcome::Received(0), false);
    assert_eq!(step, InboundStep { output: Vec::new(), next: InboundNext::Pause { millis: 10 } });
}

#[test]
fn empty_reads_can_repeat_without_end() {
    for _ in 0..1000 {
        let step = inbound_step(&buffer_with(&[]), ReadOutcome::Received(0), false);
        assert!(step.output.is_empty());
        assert_eq!(step.next, InboundNext::Pause { millis: POLL_INTERVAL_MILLIS });
    }
}

#[test]
fn a_failed_read_is_fatal() {
    let step = inbound_step(&buffer_with(b"stale"), ReadOutcome::Failed, false);
    assert_eq!(step, InboundStep { output: Vec::new(), next: InboundNext::Abort });
    let stopping = inbound_step(&buffer_with(b"stale"), ReadOutcome::Failed, true);
    assert_eq!(stopping, InboundStep { output: Vec::new(), next: InboundNext::Abort });
}

#[test]
fn a_read_beyond_the_buffer_is_fatal() {
    let small = [1u8, 2, 3];
    let step = inbound_step(&small, ReadOutcome::Received(4), false);
    assert_eq!(step, InboundStep { output: Vec::new(), next: InboundNext::Abort });
    let exact = inbound_step(&small, ReadOutcome::Received(3), false);
    assert_eq!(exact.output, small);
    assert_eq!(exact.next, InboundNext::Pause { millis: 10 });
}

#[test]
fn a_stop_request_is_honoured_after_the_bytes_at_hand() {
    let step = inbound_step(&buffer_with(b"bye"), ReadOutcome::Received(3), true);
    assert_eq!(step, InboundStep { output: b"bye".to_vec(), next: InboundNext::Finish });
    let idle = inbound_step(&buffer_with(&[]), ReadOutcome::Received(0), true);
    assert_eq!(idle, InboundStep { output: Vec::new(), next: InboundNext::Finish });
}

#[test]
fn an_empty_buffer_can_only_take_an_empty_read() {
    let step = inbound_step(&[], ReadOutcome::Received(0), false);
    assert_eq!(step, InboundStep { output: Vec::new(), next: InboundNext::Pause { millis: 10 } });
    let beyond = inbound_step(&[], ReadOutcome::Received(1), false);
    assert_eq!(beyond.next, InboundNext::Abort);
}

#[test]
fn console_mirrors_the_device_however_the_stream_is_cut() {
    let stream: Vec<u8> = (0..2000u32).map(|i| (i * 7 % 251) as u8).collect();
    for chunk in [1, 2, 3, 7, 64, 511, 512] {
        assert_eq!(relay(&stream, chunk), stream);
    }
}

#[test]
fn console_mirrors_a_short_text() {
    assert_eq!(relay(b"+CSQ: 23,99\r\n\r\nOK\r\n", 5), b"+CSQ: 23,99\r\n\r\nOK\r\n");
    assert_eq!(relay(b"", 5), b"");
}
