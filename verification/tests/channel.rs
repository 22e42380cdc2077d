use mpv_player::channel::{
    after_connect_attempt, after_write, connect_backoff, ConnectFailure, ConnectOutcome,
    ConnectStep, ControlChannel, ReadFailure, ReadOutcome, SendFailure, SendStep, WriteOutcome,
    CONNECT_BACKOFF_BASE_MS, CONNECT_BACKOFF_CAP_MS, MAX_CONNECT_ATTEMPTS,
};
use mpv_player::wire::{frame_command, IncomingEvent};

fn event(name: &str, data: &str) -> IncomingEvent {
    IncomingEvent { name: name.as_bytes().to_vec(), data: data.as_bytes().to_vec() }
}

#[test]
fn the_numbers_of_the_retry_policy() {
    assert_eq!(MAX_CONNECT_ATTEMPTS, 10);
    assert_eq!(CONNECT_BACKOFF_BASE_MS, 10);
    assert_eq!(CONNECT_BACKOFF_CAP_MS, 1000);
}

#[test]
fn the_wait_doubles_up_to_the_cap() {
    let expected = [10, 10, 20, 40, 80, 160, 320, 640, 1000, 1000, 1000];
    for (failures, wait) in expected.iter().enumerate() {
        assert_eq!(connect_backoff(failures as u32), *wait, "after {failures}");
    }
    assert_eq!(connect_backoff(1000), 1000);
    assert_eq!(connect_backoff(u32::MAX), 1000);
}

#[test]
fn a_connection_ends_the_attempts() {
    for attempts in [0, 1, 5, 10, 11, u32::MAX] {
        assert_eq!(
            after_connect_attempt(attempts, ConnectOutcome::Connected),
            ConnectStep::Connected
        );
    }
}

#[test]
fn a_rejected_connection_is_not_tried_again() {
    for attempts in [0, 1, 5, 10, 11] {
        assert_eq!(
            after_connect_attempt(attempts, ConnectOutcome::Rejected),
            ConnectStep::Failed(ConnectFailure::Rejected)
        );
    }
}

#[test]
fn a_renderer_that_is_not_listening_is_tried_again_ten_times_in_all() {
    assert_eq!(
        after_connect_attempt(1, ConnectOutcome::NotListening),
        ConnectStep::RetryAfter(10)
    );
    assert_eq!(
        after_connect_attempt(2, ConnectOutcome::NotListening),
        ConnectStep::RetryAfter(20)
    );
    assert_eq!(
        after_connect_attempt(9, ConnectOutcome::NotListening),
        ConnectStep::RetryAfter(1000)
    );
    assert_eq!(
        after_connect_attempt(10, ConnectOutcome::NotListening),
        ConnectStep::Failed(ConnectFailure::NotListening)
    );
    assert_eq!(
        after_connect_attempt(11, ConnectOutcome::NotListening),
        ConnectStep::Failed(ConnectFailure::NotListening)
    );
}

#[test]
fn connecting_gives_up_after_a_bounded_wait() {
    let mut attempts = 0;
    let mut waited = 0;
    loop {
        attempts += 1;
        match after_connect_attempt(attempts, ConnectOutcome::NotListening) {
            ConnectStep::RetryAfter(ms) => waited += ms,
            ConnectStep::Failed(failure) => {
                assert_eq!(failure, ConnectFailure::NotListening);
                break;
            }
            ConnectStep::Connected => panic!("nothing was listening"),
        }
    }
    assert_eq!(attempts, 10);
    assert_eq!(waited, 10 + 20 + 40 + 80 + 160 + 320 + 640 + 1000 + 1000);
}

#[test]
fn a_write_of_everything_is_done() {
    assert_eq!(after_write(10, 0, WriteOutcome::Wrote(10)), SendStep::Done);
    assert_eq!(after_write(10, 4, WriteOutcome::Wrote(6)), SendStep::Done);
}

#[test]
fn a_short_write_goes_on_where_it_stopped() {
    assert_eq!(after_write(10, 0, WriteOutcome::Wrote(3)), SendStep::WriteFrom(3));
    assert_eq!(after_write(10, 3, WriteOutcome::Wrote(6)), SendStep::WriteFrom(9));
}

#[test]
fn a_write_that_would_block_is_tried_again() {
    assert_eq!(after_write(10, 0, WriteOutcome::WouldBlock), SendStep::AwaitWritable(0));
    assert_eq!(after_write(10, 9, WriteOutcome::WouldBlock), SendStep::AwaitWritable(9));
}

#[test]
fn a_command_is_never_sent_in_part() {
    let closed = SendStep::Failed(SendFailure::ChannelClosed);
    assert_eq!(after_write(10, 4, WriteOutcome::Wrote(0)), closed);
    assert_eq!(after_write(10, 4, WriteOutcome::Wrote(7)), closed);
    assert_eq!(after_write(10, 11, WriteOutcome::Wrote(1)), closed);
    assert_eq!(after_write(10, 10, WriteOutcome::WouldBlock), closed);
    assert_eq!(after_write(10, 4, WriteOutcome::Wrote(usize::MAX)), closed);
    assert_eq!(after_write(usize::MAX, usize::MAX - 1, WriteOutcome::Wrote(1)), SendStep::Done);
    assert_eq!(after_write(10, 4, WriteOutcome::Failed), SendStep::Failed(SendFailure::Io));
    assert_eq!(after_write(10, 0, WriteOutcome::Failed), SendStep::Failed(SendFailure::Io));
}

#[test]
fn a_command_is_written_in_pieces() {
    let frame = frame_command("loadfile \"a.mp4\"");
    let mut written: Vec<u8> = Vec::new();
    let mut sent = 0;
    loop {
        let piece = (frame.len() - sent).min(5);
        written.extend_from_slice(&frame[sent..sent + piece]);
        match after_write(frame.len(), sent, WriteOutcome::Wrote(piece)) {
            SendStep::WriteFrom(offset) => {
                assert_eq!(offset, sent + piece);
                sent = offset;
            }
            SendStep::Done => break,
            other => panic!("{other:?}"),
        }
    }
    assert_eq!(written, frame);
}

#[test]
fn a_new_channel_is_open() {
    let channel = ControlChannel::new();
    assert_eq!(channel.closed(), None);
}

#[test]
fn whole_lines_become_events() {
    let mut channel = ControlChannel::new();
    let events = channel.receive(b"{\"event\":\"pause\"}\n{\"event\":\"unpause\"}\n");
    assert_eq!(events, vec![event("pause", ""), event("unpause", "")]);
}

#[test]
fn a_line_may_come_in_pieces() {
    let mut channel = ControlChannel::new();
    assert_eq!(channel.receive(b"{\"eve"), vec![]);
    assert_eq!(channel.receive(b"nt\":\"file-"), vec![]);
    assert_eq!(channel.receive(b""), vec![]);
    assert_eq!(channel.receive(b"loaded\"}"), vec![]);
    assert_eq!(
        channel.receive(b"\n{\"event\":\"seek\",\"a\":1}\n{\"ev"),
        vec![event("file-loaded", ""), event("seek", "\"a\":1")]
    );
    assert_eq!(channel.receive(b"ent\":\"idle\"}\n"), vec![event("idle", "")]);
}

#[test]
fn byte_by_byte_gives_the_same_events() {
    let text = b"{\"event\":\"a\"}\nnoise\n\n{\"event\":\"b\",\"k\":2}\n{\"event\":\"c\"}";
    let mut whole = ControlChannel::new();
    let at_once = whole.receive(text);
    let mut piecewise = ControlChannel::new();
    let mut one_by_one = Vec::new();
    for byte in text {
        one_by_one.extend(piecewise.receive(&[*byte]));
    }
    assert_eq!(at_once, vec![event("a", ""), event("b", "\"k\":2")]);
    assert_eq!(one_by_one, at_once);
    assert_eq!(whole.receive(b"\n"), vec![event("c", "")]);
    assert_eq!(piecewise.receive(b"\n"), vec![event("c", "")]);
}

#[test]
fn lines_that_are_no_records_are_dropped() {
    let mut channel = ControlChannel::new();
    let events = channel.receive(
        b"hello\n{\"data\":null,\"error\":\"success\"}\n{\"event\":\"pause\"}\n\n{\"event\":\"\"}\n",
    );
    assert_eq!(events, vec![event("pause", "")]);
    assert_eq!(channel.receive(b"{\"event\":\"unpause\"}\n"), vec![event("unpause", "")]);
}

#[test]
fn a_read_of_bytes_is_received() {
    let mut channel = ControlChannel::new();
    let step = channel.on_read(ReadOutcome::Data(b"{\"event\":\"pause\"}\n{\"ev".to_vec()));
    assert_eq!(step.events, vec![event("pause", "")]);
    assert_eq!(step.closed, None);
    let step = channel.on_read(ReadOutcome::Data(b"ent\":\"unpause\"}\n".to_vec()));
    assert_eq!(step.events, vec![event("unpause", "")]);
    assert_eq!(step.closed, None);
    assert_eq!(channel.closed(), None);
}

#[test]
fn a_read_that_would_block_changes_nothing() {
    let mut channel = ControlChannel::new();
    let step = channel.on_read(ReadOutcome::Data(b"{\"event\":\"pau".to_vec()));
    assert!(step.events.is_empty());
    for _ in 0..3 {
        let step = channel.on_read(ReadOutcome::WouldBlock);
        assert!(step.events.is_empty());
        assert_eq!(step.closed, None);
    }
    let step = channel.on_read(ReadOutcome::Data(b"se\"}\n".to_vec()));
    assert_eq!(step.events, vec![event("pause", "")]);
}

#[test]
fn a_read_of_nothing_closes_the_channel() {
    let mut channel = ControlChannel::new();
    let step = channel.on_read(ReadOutcome::Data(vec![]));
    assert!(step.events.is_empty());
    assert_eq!(step.closed, Some(ReadFailure::EndOfStream));
    assert_eq!(channel.closed(), Some(ReadFailure::EndOfStream));
}

#[test]
fn a_failed_read_closes_the_channel() {
    let mut channel = ControlChannel::new();
    let step = channel.on_read(ReadOutcome::Failed);
    assert!(step.events.is_empty());
    assert_eq!(step.closed, Some(ReadFailure::Io));
    assert_eq!(channel.closed(), Some(ReadFailure::Io));
}

#[test]
fn a_closed_channel_stays_closed() {
    let mut channel = ControlChannel::new();
    channel.on_read(ReadOutcome::Failed);
    let step = channel.on_read(ReadOutcome::Data(b"{\"event\":\"pause\"}\n".to_vec()));
    assert!(step.events.is_empty());
    assert_eq!(step.closed, Some(ReadFailure::Io));
    let step = channel.on_read(ReadOutcome::Data(vec![]));
    assert_eq!(step.closed, Some(ReadFailure::Io));
    let step = channel.on_read(ReadOutcome::WouldBlock);
    assert_eq!(step.closed, Some(ReadFailure::Io));
    assert_eq!(channel.closed(), Some(ReadFailure::Io));
}
