use framed_serial::link::{
    next_read_action, next_write_action, ReadAction, ReadEvent, WriteAction, WriteEvent,
};

#[test]
fn data_frames_are_broadcast() {
    assert_eq!(next_read_action(ReadEvent::Received { data_frame: true }, false), ReadAction::Broadcast);
    assert_eq!(next_read_action(ReadEvent::Received { data_frame: true }, true), ReadAction::Broadcast);
}

#[test]
fn other_items_answer_a_caller() {
    assert_eq!(next_read_action(ReadEvent::Received { data_frame: false }, false), ReadAction::Reply);
    assert_eq!(next_read_action(ReadEvent::Received { data_frame: false }, true), ReadAction::Reply);
}

#[test]
fn hardware_errors_stop_the_reader() {
    assert_eq!(next_read_action(ReadEvent::Failed, false), ReadAction::Stop);
    assert_eq!(next_read_action(ReadEvent::Failed, true), ReadAction::Stop);
}

#[test]
fn end_of_stream_stops_unless_retried() {
    assert_eq!(next_read_action(ReadEvent::Ended, false), ReadAction::Stop);
    assert_eq!(next_read_action(ReadEvent::Ended, true), ReadAction::ReadNext);
}

#[test]
fn queued_commands_are_written_then_the_next_is_taken() {
    assert_eq!(next_write_action(WriteEvent::Queued), WriteAction::Write);
    assert_eq!(next_write_action(WriteEvent::Written), WriteAction::TakeNext);
}

#[test]
fn failed_write_or_closed_queue_stops_the_writer() {
    assert_eq!(next_write_action(WriteEvent::WriteFailed), WriteAction::Stop);
    assert_eq!(next_write_action(WriteEvent::QueueClosed), WriteAction::Stop);
}
