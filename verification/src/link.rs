//! The decisions of the read side of a framed serial link.
//!
//! A link keeps two tasks on the device: one writes the commands that
//! callers send, the other reads what the device writes back. Each read item
//! is either an unprompted data frame, which goes to every subscriber, or the
//! result of a command, which goes to the caller that is waiting the longest
//! (or is dropped when nobody waits). The tasks themselves, and the channels
//! between them, live with the asynchronous runtime; this module decides.
//! The write task takes the queued commands one by one and writes them to
//! the device until a write fails or the queue closes.

use crate::slcan::{spec_data_frame, MessageView};
use vstd::prelude::*;

verus! {

/// What the read task got from the device stream.
#[derive(Clone, Copy, Debug, PartialEq, Eq)]
pub enum ReadEvent {
    /// An item; `data_frame` tells whether it converts into the frame type
    /// of the link.
    Received { data_frame: bool },
    /// The stream reported a hardware error.
    Failed,
    /// The stream ended (on Windows, a read timeout shows up this way).
    Ended,
}

/// What the read task does next.
#[derive(Clone, Copy, Debug, PartialEq, Eq)]
pub enum ReadAction {
    /// Send the frame to every subscriber, then read on.
    Broadcast,
    /// Hand the item to the oldest waiting caller, or drop it when nobody
    /// waits, then read on.
    Reply,
    /// Read on.
    ReadNext,
    /// End the read task.
    Stop,
}

/// The read task's decision: data frames are broadcast and answer no
/// caller; any other item answers a caller; a hardware error ends the task;
/// the end of the stream ends it too, unless ends are read timeouts to
/// retry (`retry_on_end`, the case on Windows).
pub open spec fn spec_read_action(event: ReadEvent, retry_on_end: bool) -> ReadAction {
    match event {
        ReadEvent::Received { data_frame } => if data_frame {
            ReadAction::Broadcast
        } else {
            ReadAction::Reply
        },
        ReadEvent::Failed => ReadAction::Stop,
        ReadEvent::Ended => if retry_on_end {
            ReadAction::ReadNext
        } else {
            ReadAction::Stop
        },
    }
}

/// Decides what the read task does with what it got from the device stream.
pub fn next_read_action(event: ReadEvent, retry_on_end: bool) -> (action: ReadAction)
    ensures
        action == spec_read_action(event, retry_on_end),
{
    match event {
        ReadEvent::Received { data_frame } => {
            if data_frame {
                ReadAction::Broadcast
            } else {
                ReadAction::Reply
            }
        },
        ReadEvent::Failed => ReadAction::Stop,
        ReadEvent::Ended => {
            if retry_on_end {
                ReadAction::ReadNext
            } else {
                ReadAction::Stop
            }
        },
    }
}

/// Exactly data frames are broadcast, exactly the items that are not data
/// frames answer a waiting caller, only a retried end of the stream reads
/// on without an item, and only a hardware error, or an end of the stream
/// that is not retried, ends the read task.
pub proof fn law_read_actions(event: ReadEvent, retry_on_end: bool)
    ensures
        spec_read_action(event, retry_on_end) == ReadAction::Broadcast <==> event
            == (ReadEvent::Received { data_frame: true }),
        spec_read_action(event, retry_on_end) == ReadAction::ReadNext <==> (event
            == ReadEvent::Ended && retry_on_end),
        spec_read_action(event, retry_on_end) == ReadAction::Reply <==> event
            == (ReadEvent::Received { data_frame: false }),
        spec_read_action(event, retry_on_end) == ReadAction::Stop <==> (event == ReadEvent::Failed
            || (event == ReadEvent::Ended && !retry_on_end)),
{
}

/// What the write task got.
#[derive(Clone, Copy, Debug, PartialEq, Eq)]
pub enum WriteEvent {
    /// A command was taken off the queue.
    Queued,
    /// The command was written to the device.
    Written,
    /// Writing the command to the device failed.
    WriteFailed,
    /// The queue closed: no sender is left.
    QueueClosed,
}

/// What the write task does next.
#[derive(Clone, Copy, Debug, PartialEq, Eq)]
pub enum WriteAction {
    /// Write the command just taken to the device.
    Write,
    /// Take the next command off the queue.
    TakeNext,
    /// End the write task.
    Stop,
}

/// The write task's decision: a queued command is written, a written one is
/// followed by the next, and a failed write or a closed queue ends the task.
pub open spec fn spec_write_action(event: WriteEvent) -> WriteAction {
    match event {
        WriteEvent::Queued => WriteAction::Write,
        WriteEvent::Written => WriteAction::TakeNext,
        WriteEvent::WriteFailed => WriteAction::Stop,
        WriteEvent::QueueClosed => WriteAction::Stop,
    }
}

/// Decides what the write task does with what it got.
pub fn next_write_action(event: WriteEvent) -> (action: WriteAction)
    ensures
        action == spec_write_action(event),
{
    match event {
        WriteEvent::Queued => WriteAction::Write,
        WriteEvent::Written => WriteAction::TakeNext,
        WriteEvent::WriteFailed => WriteAction::Stop,
        WriteEvent::QueueClosed => WriteAction::Stop,
    }
}

/// A command is written exactly when one was taken off the queue, the next
/// is taken exactly after a successful write, and the write task ends
/// exactly on a failed write or a closed queue.
pub proof fn law_write_actions(event: WriteEvent)
    ensures
        spec_write_action(event) == WriteAction::Write <==> event == WriteEvent::Queued,
        spec_write_action(event) == WriteAction::TakeNext <==> event == WriteEvent::Written,
        spec_write_action(event) == WriteAction::Stop <==> (event == WriteEvent::WriteFailed
            || event == WriteEvent::QueueClosed),
{
}

/// On an SLCAN link, every frame the device sends goes to the subscribers,
/// and every ACK or NACK byte answers the command that waits the longest:
/// an item is a data frame exactly when it converts into `SlCanFrame`.
pub proof fn law_slcan_items_are_routed(item: MessageView, retry_on_end: bool)
    ensures
        spec_read_action(
            ReadEvent::Received { data_frame: spec_data_frame(item) is Ok },
            retry_on_end,
        ) == (if item is Frame {
            ReadAction::Broadcast
        } else {
            ReadAction::Reply
        }),
{
}

} // verus!
