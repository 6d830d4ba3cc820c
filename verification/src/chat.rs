//! The path of a received chat line: from the host's event to the dispatch
//! task, if the line asks for one.
//!
//! Only lines of the host's normal message type are looked at. Such a line is
//! reassembled with the stored top-level message, and the trigger of the
//! reassembled message, if it has one, becomes a task for the dispatch worker.
//! Lines are handled in the order in which they arrive; the caller keeps the
//! reassembler behind a lock.

use crate::dispatch::DispatchTask;
use crate::host::{in_code_range, message_type, AbiMismatch};
use crate::reassembly::{reassembled, stored_after, ChatReassembler};
use crate::trigger::{extract_trigger, trigger_of};
use vstd::prelude::*;

verus! {

/// The characters of the text of an event.
pub open spec fn line_view(line: Option<&str>) -> Option<Seq<char>> {
    match line {
        Some(text) => Some(text@),
        None => None,
    }
}

/// The trigger that a task carries, if there is a task.
pub open spec fn task_view(task: Option<DispatchTask>) -> Option<Seq<char>> {
    match task {
        Some(task) => Some(task@),
        None => None,
    }
}

/// Whether a received line is looked at: it is of the normal message type and
/// the host handed over a text.
pub open spec fn is_handled(line: Option<Seq<char>>, raw_type: i32, normal_type: u32) -> bool {
    line is Some && raw_type == normal_type
}

/// The stored top-level message after a line has been received.
pub open spec fn stored_after_event(
    stored: Option<Seq<char>>,
    line: Option<Seq<char>>,
    raw_type: i32,
    normal_type: u32,
) -> Option<Seq<char>> {
    if in_code_range(raw_type) && is_handled(line, raw_type, normal_type) {
        stored_after(stored, line->0)
    } else {
        stored
    }
}

/// The trigger that a received line gives rise to.
pub open spec fn trigger_of_event(
    stored: Option<Seq<char>>,
    line: Option<Seq<char>>,
    raw_type: i32,
    normal_type: u32,
) -> Option<Seq<char>> {
    if in_code_range(raw_type) && is_handled(line, raw_type, normal_type) {
        trigger_of(reassembled(stored, line->0))
    } else {
        None
    }
}

/// The dispatch task for a reassembled message: one for its trigger, or none
/// if it has no trigger.
pub fn handle_chat_message(message: &str) -> (task: Option<DispatchTask>)
    ensures
        match task {
            Some(task) => trigger_of(message@) == Some(task@),
            None => trigger_of(message@) is None,
        },
{
    match extract_trigger(message) {
        Some(trigger) => Some(DispatchTask::new(trigger)),
        None => None,
    }
}

/// Handles one chat event of the host.
///
/// `line` is the text that the host handed over, `None` where it handed over
/// none; `raw_type` is the message type as the host passed it, and
/// `normal_type` the host's code for normal messages.
///
/// A message type out of range is an error, whatever the line. A line of
/// another type than the normal one, or an event without text, is ignored and
/// changes nothing. Every other line is reassembled and gives the task for
/// its trigger.
pub fn on_chat_received(
    reassembler: &mut ChatReassembler,
    line: Option<&str>,
    raw_type: i32,
    normal_type: u32,
) -> (outcome: Result<Option<DispatchTask>, AbiMismatch>)
    ensures
        outcome is Err <==> !in_code_range(raw_type),
        outcome matches Err(e) ==> e == AbiMismatch::MessageType(raw_type),
        outcome is Err ==> final(reassembler)@ == old(reassembler)@,
        outcome is Ok ==> final(reassembler)@ == stored_after_event(
            old(reassembler)@,
            line_view(line),
            raw_type,
            normal_type,
        ),
        outcome matches Ok(task) ==> task_view(task) == trigger_of_event(
            old(reassembler)@,
            line_view(line),
            raw_type,
            normal_type,
        ),
{
    let code = match message_type(raw_type) {
        Ok(code) => code,
        Err(e) => {
            return Err(e);
        },
    };
    if code != normal_type {
        return Ok(None);
    }
    match line {
        Some(line) => {
            let message = reassembler.reassemble(line);
            Ok(handle_chat_message(message.as_str()))
        },
        None => Ok(None),
    }
}

} // verus!
