//! The relay of key events to the chat UI.
//!
//! Both kinds of key event are passed on to the chat UI. After a key-down,
//! if the chat UI is open and the key was the completion key, a notification
//! is shown in place of a completion, which is not implemented.

use crate::host::{in_code_range, key_code, AbiMismatch};
use vstd::prelude::*;

verus! {

/// A key-down as it is passed on to the chat UI.
#[derive(Debug, Clone, Copy, PartialEq, Eq, Structural)]
pub struct KeyDown {
    /// The key that went down.
    pub key: u32,
    /// Whether the key was already held down.
    pub repeat: bool,
}

/// Whether a key-down asks for a completion: the chat UI is open and the key
/// is the completion key.
pub open spec fn asks_for_completion(chat_open: bool, key: u32, completion_key: u32) -> bool {
    chat_open && key == completion_key
}

/// Handles a key-down event of the host: the key and the repeat flag, which
/// is set by any byte but zero, go on to the chat UI. A key code out of range
/// is an error.
pub fn on_key_down(raw_key: i32, raw_repeat: u8) -> (outcome: Result<KeyDown, AbiMismatch>)
    ensures
        in_code_range(raw_key) ==> outcome == Ok::<KeyDown, AbiMismatch>(
            (KeyDown { key: raw_key as u32, repeat: raw_repeat != 0 }),
        ),
        !in_code_range(raw_key) ==> outcome == Err::<KeyDown, AbiMismatch>(
            AbiMismatch::KeyCode(raw_key),
        ),
{
    match key_code(raw_key) {
        Ok(key) => Ok(KeyDown { key, repeat: raw_repeat != 0 }),
        Err(e) => Err(e),
    }
}

/// Whether the notification that stands in for a completion is due after a
/// key-down was passed on. `chat_open` is what the chat UI reports of itself
/// once it has handled the key.
pub fn wants_completion(chat_open: bool, key: u32, completion_key: u32) -> (due: bool)
    ensures
        due == asks_for_completion(chat_open, key, completion_key),
{
    chat_open && key == completion_key
}

/// Handles a key-press event of the host: the key goes on to the chat UI. A
/// key code out of range is an error.
pub fn on_key_press(raw_key: i32) -> (outcome: Result<u32, AbiMismatch>)
    ensures
        in_code_range(raw_key) ==> outcome == Ok::<u32, AbiMismatch>(raw_key as u32),
        !in_code_range(raw_key) ==> outcome == Err::<u32, AbiMismatch>(
            AbiMismatch::KeyCode(raw_key),
        ),
{
    key_code(raw_key)
}

} // verus!
