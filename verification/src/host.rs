//! Raw integers that the host hands over.
//!
//! The host passes key codes and message types as C `int`s, while its own
//! types for them are unsigned. A negative value cannot come from a host that
//! was built against the same headers: it signals a mismatch of the binary
//! interface, and the caller has to abort rather than go on.

use vstd::prelude::*;

verus! {

/// A raw integer from the host that is outside the range of its type.
#[derive(Debug, Clone, Copy, PartialEq, Eq, Structural)]
pub enum AbiMismatch {
    /// A message type outside the range of message types.
    MessageType(i32),
    /// A key code outside the range of key codes.
    KeyCode(i32),
}

/// The raw integers that stand for a code of the host.
pub open spec fn in_code_range(raw: i32) -> bool {
    0 <= raw
}

/// The message type that `raw` stands for.
pub fn message_type(raw: i32) -> (code: Result<u32, AbiMismatch>)
    ensures
        in_code_range(raw) ==> code == Ok::<u32, AbiMismatch>(raw as u32),
        !in_code_range(raw) ==> code == Err::<u32, AbiMismatch>(AbiMismatch::MessageType(raw)),
{
    match u32::try_from(raw) {
        Ok(code) => Ok(code),
        Err(_) => Err(AbiMismatch::MessageType(raw)),
    }
}

/// The key code that `raw` stands for.
pub fn key_code(raw: i32) -> (code: Result<u32, AbiMismatch>)
    ensures
        in_code_range(raw) ==> code == Ok::<u32, AbiMismatch>(raw as u32),
        !in_code_range(raw) ==> code == Err::<u32, AbiMismatch>(AbiMismatch::KeyCode(raw)),
{
    match u32::try_from(raw) {
        Ok(code) => Ok(code),
        Err(_) => Err(AbiMismatch::KeyCode(raw)),
    }
}

} // verus!
