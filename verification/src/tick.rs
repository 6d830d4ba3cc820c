//! The replacement of the host's tick entry point.
//!
//! The host calls the replacement once per tick, on its tick-driving thread.
//! The replacement passes the call on to the original, with the argument it
//! was given, and when the original has returned it flushes the printer's
//! buffer. The order is fixed.

use vstd::prelude::*;

verus! {

/// One step of the replacement.
#[derive(Debug, Clone, Copy, PartialEq, Eq, Structural)]
pub enum TickStep {
    /// Call the original entry point with the unchanged argument, to
    /// completion.
    CallOriginal,
    /// Flush the printer's buffer.
    FlushPrinter,
}

/// The steps of one invocation, in order.
pub open spec fn tick_order() -> Seq<TickStep> {
    seq![TickStep::CallOriginal, TickStep::FlushPrinter]
}

/// The steps that the replacement takes on every invocation: the original
/// first, then the flush, each exactly once.
pub fn tick_detour() -> (steps: [TickStep; 2])
    ensures
        steps@ == tick_order(),
        steps@.len() == 2,
        steps@[0] == TickStep::CallOriginal,
        steps@[1] == TickStep::FlushPrinter,
{
    let steps = [TickStep::CallOriginal, TickStep::FlushPrinter];
    assert(steps@ =~= tick_order());
    steps
}

} // verus!
