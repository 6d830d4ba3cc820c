//! The state machine of one inline hook.
//!
//! A hook replaces a function of the host by a wrapper and keeps the original
//! for pass-through calls. It moves through
//! `Uninstalled -> Installed -> Enabled -> Disabled` and never back. Asking
//! for the state that the hook is already in changes nothing. Every other
//! request is illegal: it is rejected here, and the caller has to treat the
//! rejection as fatal, since going on could mean calling through a corrupted
//! function pointer.

use vstd::prelude::*;

verus! {

/// Where a hook stands.
#[derive(Debug, Clone, Copy, PartialEq, Eq, Structural)]
pub enum HookState {
    /// The target has not been touched.
    Uninstalled,
    /// The original is captured and the replacement prepared; calls still
    /// reach the original directly.
    Installed,
    /// Calls to the target reach the replacement.
    Enabled,
    /// The replacement has been taken out again.
    Disabled,
}

/// What can be asked of a hook.
#[derive(Debug, Clone, Copy, PartialEq, Eq, Structural)]
pub enum HookRequest {
    Install,
    Enable,
    Disable,
}

/// A request that the state machine does not allow in the state it was made
/// in.
#[derive(Debug, Clone, Copy, PartialEq, Eq, Structural)]
pub struct IllegalTransition {
    /// The state of the hook when the request was made.
    pub from: HookState,
    /// The rejected request.
    pub request: HookRequest,
}

/// The state that `request` leads to from `state`, or `None` where the request
/// is illegal.
pub open spec fn hook_step(state: HookState, request: HookRequest) -> Option<HookState> {
    match (request, state) {
        (HookRequest::Install, HookState::Uninstalled) => Some(HookState::Installed),
        (HookRequest::Enable, HookState::Installed) => Some(HookState::Enabled),
        (HookRequest::Enable, HookState::Enabled) => Some(HookState::Enabled),
        (HookRequest::Disable, HookState::Enabled) => Some(HookState::Disabled),
        (HookRequest::Disable, HookState::Disabled) => Some(HookState::Disabled),
        _ => None,
    }
}

/// The state of a hook after `request` was made in `state`: the next state
/// for a legal request, the same state for an illegal one.
pub open spec fn state_after(state: HookState, request: HookRequest) -> HookState {
    match hook_step(state, request) {
        Some(next) => next,
        None => state,
    }
}

/// What a request made in `state` comes back with: whether the state changed,
/// or the rejection.
pub open spec fn outcome_of(state: HookState, request: HookRequest) -> Result<
    bool,
    IllegalTransition,
> {
    match hook_step(state, request) {
        Some(next) => Ok(next != state),
        None => Err(IllegalTransition { from: state, request }),
    }
}

/// The original can be called through the hook once it has been captured.
pub open spec fn original_captured(state: HookState) -> bool {
    state != HookState::Uninstalled
}

/// The position of a state in the order in which a hook passes through them.
pub open spec fn hook_rank(state: HookState) -> nat {
    match state {
        HookState::Uninstalled => 0,
        HookState::Installed => 1,
        HookState::Enabled => 2,
        HookState::Disabled => 3,
    }
}

/// A hook never goes back: a legal step keeps the state or moves it one
/// position on. So a hook is installed at most once and enabled at most once.
pub proof fn lemma_hook_moves_forward(state: HookState, request: HookRequest)
    ensures
        hook_step(state, request) matches Some(next) ==> hook_rank(state) <= hook_rank(next)
            <= hook_rank(state) + 1,
        hook_step(state, request) matches Some(next) ==> (next == state <==> (request
            == HookRequest::Enable && state == HookState::Enabled) || (request
            == HookRequest::Disable && state == HookState::Disabled)),
{
}

/// A handle to one hook, tracking its state.
#[derive(Debug, Clone, Copy, PartialEq, Eq)]
pub struct HookHandle {
    state: HookState,
}

impl View for HookHandle {
    type V = HookState;

    closed spec fn view(&self) -> HookState {
        self.state
    }
}

impl HookHandle {
    /// A handle to a hook that is not installed.
    pub fn new() -> (handle: Self)
        ensures
            handle@ == HookState::Uninstalled,
    {
        HookHandle { state: HookState::Uninstalled }
    }

    /// The state of the hook.
    pub fn state(&self) -> (state: HookState)
        ensures
            state == self@,
    {
        self.state
    }

    /// Whether calls to the target reach the replacement.
    pub fn is_enabled(&self) -> (b: bool)
        ensures
            b == (self@ == HookState::Enabled),
    {
        self.state == HookState::Enabled
    }

    /// Whether the original can be called through the hook.
    pub fn can_call_original(&self) -> (b: bool)
        ensures
            b == original_captured(self@),
    {
        self.state != HookState::Uninstalled
    }

    /// Applies `request`.
    ///
    /// A legal request moves the hook to its next state and returns whether
    /// the state changed, which is when the host has to act. An illegal
    /// request leaves the hook as it is and comes back as the error.
    pub fn apply(&mut self, request: HookRequest) -> (outcome: Result<bool, IllegalTransition>)
        ensures
            final(self)@ == state_after(old(self)@, request),
            outcome == outcome_of(old(self)@, request),
    {
        let from = self.state;
        let next = match (request, from) {
            (HookRequest::Install, HookState::Uninstalled) => HookState::Installed,
            (HookRequest::Enable, HookState::Installed) => HookState::Enabled,
            (HookRequest::Enable, HookState::Enabled) => HookState::Enabled,
            (HookRequest::Disable, HookState::Enabled) => HookState::Disabled,
            (HookRequest::Disable, HookState::Disabled) => HookState::Disabled,
            _ => {
                return Err(IllegalTransition { from, request });
            },
        };
        self.state = next;
        Ok(next != from)
    }

    /// Captures the original and prepares the replacement. Legal only for a
    /// hook that is not installed.
    pub fn install(&mut self) -> (outcome: Result<bool, IllegalTransition>)
        ensures
            final(self)@ == state_after(old(self)@, HookRequest::Install),
            outcome == outcome_of(old(self)@, HookRequest::Install),
            outcome is Ok <==> old(self)@ == HookState::Uninstalled,
    {
        self.apply(HookRequest::Install)
    }

    /// Routes calls to the replacement. Legal for an installed hook, and
    /// without effect for an enabled one.
    pub fn enable(&mut self) -> (outcome: Result<bool, IllegalTransition>)
        ensures
            final(self)@ == state_after(old(self)@, HookRequest::Enable),
            outcome == outcome_of(old(self)@, HookRequest::Enable),
            outcome is Ok <==> old(self)@ == HookState::Installed || old(self)@
                == HookState::Enabled,
    {
        self.apply(HookRequest::Enable)
    }

    /// Takes the replacement out. Legal for an enabled hook, and without
    /// effect for a disabled one.
    pub fn disable(&mut self) -> (outcome: Result<bool, IllegalTransition>)
        ensures
            final(self)@ == state_after(old(self)@, HookRequest::Disable),
            outcome == outcome_of(old(self)@, HookRequest::Disable),
            outcome is Ok <==> old(self)@ == HookState::Enabled || old(self)@
                == HookState::Disabled,
    {
        self.apply(HookRequest::Disable)
    }
}

} // verus!
