//! Loading and unloading of the plugin.
//!
//! `load` and `unload` decide what has to be done to the host; the caller does
//! it, in the order given, and aborts the process if the host's hook facility
//! reports a failure. The state passed in is the one state of the process;
//! the caller keeps it behind a lock, so that calls are handled one at a time.
//!
//! `load` does its work once in the life of the state: every later call finds
//! it done and asks for nothing. `unload` may be called at any time, before
//! `load` and more than once.

use crate::hook::{HookHandle, HookState};
use vstd::prelude::*;

verus! {

/// One thing to do to the host.
#[derive(Debug, Clone, Copy, PartialEq, Eq, Structural)]
pub enum HostAction {
    /// Subscribe to received chat lines.
    SubscribeChat,
    /// Subscribe to key-down events.
    SubscribeKeyDown,
    /// Subscribe to key-press events.
    SubscribeKeyPress,
    /// Let the command collaborator register its commands.
    LoadCommands,
    /// Let the option collaborator load the configuration.
    LoadOptions,
    /// Capture the host's tick entry point and prepare its replacement.
    InstallTickHook,
    /// Route the host's ticks through the replacement.
    EnableTickHook,
    /// Set up the audio subsystem.
    LoadAudio,
    /// Withdraw the subscription to received chat lines.
    UnsubscribeChat,
    /// Withdraw the subscription to key-down events.
    UnsubscribeKeyDown,
    /// Withdraw the subscription to key-press events.
    UnsubscribeKeyPress,
    /// Take the replacement of the tick entry point out again.
    DisableTickHook,
    /// Tear down the audio subsystem.
    UnloadAudio,
}

/// The mathematical form of a `PluginState`.
pub struct PluginModel {
    /// Whether `load` has done its work.
    pub loaded: bool,
    /// Whether the event subscriptions are in place.
    pub registered: bool,
    /// Where the hook on the tick entry point stands.
    pub hook: HookState,
}

impl PluginModel {
    /// The state of a process in which nothing has happened yet.
    pub open spec fn initial() -> PluginModel {
        PluginModel { loaded: false, registered: false, hook: HookState::Uninstalled }
    }

    /// The states that `load` and `unload` can reach from the initial one.
    ///
    /// Before `load` nothing is subscribed or hooked. While the subscriptions
    /// are in place the hook is enabled, unless the host had no tick entry
    /// point; once they are withdrawn it is disabled.
    pub open spec fn wf(self) -> bool {
        &&& !self.loaded ==> !self.registered && self.hook == HookState::Uninstalled
        &&& self.registered ==> self.hook == HookState::Enabled || self.hook
            == HookState::Uninstalled
        &&& !self.registered ==> self.hook == HookState::Disabled || self.hook
            == HookState::Uninstalled
    }
}

/// The subscriptions and registrations that come before the hook.
pub open spec fn load_prelude() -> Seq<HostAction> {
    seq![
        HostAction::SubscribeChat,
        HostAction::SubscribeKeyDown,
        HostAction::SubscribeKeyPress,
        HostAction::LoadCommands,
        HostAction::LoadOptions,
    ]
}

/// The hook is installed and enabled where the host has a tick entry point.
pub open spec fn load_hook_actions(tick_present: bool) -> Seq<HostAction> {
    if tick_present {
        seq![HostAction::InstallTickHook, HostAction::EnableTickHook]
    } else {
        Seq::empty()
    }
}

/// What `load` asks for in state `m`.
pub open spec fn load_actions(m: PluginModel, tick_present: bool) -> Seq<HostAction> {
    if m.loaded {
        Seq::empty()
    } else {
        load_prelude() + load_hook_actions(tick_present) + seq![HostAction::LoadAudio]
    }
}

/// The state after `load` in state `m`.
pub open spec fn load_state(m: PluginModel, tick_present: bool) -> PluginModel {
    if m.loaded {
        m
    } else {
        PluginModel {
            loaded: true,
            registered: true,
            hook: if tick_present {
                HookState::Enabled
            } else {
                m.hook
            },
        }
    }
}

/// The subscriptions are withdrawn only where they are in place.
pub open spec fn unsubscribe_actions(registered: bool) -> Seq<HostAction> {
    if registered {
        seq![
            HostAction::UnsubscribeChat,
            HostAction::UnsubscribeKeyDown,
            HostAction::UnsubscribeKeyPress,
        ]
    } else {
        Seq::empty()
    }
}

/// The hook is disabled wherever it is enabled, whatever the subscriptions.
pub open spec fn unload_hook_actions(hook: HookState) -> Seq<HostAction> {
    if hook == HookState::Enabled {
        seq![HostAction::DisableTickHook]
    } else {
        Seq::empty()
    }
}

/// What `unload` asks for in state `m`.
pub open spec fn unload_actions(m: PluginModel) -> Seq<HostAction> {
    unsubscribe_actions(m.registered) + unload_hook_actions(m.hook) + seq![HostAction::UnloadAudio]
}

/// The state after `unload` in state `m`.
pub open spec fn unload_state(m: PluginModel) -> PluginModel {
    PluginModel {
        loaded: m.loaded,
        registered: false,
        hook: if m.hook == HookState::Enabled {
            HookState::Disabled
        } else {
            m.hook
        },
    }
}

/// The state of the plugin in one process.
pub struct PluginState {
    loaded: bool,
    registered: bool,
    hook: HookHandle,
}

impl View for PluginState {
    type V = PluginModel;

    closed spec fn view(&self) -> PluginModel {
        PluginModel { loaded: self.loaded, registered: self.registered, hook: self.hook@ }
    }
}

impl PluginState {
    #[verifier::type_invariant]
    spec fn reachable(self) -> bool {
        self@.wf()
    }

    /// The state of a process in which nothing has happened yet.
    pub fn new() -> (state: Self)
        ensures
            state@ == PluginModel::initial(),
    {
        PluginState { loaded: false, registered: false, hook: HookHandle::new() }
    }

    /// Whether `load` has done its work.
    pub fn is_loaded(&self) -> (b: bool)
        ensures
            b == self@.loaded,
    {
        self.loaded
    }

    /// Whether the event subscriptions are in place.
    pub fn is_registered(&self) -> (b: bool)
        ensures
            b == self@.registered,
    {
        self.registered
    }

    /// Where the hook on the tick entry point stands.
    pub fn hook_state(&self) -> (hook: HookState)
        ensures
            hook == self@.hook,
    {
        self.hook.state()
    }
}

/// Sets the plugin up, once.
///
/// The first call subscribes to the three event classes, lets the command and
/// option collaborators load, installs and enables the hook on the host's tick
/// entry point if the host has one (`tick_present`), and sets up the audio
/// subsystem. Every later call returns no action and changes nothing.
pub fn load(state: &mut PluginState, tick_present: bool) -> (actions: Vec<HostAction>)
    ensures
        actions@ == load_actions(old(state)@, tick_present),
        final(state)@ == load_state(old(state)@, tick_present),
        final(state)@.wf(),
        final(state)@.loaded,
        old(state)@.loaded ==> actions@.len() == 0 && final(state)@ == old(state)@,
{
    proof {
        use_type_invariant(&*state);
    }
    let mut actions: Vec<HostAction> = Vec::new();
    if state.loaded {
        return actions;
    }
    actions.push(HostAction::SubscribeChat);
    actions.push(HostAction::SubscribeKeyDown);
    actions.push(HostAction::SubscribeKeyPress);
    actions.push(HostAction::LoadCommands);
    actions.push(HostAction::LoadOptions);
    let mut hook = state.hook;
    if tick_present {
        // Both requests are legal: a state that is not loaded has no hook.
        let installed = hook.install();
        let enabled = hook.enable();
        assert(installed is Ok && enabled is Ok);
        actions.push(HostAction::InstallTickHook);
        actions.push(HostAction::EnableTickHook);
    }
    actions.push(HostAction::LoadAudio);
    *state = PluginState { loaded: true, registered: true, hook };
    assert(actions@ =~= load_actions(old(state)@, tick_present));
    actions
}

/// Takes the plugin down.
///
/// The subscriptions are withdrawn if they are in place, the hook is disabled
/// if it is enabled, and the audio subsystem is torn down in any case. A call
/// before `load`, or a second call, finds nothing subscribed and nothing
/// enabled, and asks only for the teardown.
pub fn unload(state: &mut PluginState) -> (actions: Vec<HostAction>)
    ensures
        actions@ == unload_actions(old(state)@),
        final(state)@ == unload_state(old(state)@),
        final(state)@.wf(),
        !final(state)@.registered,
        final(state)@.hook != HookState::Enabled,
{
    proof {
        use_type_invariant(&*state);
    }
    let mut actions: Vec<HostAction> = Vec::new();
    if state.registered {
        actions.push(HostAction::UnsubscribeChat);
        actions.push(HostAction::UnsubscribeKeyDown);
        actions.push(HostAction::UnsubscribeKeyPress);
    }
    let mut hook = state.hook;
    if hook.is_enabled() {
        // The request is legal: the hook is enabled.
        let disabled = hook.disable();
        assert(disabled is Ok);
        actions.push(HostAction::DisableTickHook);
    }
    actions.push(HostAction::UnloadAudio);
    *state = PluginState { loaded: state.loaded, registered: false, hook };
    assert(actions@ =~= unload_actions(old(state)@));
    actions
}

} // verus!
