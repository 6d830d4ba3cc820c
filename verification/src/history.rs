//! What holds of every history of `load` and `unload` calls.
//!
//! A history is the sequence of calls that a process has made, starting from
//! the initial state. The laws here count how often each action has been
//! asked of the host over a whole history.

use crate::hook::HookState;
use crate::plugin::{
    load_actions, load_hook_actions, load_prelude, load_state, unload_actions,
    unload_hook_actions, unload_state, unsubscribe_actions, HostAction, PluginModel,
};
use vstd::prelude::*;

verus! {

/// One call in a history.
pub enum LifecycleCall {
    /// A call of `load`, with what the host had for a tick entry point.
    Load { tick_present: bool },
    /// A call of `unload`.
    Unload,
}

/// The state after `call` in state `m`.
pub open spec fn state_after_call(m: PluginModel, call: LifecycleCall) -> PluginModel {
    match call {
        LifecycleCall::Load { tick_present } => load_state(m, tick_present),
        LifecycleCall::Unload => unload_state(m),
    }
}

/// What `call` asks for in state `m`.
pub open spec fn actions_of_call(m: PluginModel, call: LifecycleCall) -> Seq<HostAction> {
    match call {
        LifecycleCall::Load { tick_present } => load_actions(m, tick_present),
        LifecycleCall::Unload => unload_actions(m),
    }
}

/// The state after the calls of `history`, made in order from the initial
/// state.
pub open spec fn state_after_history(history: Seq<LifecycleCall>) -> PluginModel
    decreases history.len(),
{
    if history.len() == 0 {
        PluginModel::initial()
    } else {
        state_after_call(state_after_history(history.drop_last()), history.last())
    }
}

/// Everything that the calls of `history` have asked for, in order.
pub open spec fn actions_of_history(history: Seq<LifecycleCall>) -> Seq<HostAction>
    decreases history.len(),
{
    if history.len() == 0 {
        Seq::empty()
    } else {
        actions_of_history(history.drop_last()) + actions_of_call(
            state_after_history(history.drop_last()),
            history.last(),
        )
    }
}

/// How often `action` occurs in `actions`.
pub open spec fn occurrences(actions: Seq<HostAction>, action: HostAction) -> nat
    decreases actions.len(),
{
    if actions.len() == 0 {
        0
    } else {
        occurrences(actions.drop_last(), action) + if actions.last() == action {
            1nat
        } else {
            0nat
        }
    }
}

/// 1 if `b` holds, else 0.
pub open spec fn one_if(b: bool) -> nat {
    if b {
        1
    } else {
        0
    }
}

proof fn lemma_occurrences_push(actions: Seq<HostAction>, last: HostAction, action: HostAction)
    ensures
        occurrences(actions.push(last), action) == occurrences(actions, action) + one_if(
            last == action,
        ),
{
    assert(actions.push(last).drop_last() =~= actions);
}

proof fn lemma_occurrences_concat(front: Seq<HostAction>, back: Seq<HostAction>, action: HostAction)
    ensures
        occurrences(front + back, action) == occurrences(front, action) + occurrences(
            back,
            action,
        ),
    decreases back.len(),
{
    if back.len() == 0 {
        assert(front + back =~= front);
    } else {
        assert((front + back).drop_last() =~= front + back.drop_last());
        lemma_occurrences_concat(front, back.drop_last(), action);
    }
}

proof fn lemma_occurrences_of_load(m: PluginModel, tick_present: bool, action: HostAction)
    ensures
        occurrences(load_actions(m, tick_present), action) == one_if(
            !m.loaded && match action {
                HostAction::SubscribeChat => true,
                HostAction::SubscribeKeyDown => true,
                HostAction::SubscribeKeyPress => true,
                HostAction::LoadCommands => true,
                HostAction::LoadOptions => true,
                HostAction::InstallTickHook => tick_present,
                HostAction::EnableTickHook => tick_present,
                HostAction::LoadAudio => true,
                _ => false,
            },
        ),
{
    let e = Seq::<HostAction>::empty();
    if !m.loaded {
        let prelude = load_prelude();
        let hook = load_hook_actions(tick_present);
        let audio = seq![HostAction::LoadAudio];
        assert(prelude =~= e.push(HostAction::SubscribeChat).push(
            HostAction::SubscribeKeyDown,
        ).push(HostAction::SubscribeKeyPress).push(HostAction::LoadCommands).push(
            HostAction::LoadOptions,
        ));
        assert(audio =~= e.push(HostAction::LoadAudio));
        if tick_present {
            assert(hook =~= e.push(HostAction::InstallTickHook).push(HostAction::EnableTickHook));
        }
        lemma_occurrences_concat(prelude + hook, audio, action);
        lemma_occurrences_concat(prelude, hook, action);
        lemma_occurrences_push(e, HostAction::SubscribeChat, action);
        lemma_occurrences_push(e.push(HostAction::SubscribeChat), HostAction::SubscribeKeyDown, action);
        lemma_occurrences_push(
            e.push(HostAction::SubscribeChat).push(HostAction::SubscribeKeyDown),
            HostAction::SubscribeKeyPress,
            action,
        );
        lemma_occurrences_push(
            e.push(HostAction::SubscribeChat).push(HostAction::SubscribeKeyDown).push(
                HostAction::SubscribeKeyPress,
            ),
            HostAction::LoadCommands,
            action,
        );
        lemma_occurrences_push(
            e.push(HostAction::SubscribeChat).push(HostAction::SubscribeKeyDown).push(
                HostAction::SubscribeKeyPress,
            ).push(HostAction::LoadCommands),
            HostAction::LoadOptions,
            action,
        );
        lemma_occurrences_push(e, HostAction::LoadAudio, action);
        if tick_present {
            lemma_occurrences_push(e, HostAction::InstallTickHook, action);
            lemma_occurrences_push(
                e.push(HostAction::InstallTickHook),
                HostAction::EnableTickHook,
                action,
            );
        }
    }
}

proof fn lemma_occurrences_of_unload(m: PluginModel, action: HostAction)
    ensures
        occurrences(unload_actions(m), action) == one_if(
            match action {
                HostAction::UnsubscribeChat => m.registered,
                HostAction::UnsubscribeKeyDown => m.registered,
                HostAction::UnsubscribeKeyPress => m.registered,
                HostAction::DisableTickHook => m.hook == HookState::Enabled,
                HostAction::UnloadAudio => true,
                _ => false,
            },
        ),
{
    let e = Seq::<HostAction>::empty();
    let unsubscribe = unsubscribe_actions(m.registered);
    let hook = unload_hook_actions(m.hook);
    let audio = seq![HostAction::UnloadAudio];
    assert(audio =~= e.push(HostAction::UnloadAudio));
    if m.registered {
        assert(unsubscribe =~= e.push(HostAction::UnsubscribeChat).push(
            HostAction::UnsubscribeKeyDown,
        ).push(HostAction::UnsubscribeKeyPress));
    }
    if m.hook == HookState::Enabled {
        assert(hook =~= e.push(HostAction::DisableTickHook));
    }
    lemma_occurrences_concat(unsubscribe + hook, audio, action);
    lemma_occurrences_concat(unsubscribe, hook, action);
    lemma_occurrences_push(e, HostAction::UnloadAudio, action);
    if m.registered {
        lemma_occurrences_push(e, HostAction::UnsubscribeChat, action);
        lemma_occurrences_push(
            e.push(HostAction::UnsubscribeChat),
            HostAction::UnsubscribeKeyDown,
            action,
        );
        lemma_occurrences_push(
            e.push(HostAction::UnsubscribeChat).push(HostAction::UnsubscribeKeyDown),
            HostAction::UnsubscribeKeyPress,
            action,
        );
    }
    if m.hook == HookState::Enabled {
        lemma_occurrences_push(e, HostAction::DisableTickHook, action);
    }
}

/// Whether `action` sets something up that `load` sets up.
pub open spec fn is_setup(action: HostAction) -> bool {
    match action {
        HostAction::SubscribeChat => true,
        HostAction::SubscribeKeyDown => true,
        HostAction::SubscribeKeyPress => true,
        HostAction::LoadCommands => true,
        HostAction::LoadOptions => true,
        HostAction::LoadAudio => true,
        _ => false,
    }
}

/// Whether `action` withdraws one of the three subscriptions.
pub open spec fn is_unsubscribe(action: HostAction) -> bool {
    match action {
        HostAction::UnsubscribeChat => true,
        HostAction::UnsubscribeKeyDown => true,
        HostAction::UnsubscribeKeyPress => true,
        _ => false,
    }
}

/// After any history, the state tells how often each action has been asked
/// for: the setup once it is loaded, the hook's installation and enabling once
/// the hook has left `Uninstalled`, its disabling once it is `Disabled`, and
/// the withdrawal of the subscriptions once they were made and are gone.
/// Every state that a history reaches is well formed.
pub proof fn lemma_history_counts(history: Seq<LifecycleCall>, action: HostAction)
    ensures
        state_after_history(history).wf(),
        is_setup(action) ==> occurrences(actions_of_history(history), action) == one_if(
            state_after_history(history).loaded,
        ),
        action == HostAction::InstallTickHook || action == HostAction::EnableTickHook
            ==> occurrences(actions_of_history(history), action) == one_if(
            state_after_history(history).hook != HookState::Uninstalled,
        ),
        action == HostAction::DisableTickHook ==> occurrences(
            actions_of_history(history),
            action,
        ) == one_if(state_after_history(history).hook == HookState::Disabled),
        is_unsubscribe(action) ==> occurrences(actions_of_history(history), action) == one_if(
            state_after_history(history).loaded && !state_after_history(history).registered,
        ),
    decreases history.len(),
{
    if history.len() > 0 {
        let before = history.drop_last();
        let m = state_after_history(before);
        lemma_history_counts(before, action);
        lemma_occurrences_concat(
            actions_of_history(before),
            actions_of_call(m, history.last()),
            action,
        );
        match history.last() {
            LifecycleCall::Load { tick_present } => {
                lemma_occurrences_of_load(m, tick_present, action);
            },
            LifecycleCall::Unload => {
                lemma_occurrences_of_unload(m, action);
            },
        }
    }
}

/// However often and in whatever order `load` and `unload` are called, each
/// subscription is made at most once, and the hook on the tick entry point is
/// installed at most once and enabled at most once.
pub proof fn lemma_hooks_installed_once(history: Seq<LifecycleCall>)
    ensures
        occurrences(actions_of_history(history), HostAction::SubscribeChat) <= 1,
        occurrences(actions_of_history(history), HostAction::SubscribeKeyDown) <= 1,
        occurrences(actions_of_history(history), HostAction::SubscribeKeyPress) <= 1,
        occurrences(actions_of_history(history), HostAction::InstallTickHook) <= 1,
        occurrences(actions_of_history(history), HostAction::EnableTickHook) <= 1,
{
    lemma_history_counts(history, HostAction::SubscribeChat);
    lemma_history_counts(history, HostAction::SubscribeKeyDown);
    lemma_history_counts(history, HostAction::SubscribeKeyPress);
    lemma_history_counts(history, HostAction::InstallTickHook);
    lemma_history_counts(history, HostAction::EnableTickHook);
}

/// No history withdraws a subscription that was not made, or disables a hook
/// that was not enabled.
pub proof fn lemma_nothing_undone_unless_done(history: Seq<LifecycleCall>)
    ensures
        occurrences(actions_of_history(history), HostAction::UnsubscribeChat) <= occurrences(
            actions_of_history(history),
            HostAction::SubscribeChat,
        ),
        occurrences(actions_of_history(history), HostAction::UnsubscribeKeyDown) <= occurrences(
            actions_of_history(history),
            HostAction::SubscribeKeyDown,
        ),
        occurrences(actions_of_history(history), HostAction::UnsubscribeKeyPress) <= occurrences(
            actions_of_history(history),
            HostAction::SubscribeKeyPress,
        ),
        occurrences(actions_of_history(history), HostAction::DisableTickHook) <= occurrences(
            actions_of_history(history),
            HostAction::EnableTickHook,
        ),
{
    lemma_history_counts(history, HostAction::SubscribeChat);
    lemma_history_counts(history, HostAction::SubscribeKeyDown);
    lemma_history_counts(history, HostAction::SubscribeKeyPress);
    lemma_history_counts(history, HostAction::EnableTickHook);
    lemma_history_counts(history, HostAction::UnsubscribeChat);
    lemma_history_counts(history, HostAction::UnsubscribeKeyDown);
    lemma_history_counts(history, HostAction::UnsubscribeKeyPress);
    lemma_history_counts(history, HostAction::DisableTickHook);
}

/// A second `load` asks for nothing and changes nothing, whatever the host
/// has for a tick entry point at either call.
pub proof fn lemma_load_twice(m: PluginModel, first_tick: bool, second_tick: bool)
    ensures
        load_actions(load_state(m, first_tick), second_tick) == Seq::<HostAction>::empty(),
        load_state(load_state(m, first_tick), second_tick) == load_state(m, first_tick),
{
}

/// `unload` before any `load` withdraws no subscription and disables no hook:
/// it asks for the teardown of the audio subsystem alone and leaves the state
/// as it was. The same holds of every `unload` that follows another.
pub proof fn lemma_unload_with_nothing_loaded(m: PluginModel)
    requires
        m.wf(),
    ensures
        unload_actions(PluginModel::initial()) == seq![HostAction::UnloadAudio],
        unload_state(PluginModel::initial()) == PluginModel::initial(),
        unload_actions(unload_state(m)) == seq![HostAction::UnloadAudio],
        unload_state(unload_state(m)) == unload_state(m),
{
    assert(unload_actions(PluginModel::initial()) =~= seq![HostAction::UnloadAudio]);
    assert(unload_actions(unload_state(m)) =~= seq![HostAction::UnloadAudio]);
}

} // verus!
