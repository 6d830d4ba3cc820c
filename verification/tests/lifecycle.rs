use chatsounds_plugin::hook::{HookHandle, HookRequest, HookState, IllegalTransition};
use chatsounds_plugin::plugin::{load, unload, HostAction, PluginState};
use chatsounds_plugin::tick::{tick_detour, TickStep};

fn count(actions: &[HostAction], action: HostAction) -> usize {
    actions.iter().filter(|a| **a == action).count()
}

#[test]
fn fresh_state_has_nothing_set_up() {
    let state = PluginState::new();
    assert!(!state.is_loaded());
    assert!(!state.is_registered());
    assert_eq!(state.hook_state(), HookState::Uninstalled);
}

#[test]
fn first_load_sets_everything_up_in_order() {
    let mut state = PluginState::new();
    let actions = load(&mut state, true);
    assert_eq!(
        actions,
        vec![
            HostAction::SubscribeChat,
            HostAction::SubscribeKeyDown,
            HostAction::SubscribeKeyPress,
            HostAction::LoadCommands,
            HostAction::LoadOptions,
            HostAction::InstallTickHook,
            HostAction::EnableTickHook,
            HostAction::LoadAudio,
        ]
    );
    assert!(state.is_loaded());
    assert!(state.is_registered());
    assert_eq!(state.hook_state(), HookState::Enabled);
}

#[test]
fn load_without_a_tick_entry_point_leaves_the_hook_alone() {
    let mut state = PluginState::new();
    let actions = load(&mut state, false);
    assert_eq!(
        actions,
        vec![
            HostAction::SubscribeChat,
            HostAction::SubscribeKeyDown,
            HostAction::SubscribeKeyPress,
            HostAction::LoadCommands,
            HostAction::LoadOptions,
            HostAction::LoadAudio,
        ]
    );
    assert!(state.is_registered());
    assert_eq!(state.hook_state(), HookState::Uninstalled);
}

#[test]
fn second_load_does_nothing() {
    let mut state = PluginState::new();
    let first = load(&mut state, true);
    let second = load(&mut state, true);
    assert_eq!(second, Vec::<HostAction>::new());
    assert!(state.is_loaded());
    assert!(state.is_registered());
    assert_eq!(state.hook_state(), HookState::Enabled);
    let mut all = first;
    all.extend(second);
    assert_eq!(count(&all, HostAction::SubscribeChat), 1);
    assert_eq!(count(&all, HostAction::SubscribeKeyDown), 1);
    assert_eq!(count(&all, HostAction::SubscribeKeyPress), 1);
    assert_eq!(count(&all, HostAction::InstallTickHook), 1);
    assert_eq!(count(&all, HostAction::EnableTickHook), 1);
}

#[test]
fn second_load_does_not_hook_a_tick_that_appeared_later() {
    let mut state = PluginState::new();
    load(&mut state, false);
    assert_eq!(load(&mut state, true), Vec::<HostAction>::new());
    assert_eq!(state.hook_state(), HookState::Uninstalled);
}

#[test]
fn unload_before_load_only_tears_down_audio() {
    let mut state = PluginState::new();
    let actions = unload(&mut state);
    assert_eq!(actions, vec![HostAction::UnloadAudio]);
    assert!(!state.is_loaded());
    assert!(!state.is_registered());
    assert_eq!(state.hook_state(), HookState::Uninstalled);
}

#[test]
fn unload_after_load_takes_everything_down_in_order() {
    let mut state = PluginState::new();
    load(&mut state, true);
    let actions = unload(&mut state);
    assert_eq!(
        actions,
        vec![
            HostAction::UnsubscribeChat,
            HostAction::UnsubscribeKeyDown,
            HostAction::UnsubscribeKeyPress,
            HostAction::DisableTickHook,
            HostAction::UnloadAudio,
        ]
    );
    assert!(state.is_loaded());
    assert!(!state.is_registered());
    assert_eq!(state.hook_state(), HookState::Disabled);
}

#[test]
fn unload_without_a_hook_does_not_disable_one() {
    let mut state = PluginState::new();
    load(&mut state, false);
    let actions = unload(&mut state);
    assert_eq!(
        actions,
        vec![
            HostAction::UnsubscribeChat,
            HostAction::UnsubscribeKeyDown,
            HostAction::UnsubscribeKeyPress,
            HostAction::UnloadAudio,
        ]
    );
    assert_eq!(state.hook_state(), HookState::Uninstalled);
}

#[test]
fn second_unload_only_tears_down_audio() {
    let mut state = PluginState::new();
    load(&mut state, true);
    unload(&mut state);
    let actions = unload(&mut state);
    assert_eq!(actions, vec![HostAction::UnloadAudio]);
    assert_eq!(state.hook_state(), HookState::Disabled);
}

#[test]
fn load_after_unload_does_nothing() {
    let mut state = PluginState::new();
    load(&mut state, true);
    unload(&mut state);
    assert_eq!(load(&mut state, true), Vec::<HostAction>::new());
    assert!(!state.is_registered());
    assert_eq!(state.hook_state(), HookState::Disabled);
}

#[test]
fn load_after_an_early_unload_still_sets_up() {
    let mut state = PluginState::new();
    unload(&mut state);
    let actions = load(&mut state, true);
    assert_eq!(actions.len(), 8);
    assert_eq!(state.hook_state(), HookState::Enabled);
}

#[test]
fn no_history_sets_up_twice_or_undoes_what_was_not_done() {
    // every history of six calls, each call one of load(true), load(false), unload
    for code in 0..729u32 {
        let mut state = PluginState::new();
        let mut all: Vec<HostAction> = Vec::new();
        let mut rest = code;
        for _ in 0..6 {
            match rest % 3 {
                0 => all.extend(load(&mut state, true)),
                1 => all.extend(load(&mut state, false)),
                _ => all.extend(unload(&mut state)),
            }
            rest /= 3;
            for (done, undone) in [
                (HostAction::SubscribeChat, HostAction::UnsubscribeChat),
                (HostAction::SubscribeKeyDown, HostAction::UnsubscribeKeyDown),
                (HostAction::SubscribeKeyPress, HostAction::UnsubscribeKeyPress),
                (HostAction::EnableTickHook, HostAction::DisableTickHook),
            ] {
                assert!(count(&all, done) <= 1);
                assert!(count(&all, undone) <= count(&all, done));
            }
            assert!(count(&all, HostAction::InstallTickHook) <= 1);
            assert_eq!(
                count(&all, HostAction::InstallTickHook),
                count(&all, HostAction::EnableTickHook)
            );
        }
    }
}

#[test]
fn hook_walks_through_its_states() {
    let mut hook = HookHandle::new();
    assert_eq!(hook.state(), HookState::Uninstalled);
    assert!(!hook.can_call_original());
    assert_eq!(hook.install(), Ok(true));
    assert_eq!(hook.state(), HookState::Installed);
    assert!(hook.can_call_original());
    assert!(!hook.is_enabled());
    assert_eq!(hook.enable(), Ok(true));
    assert_eq!(hook.state(), HookState::Enabled);
    assert!(hook.is_enabled());
    assert_eq!(hook.disable(), Ok(true));
    assert_eq!(hook.state(), HookState::Disabled);
    assert!(hook.can_call_original());
    assert!(!hook.is_enabled());
}

#[test]
fn hook_request_for_the_present_state_changes_nothing() {
    let mut hook = HookHandle::new();
    hook.install().unwrap();
    hook.enable().unwrap();
    assert_eq!(hook.enable(), Ok(false));
    assert_eq!(hook.state(), HookState::Enabled);
    hook.disable().unwrap();
    assert_eq!(hook.disable(), Ok(false));
    assert_eq!(hook.state(), HookState::Disabled);
}

#[test]
fn hook_rejects_illegal_requests() {
    let mut hook = HookHandle::new();
    assert_eq!(
        hook.enable(),
        Err(IllegalTransition { from: HookState::Uninstalled, request: HookRequest::Enable })
    );
    assert_eq!(
        hook.disable(),
        Err(IllegalTransition { from: HookState::Uninstalled, request: HookRequest::Disable })
    );
    assert_eq!(hook.state(), HookState::Uninstalled);
    hook.install().unwrap();
    assert_eq!(
        hook.install(),
        Err(IllegalTransition { from: HookState::Installed, request: HookRequest::Install })
    );
    assert_eq!(
        hook.disable(),
        Err(IllegalTransition { from: HookState::Installed, request: HookRequest::Disable })
    );
    assert_eq!(hook.state(), HookState::Installed);
    hook.enable().unwrap();
    assert_eq!(
        hook.install(),
        Err(IllegalTransition { from: HookState::Enabled, request: HookRequest::Install })
    );
    hook.disable().unwrap();
    assert_eq!(
        hook.install(),
        Err(IllegalTransition { from: HookState::Disabled, request: HookRequest::Install })
    );
    assert_eq!(
        hook.enable(),
        Err(IllegalTransition { from: HookState::Disabled, request: HookRequest::Enable })
    );
    assert_eq!(hook.state(), HookState::Disabled);
}

#[test]
fn hook_apply_agrees_with_the_named_requests() {
    let mut a = HookHandle::new();
    let mut b = HookHandle::new();
    assert_eq!(a.apply(HookRequest::Disable), b.disable());
    assert_eq!(a.apply(HookRequest::Install), b.install());
    assert_eq!(a.apply(HookRequest::Enable), b.enable());
    assert_eq!(a.apply(HookRequest::Enable), b.enable());
    assert_eq!(a.apply(HookRequest::Disable), b.disable());
    assert_eq!(a.apply(HookRequest::Enable), b.enable());
    assert_eq!(a, b);
}

#[test]
fn tick_calls_the_original_then_flushes() {
    assert_eq!(tick_detour(), [TickStep::CallOriginal, TickStep::FlushPrinter]);
}

#[test]
fn tick_order_is_seen_by_a_recording_host() {
    let mut seen: Vec<&str> = Vec::new();
    for _ in 0..3 {
        for step in tick_detour() {
            match step {
                TickStep::CallOriginal => seen.push("original"),
                TickStep::FlushPrinter => seen.push("flush"),
            }
        }
    }
    assert_eq!(seen, ["original", "flush", "original", "flush", "original", "flush"]);
}
