use chatsounds_plugin::dispatch::{
    is_stop_token, normalize, plan_request, select_match, DispatchTask, EngineRequest,
};

#[test]
fn normalize_gives_the_stop_token() {
    assert_eq!(normalize(" SH "), "sh");
    assert!(is_stop_token(&normalize(" SH ")));
}

#[test]
fn normalize_trims_and_lowercases() {
    assert_eq!(normalize("  Hello World\t"), "hello world");
    assert_eq!(normalize("ABC"), "abc");
    assert_eq!(normalize("\u{c4}B\u{d6}"), "\u{e4}b\u{f6}");
    assert_eq!(normalize(""), "");
    assert_eq!(normalize("   "), "");
}

#[test]
fn stop_token_is_exact() {
    assert!(is_stop_token("sh"));
    assert!(!is_stop_token("SH"));
    assert!(!is_stop_token("s"));
    assert!(!is_stop_token("sh "));
    assert!(!is_stop_token("shh"));
    assert!(!is_stop_token(""));
    assert!(!is_stop_token("hs"));
}

#[test]
fn stop_request_comes_before_any_search() {
    for trigger in ["sh", "SH", "Sh", "sH", " SH ", "\tsh\n"] {
        let task = DispatchTask::new(trigger.to_string());
        assert_eq!(task.request(), EngineRequest::StopAll);
    }
}

#[test]
fn search_uses_the_trimmed_text_as_written() {
    let task = DispatchTask::new("  Hello World ".to_string());
    assert_eq!(task.request(), EngineRequest::Find("Hello World".to_string()));
    let task = DispatchTask::new("shh".to_string());
    assert_eq!(task.request(), EngineRequest::Find("shh".to_string()));
    let task = DispatchTask::new("s h".to_string());
    assert_eq!(task.request(), EngineRequest::Find("s h".to_string()));
}

#[test]
fn empty_trigger_is_searched_for() {
    let task = DispatchTask::new(String::new());
    assert_eq!(task.request(), EngineRequest::Find(String::new()));
    let task = DispatchTask::new("   ".to_string());
    assert_eq!(task.request(), EngineRequest::Find(String::new()));
}

#[test]
fn plan_request_goes_by_the_query() {
    assert_eq!(plan_request("anything", "sh"), EngineRequest::StopAll);
    assert_eq!(plan_request("SH", "sh"), EngineRequest::StopAll);
    assert_eq!(plan_request("sh", "other"), EngineRequest::Find("sh".to_string()));
    assert_eq!(plan_request("Hello", "hello"), EngineRequest::Find("Hello".to_string()));
}

#[test]
fn task_keeps_its_trigger() {
    let task = DispatchTask::new(" Hello ".to_string());
    assert_eq!(task.trigger(), " Hello ");
}

#[test]
fn nothing_is_selected_from_no_matches() {
    let none: [u32; 0] = [];
    assert_eq!(select_match(&none), None);
}

#[test]
fn single_match_is_selected() {
    assert_eq!(select_match(&["only"]), Some(&"only"));
}

#[test]
fn selection_stays_within_its_own_matches() {
    let first = [1u32, 2, 3, 4, 5];
    let second = [10u32, 20, 30];
    for _ in 0..200 {
        let a = select_match(&first);
        let b = select_match(&second);
        assert!(matches!(a, Some(x) if first.contains(x)));
        assert!(matches!(b, Some(x) if second.contains(x)));
    }
}

#[test]
fn selection_reaches_every_match() {
    let matches = [0usize, 1, 2];
    let mut seen = [false; 3];
    for _ in 0..2000 {
        if let Some(&i) = select_match(&matches) {
            seen[i] = true;
        }
    }
    assert_eq!(seen, [true, true, true]);
}
