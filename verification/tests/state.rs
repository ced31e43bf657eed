use codestyle::catalog::list_languages;
use codestyle::state::{Msg, State, StoredState};

#[test]
fn fresh_session_shows_intro() {
    let state = State::create(None);
    assert!(state.show_info);
    assert_eq!(state.code, "");
    assert!(state.programming_language.is_none());
    assert!(state.webp_support.is_none());
}

#[test]
fn malformed_or_empty_stored_record_shows_intro() {
    let state = State::create(Some(StoredState { show_info: None }));
    assert!(state.show_info);
}

#[test]
fn stored_preference_seeds_intro_flag() {
    let hidden = State::create(Some(StoredState { show_info: Some(false) }));
    assert!(!hidden.show_info);
    let shown = State::create(Some(StoredState { show_info: Some(true) }));
    assert!(shown.show_info);
}

#[test]
fn dismiss_with_persist_then_restart_hides_intro() {
    let mut state = State::create(None);
    let (redraw, written) = state.update(Msg::HideInitMessage(true), None);
    assert!(redraw);
    assert!(!state.show_info);
    let record = written.expect("dismissal must write the preference");
    assert_eq!(record.show_info, Some(false));
    let restarted = State::create(Some(record));
    assert!(!restarted.show_info);
}

#[test]
fn dismiss_without_persist_then_restart_shows_intro() {
    let mut state = State::create(None);
    let (_, written) = state.update(Msg::HideInitMessage(false), None);
    assert!(!state.show_info);
    let record = written.expect("dismissal must write the preference");
    assert_eq!(record.show_info, Some(true));
    let restarted = State::create(Some(record));
    assert!(restarted.show_info);
}

#[test]
fn dismissal_merges_into_existing_record() {
    let mut state = State::create(Some(StoredState { show_info: Some(true) }));
    let existing = Some(StoredState { show_info: Some(true) });
    let (_, written) = state.update(Msg::HideInitMessage(true), existing);
    assert_eq!(written.expect("a record is written").show_info, Some(false));
}

#[test]
fn selecting_each_language_updates_only_the_selection() {
    for language in list_languages() {
        let mut state = State::create(None);
        state.update(Msg::InputCode("x = 1".to_string()), None);
        let name = language.name.clone();
        let (redraw, written) = state.update(Msg::ChooseLanguage(language), None);
        assert!(redraw);
        assert!(written.is_none());
        assert_eq!(state.programming_language.as_ref().unwrap().name, name);
        assert!(state.show_info);
        assert_eq!(state.code, "x = 1");
        assert!(state.webp_support.is_none());
    }
}

#[test]
fn editing_code_replaces_only_the_code() {
    let mut state = State::create(None);
    state.update(Msg::InputCode("first".to_string()), None);
    assert_eq!(state.code, "first");
    state.update(Msg::InputCode("second".to_string()), None);
    assert_eq!(state.code, "second");
    assert!(state.programming_language.is_none());
    assert!(state.show_info);
}

#[test]
fn probe_result_false_keeps_selection_and_code() {
    let mut languages = list_languages();
    let mut state = State::create(None);
    state.update(Msg::ChooseLanguage(languages.remove(2)), None);
    state.update(Msg::InputCode("print(1)".to_string()), None);
    state.update(Msg::WebPSupport(false), None);
    assert_eq!(state.webp_support, Some(false));
    assert_eq!(state.programming_language.as_ref().unwrap().name, "Python");
    assert_eq!(state.code, "print(1)");
}

#[test]
fn only_the_first_probe_result_counts() {
    let mut state = State::create(None);
    state.update(Msg::WebPSupport(false), None);
    state.update(Msg::WebPSupport(true), None);
    assert_eq!(state.webp_support, Some(false));
}

#[test]
fn highlighting_needs_code_and_language() {
    let mut languages = list_languages();
    let mut state = State::create(None);
    assert!(!state.should_highlight());

    state.update(Msg::InputCode("print(1)".to_string()), None);
    assert!(!state.should_highlight());

    state.update(Msg::ChooseLanguage(languages.remove(2)), None);
    assert!(state.should_highlight());

    state.update(Msg::InputCode("".to_string()), None);
    assert!(!state.should_highlight());
}

#[test]
fn blank_code_never_triggers_highlighting() {
    let mut languages = list_languages();
    let mut state = State::create(None);
    state.update(Msg::ChooseLanguage(languages.remove(0)), None);
    for blank in ["", " ", "   ", "\t", "\n", " \t\r\n ", "\u{a0}\u{2028}"] {
        state.update(Msg::InputCode(blank.to_string()), None);
        assert!(!state.should_highlight(), "{blank:?} should count as blank");
    }
    state.update(Msg::InputCode("  x  ".to_string()), None);
    assert!(state.should_highlight());
}

#[test]
fn full_session_scenario() {
    // Start with empty storage: the intro is shown.
    let mut stored: Option<StoredState> = None;
    let mut state = State::create(stored);
    assert!(state.show_info);

    let mut invocations = 0;
    let mut render = |state: &State, invocations: &mut u32| {
        if state.should_highlight() {
            *invocations += 1;
        }
    };

    // Dismiss the intro persistently: storage now says not to show it.
    let (_, written) = state.update(Msg::HideInitMessage(true), stored);
    if written.is_some() {
        stored = written;
    }
    assert!(!state.show_info);
    assert_eq!(stored.expect("written").show_info, Some(false));
    render(&state, &mut invocations);
    assert_eq!(invocations, 0);

    // Select Python, then paste code: the highlighter runs exactly once,
    // after the render that follows the final edit.
    let mut languages = list_languages();
    state.update(Msg::ChooseLanguage(languages.remove(2)), stored);
    render(&state, &mut invocations);
    assert_eq!(invocations, 0);

    state.update(Msg::InputCode("print(1)".to_string()), stored);
    render(&state, &mut invocations);
    assert_eq!(invocations, 1);
}
