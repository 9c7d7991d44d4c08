use xbrowser::navigation::{
    advance, start, start_with, NavAction, NavEvent, NavState, FIRST_LOAD_SETTLE_MS,
    RELOAD_SETTLE_MS,
};

const URL: &str = "https://example.com/a";

fn done_ok() -> NavEvent {
    NavEvent::Finished(Ok(()))
}

fn failed(words: &str) -> NavEvent {
    NavEvent::Finished(Err(words.to_string()))
}

fn found(found: bool) -> NavEvent {
    NavEvent::Window { found }
}

#[test]
fn start_looks_for_the_main_window_first() {
    assert_eq!(start("https://example.com"), (NavState::SeekingMain, NavAction::FindMainWindow));
    assert_eq!(start("http://example.com"), (NavState::SeekingMain, NavAction::FindMainWindow));
    assert_eq!(start("HTTPS://EXAMPLE.COM/x"), (NavState::SeekingMain, NavAction::FindMainWindow));
}

#[test]
fn start_refuses_other_schemes() {
    let refused =
        (NavState::Done, NavAction::Reply(Err("Only HTTP and HTTPS URLs are supported".to_string())));
    assert_eq!(start("ftp://example.com"), refused);
    assert_eq!(start("file:///tmp/x"), refused);
    assert_eq!(start("about:blank"), refused);
}

#[test]
fn start_refuses_what_does_not_parse() {
    assert_eq!(
        start("example.com"),
        (
            NavState::Done,
            NavAction::Reply(Err("Invalid URL: relative URL without a base".to_string()))
        )
    );
    assert_eq!(
        start("https://"),
        (NavState::Done, NavAction::Reply(Err("Invalid URL: empty host".to_string())))
    );
}

#[test]
fn start_with_judges_the_finding() {
    assert_eq!(start_with(&Ok("http".to_string())), (NavState::SeekingMain, NavAction::FindMainWindow));
    assert_eq!(start_with(&Ok("https".to_string())), (NavState::SeekingMain, NavAction::FindMainWindow));
    assert_eq!(
        start_with(&Ok("gopher".to_string())),
        (NavState::Done, NavAction::Reply(Err("Only HTTP and HTTPS URLs are supported".to_string())))
    );
    assert_eq!(
        start_with(&Err("empty host".to_string())),
        (NavState::Done, NavAction::Reply(Err("Invalid URL: empty host".to_string())))
    );
}

#[test]
fn without_a_main_window_nothing_is_loaded() {
    assert_eq!(
        advance(URL, NavState::SeekingMain, &found(false)),
        Some((NavState::Done, NavAction::Reply(Err("Main window not found".to_string()))))
    );
}

#[test]
fn an_open_browser_window_is_reused() {
    let mut state = NavState::SeekingMain;
    let mut actions = Vec::new();
    for event in [found(true), found(true), done_ok(), done_ok()] {
        let (next, action) = advance(URL, state, &event).expect("the event answers the state");
        state = next;
        actions.push(action);
    }
    assert_eq!(state, NavState::Done);
    assert_eq!(
        actions,
        vec![
            NavAction::FindBrowserWindow,
            NavAction::Navigate,
            NavAction::InjectAfter { millis: 500 },
            NavAction::Reply(Ok("Navigated to https://example.com/a".to_string())),
        ]
    );
}

#[test]
fn without_a_browser_window_one_is_opened() {
    let mut state = NavState::SeekingMain;
    let mut actions = Vec::new();
    for event in [found(true), found(false), done_ok(), done_ok()] {
        let (next, action) = advance(URL, state, &event).expect("the event answers the state");
        state = next;
        actions.push(action);
    }
    assert_eq!(state, NavState::Done);
    assert_eq!(
        actions,
        vec![
            NavAction::FindBrowserWindow,
            NavAction::OpenWindow { title: "xbrowser - https://example.com/a".to_string() },
            NavAction::HideMainAndInjectAfter { millis: 1500 },
            NavAction::Reply(Ok("Opened https://example.com/a in new browser window".to_string())),
        ]
    );
}

#[test]
fn a_failed_load_is_reported_with_the_hosts_words() {
    assert_eq!(
        advance(URL, NavState::Navigating, &failed("webview is gone")),
        Some((
            NavState::Done,
            NavAction::Reply(Err("Failed to navigate: webview is gone".to_string()))
        ))
    );
    assert_eq!(
        advance(URL, NavState::Opening, &failed("no display")),
        Some((
            NavState::Done,
            NavAction::Reply(Err("Failed to create browser window: no display".to_string()))
        ))
    );
}

#[test]
fn a_failed_injection_does_not_fail_the_command() {
    assert_eq!(
        advance(URL, NavState::Injecting, &failed("script refused")),
        Some((NavState::Done, NavAction::Reply(Ok("Navigated to https://example.com/a".to_string()))))
    );
    assert_eq!(
        advance(URL, NavState::Settling, &failed("cannot hide")),
        Some((
            NavState::Done,
            NavAction::Reply(Ok("Opened https://example.com/a in new browser window".to_string()))
        ))
    );
}

#[test]
fn an_event_that_answers_nothing_is_refused() {
    for state in [NavState::SeekingMain, NavState::SeekingBrowser] {
        assert_eq!(advance(URL, state, &done_ok()), None);
        assert_eq!(advance(URL, state, &failed("x")), None);
    }
    for state in [NavState::Navigating, NavState::Injecting, NavState::Opening, NavState::Settling] {
        assert_eq!(advance(URL, state, &found(true)), None);
        assert_eq!(advance(URL, state, &found(false)), None);
    }
    for event in [found(true), found(false), done_ok(), failed("x")] {
        assert_eq!(advance(URL, NavState::Done, &event), None);
    }
}

#[test]
fn the_reply_comes_exactly_when_the_navigation_is_done() {
    let states = [
        NavState::SeekingMain,
        NavState::SeekingBrowser,
        NavState::Navigating,
        NavState::Injecting,
        NavState::Opening,
        NavState::Settling,
        NavState::Done,
    ];
    for state in states {
        for event in [found(true), found(false), done_ok(), failed("x")] {
            if let Some((next, action)) = advance(URL, state, &event) {
                assert_eq!(next == NavState::Done, matches!(action, NavAction::Reply(_)));
            }
        }
    }
}

#[test]
fn the_settle_times_are_half_a_second_and_three_halves() {
    assert_eq!(RELOAD_SETTLE_MS, 500);
    assert_eq!(FIRST_LOAD_SETTLE_MS, 1500);
}

#[test]
fn the_title_and_replies_carry_the_address_as_typed() {
    assert_eq!(
        advance("", NavState::SeekingBrowser, &found(false)),
        Some((NavState::Opening, NavAction::OpenWindow { title: "xbrowser - ".to_string() }))
    );
    assert_eq!(
        advance(" HTTP://Example.COM ", NavState::Injecting, &done_ok()),
        Some((NavState::Done, NavAction::Reply(Ok("Navigated to  HTTP://Example.COM ".to_string()))))
    );
}
