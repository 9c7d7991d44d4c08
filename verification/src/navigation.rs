//! Loading an address, one decision at a time.
//!
//! The windows belong to the host. This module decides what the host is
//! asked to do next and what the command finally answers: [`start`] judges
//! the address and gives the first action, and [`advance`] takes the host's
//! report on the last action and gives the next one, until the action is a
//! [`NavAction::Reply`].

use crate::address::{is_web_address, parse_address, parsed_address, scheme_is_web};
use crate::reply::{join, join3, text_view, Reply};
use vstd::prelude::*;

verus! {

/// How long after a load in the open browser window the navigation bar is
/// put in, in milliseconds.
pub const RELOAD_SETTLE_MS: u64 = 500;

/// How long after a new browser window was opened the navigation bar is put
/// in, in milliseconds.
pub const FIRST_LOAD_SETTLE_MS: u64 = 1500;

/// Where a navigation stands: what the host was last asked for.
#[derive(Clone, Copy, Debug, PartialEq, Eq, Structural)]
pub enum NavState {
    /// Whether the main window exists.
    SeekingMain,
    /// Whether a browser window exists.
    SeekingBrowser,
    /// To load the address in the browser window that exists.
    Navigating,
    /// To put the navigation bar into the page just loaded.
    Injecting,
    /// To open a browser window on the address.
    Opening,
    /// To hide the main window and to put the navigation bar in later.
    Settling,
    /// Nothing more: the reply was given.
    Done,
}

/// What the host reports back.
#[derive(Debug, PartialEq, Eq)]
pub enum NavEvent {
    /// Whether the window asked for exists.
    Window { found: bool },
    /// How the last action went: done, or failed with the host's words.
    Finished(Result<(), String>),
}

/// What the host is asked to do next.
#[derive(Debug, PartialEq, Eq)]
pub enum NavAction {
    FindMainWindow,
    FindBrowserWindow,
    /// Load the address in the browser window.
    Navigate,
    /// Wait `millis`, then put the navigation bar into the page.
    InjectAfter { millis: u64 },
    /// Open a browser window on the address, under this title.
    OpenWindow { title: String },
    /// Hide the main window; `millis` from now, without waiting for it, put
    /// the navigation bar into the new window's page.
    HideMainAndInjectAfter { millis: u64 },
    /// Answer the command. Nothing follows.
    Reply(Reply),
}

/// The view of a [`NavEvent`].
pub enum NavEventView {
    Window { found: bool },
    Finished(Result<(), Seq<char>>),
}

/// The view of a [`NavAction`].
pub enum NavActionView {
    FindMainWindow,
    FindBrowserWindow,
    Navigate,
    InjectAfter { millis: u64 },
    OpenWindow { title: Seq<char> },
    HideMainAndInjectAfter { millis: u64 },
    Reply(Result<Seq<char>, Seq<char>>),
}

impl View for NavEvent {
    type V = NavEventView;

    open spec fn view(&self) -> NavEventView {
        match self {
            NavEvent::Window { found } => NavEventView::Window { found: *found },
            NavEvent::Finished(Ok(_)) => NavEventView::Finished(Ok(())),
            NavEvent::Finished(Err(words)) => NavEventView::Finished(Err(words@)),
        }
    }
}

impl View for NavAction {
    type V = NavActionView;

    open spec fn view(&self) -> NavActionView {
        match self {
            NavAction::FindMainWindow => NavActionView::FindMainWindow,
            NavAction::FindBrowserWindow => NavActionView::FindBrowserWindow,
            NavAction::Navigate => NavActionView::Navigate,
            NavAction::InjectAfter { millis } => NavActionView::InjectAfter { millis: *millis },
            NavAction::OpenWindow { title } => NavActionView::OpenWindow { title: title@ },
            NavAction::HideMainAndInjectAfter { millis } => NavActionView::HideMainAndInjectAfter {
                millis: *millis,
            },
            NavAction::Reply(reply) => NavActionView::Reply(text_view(*reply)),
        }
    }
}

/// A step with its action viewed.
pub open spec fn step_view(step: (NavState, NavAction)) -> (NavState, NavActionView) {
    (step.0, step.1@)
}

/// A step that may be refused, with its action viewed.
pub open spec fn step_option_view(step: Option<(NavState, NavAction)>) -> Option<
    (NavState, NavActionView),
> {
    match step {
        Some(step) => Some(step_view(step)),
        None => None,
    }
}

/// The first step, from the parser's finding on the address: an address
/// that does not parse, or whose scheme is not for the web, is answered at
/// once; for any other the main window is looked up.
pub open spec fn first_step(finding: Result<Seq<char>, Seq<char>>) -> (NavState, NavActionView) {
    match finding {
        Err(refusal) => (NavState::Done, NavActionView::Reply(Err("Invalid URL: "@ + refusal))),
        Ok(_) => if is_web_address(finding) {
            (NavState::SeekingMain, NavActionView::FindMainWindow)
        } else {
            (
                NavState::Done,
                NavActionView::Reply(Err("Only HTTP and HTTPS URLs are supported"@)),
            )
        },
    }
}

/// The step that follows `event` in `state`, or `None` where `event` is no
/// report on what `state` waits for.
pub open spec fn next_step(url: Seq<char>, state: NavState, event: NavEventView) -> Option<
    (NavState, NavActionView),
> {
    match (state, event) {
        (NavState::SeekingMain, NavEventView::Window { found }) => Some(
            if found {
                (NavState::SeekingBrowser, NavActionView::FindBrowserWindow)
            } else {
                (NavState::Done, NavActionView::Reply(Err("Main window not found"@)))
            },
        ),
        (NavState::SeekingBrowser, NavEventView::Window { found }) => Some(
            if found {
                (NavState::Navigating, NavActionView::Navigate)
            } else {
                (NavState::Opening, NavActionView::OpenWindow { title: "xbrowser - "@ + url })
            },
        ),
        (NavState::Navigating, NavEventView::Finished(outcome)) => Some(
            match outcome {
                Ok(_) => (
                    NavState::Injecting,
                    NavActionView::InjectAfter { millis: RELOAD_SETTLE_MS },
                ),
                Err(words) => (
                    NavState::Done,
                    NavActionView::Reply(Err("Failed to navigate: "@ + words)),
                ),
            },
        ),
        (NavState::Injecting, NavEventView::Finished(_)) => Some(
            (NavState::Done, NavActionView::Reply(Ok("Navigated to "@ + url))),
        ),
        (NavState::Opening, NavEventView::Finished(outcome)) => Some(
            match outcome {
                Ok(_) => (
                    NavState::Settling,
                    NavActionView::HideMainAndInjectAfter { millis: FIRST_LOAD_SETTLE_MS },
                ),
                Err(words) => (
                    NavState::Done,
                    NavActionView::Reply(Err("Failed to create browser window: "@ + words)),
                ),
            },
        ),
        (NavState::Settling, NavEventView::Finished(_)) => Some(
            (
                NavState::Done,
                NavActionView::Reply(Ok("Opened "@ + url + " in new browser window"@)),
            ),
        ),
        _ => None,
    }
}

/// The first step of a navigation, given the parser's finding on the
/// address.
pub fn start_with(finding: &Result<String, String>) -> (step: (NavState, NavAction))
    ensures
        step_view(step) == first_step(text_view(*finding)),
{
    match finding {
        Err(refusal) => (
            NavState::Done,
            NavAction::Reply(Err(join("Invalid URL: ", refusal.as_str()))),
        ),
        Ok(scheme) => if scheme_is_web(scheme) {
            (NavState::SeekingMain, NavAction::FindMainWindow)
        } else {
            (
                NavState::Done,
                NavAction::Reply(Err("Only HTTP and HTTPS URLs are supported".to_owned())),
            )
        },
    }
}

/// The first step of a navigation to `url`.
pub fn start(url: &str) -> (step: (NavState, NavAction))
    ensures
        step_view(step) == first_step(parsed_address(url@)),
{
    let finding = parse_address(url);
    start_with(&finding)
}

/// The step after the host reported `event` while the navigation to `url`
/// stood at `state`.
pub fn advance(url: &str, state: NavState, event: &NavEvent) -> (step: Option<
    (NavState, NavAction),
>)
    ensures
        step_option_view(step) == next_step(url@, state, event@),
{
    match state {
        NavState::SeekingMain => match event {
            NavEvent::Window { found } => Some(
                if *found {
                    (NavState::SeekingBrowser, NavAction::FindBrowserWindow)
                } else {
                    (NavState::Done, NavAction::Reply(Err("Main window not found".to_owned())))
                },
            ),
            NavEvent::Finished(_) => None,
        },
        NavState::SeekingBrowser => match event {
            NavEvent::Window { found } => Some(
                if *found {
                    (NavState::Navigating, NavAction::Navigate)
                } else {
                    (NavState::Opening, NavAction::OpenWindow { title: join("xbrowser - ", url) })
                },
            ),
            NavEvent::Finished(_) => None,
        },
        NavState::Navigating => match event {
            NavEvent::Finished(Ok(_)) => Some(
                (NavState::Injecting, NavAction::InjectAfter { millis: RELOAD_SETTLE_MS }),
            ),
            NavEvent::Finished(Err(words)) => Some(
                (
                    NavState::Done,
                    NavAction::Reply(Err(join("Failed to navigate: ", words.as_str()))),
                ),
            ),
            NavEvent::Window { .. } => None,
        },
        NavState::Injecting => match event {
            NavEvent::Finished(_) => Some(
                (NavState::Done, NavAction::Reply(Ok(join("Navigated to ", url)))),
            ),
            NavEvent::Window { .. } => None,
        },
        NavState::Opening => match event {
            NavEvent::Finished(Ok(_)) => Some(
                (
                    NavState::Settling,
                    NavAction::HideMainAndInjectAfter { millis: FIRST_LOAD_SETTLE_MS },
                ),
            ),
            NavEvent::Finished(Err(words)) => Some(
                (
                    NavState::Done,
                    NavAction::Reply(
                        Err(join("Failed to create browser window: ", words.as_str())),
                    ),
                ),
            ),
            NavEvent::Window { .. } => None,
        },
        NavState::Settling => match event {
            NavEvent::Finished(_) => Some(
                (
                    NavState::Done,
                    NavAction::Reply(Ok(join3("Opened ", url, " in new browser window"))),
                ),
            ),
            NavEvent::Window { .. } => None,
        },
        NavState::Done => None,
    }
}

/// The most steps a navigation at `state` may still take.
pub open spec fn steps_left(state: NavState) -> nat {
    match state {
        NavState::SeekingMain => 4,
        NavState::SeekingBrowser => 3,
        NavState::Navigating => 2,
        NavState::Opening => 2,
        NavState::Injecting => 1,
        NavState::Settling => 1,
        NavState::Done => 0,
    }
}

/// Only an address for the web gets as far as the windows: the first step
/// looks up the main window if the address parsed with the scheme `http` or
/// `https`, and answers with an error at once if not.
pub proof fn lemma_only_web_addresses_reach_the_host(finding: Result<Seq<char>, Seq<char>>)
    ensures
        is_web_address(finding) ==> first_step(finding) == (
            NavState::SeekingMain,
            NavActionView::FindMainWindow,
        ),
        !is_web_address(finding) ==> first_step(finding).0 == NavState::Done && (first_step(
            finding,
        ).1 matches NavActionView::Reply(reply) && reply is Err),
{
}

/// Every navigation ends, and ends with its reply: a step brings the
/// navigation closer to its end, it gives the reply exactly when it ends
/// the navigation, and after the end no step is left.
pub proof fn lemma_navigation_ends_with_its_reply(
    url: Seq<char>,
    state: NavState,
    event: NavEventView,
)
    ensures
        state == NavState::Done ==> next_step(url, state, event) is None,
        next_step(url, state, event) matches Some(step) ==> {
            &&& steps_left(step.0) < steps_left(state)
            &&& step.1 is Reply <==> step.0 == NavState::Done
        },
{
}

} // verus!
