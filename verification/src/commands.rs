//! What the browser's commands answer.
//!
//! The host looks up the browser window and acts on it; it tells this
//! module how that went in a [`HostReport`], and is told the answer.

use crate::decimal::{decimal, to_decimal};
use crate::reply::{join, join3, text_view, Reply};
use crate::scripts::{GO_BACK_SCRIPT, GO_FORWARD_SCRIPT, NAVIGATION_BAR_SCRIPT, REFRESH_SCRIPT};
use vstd::prelude::*;

verus! {

/// How the host fared with the browser window.
#[derive(Debug, PartialEq, Eq)]
pub enum HostReport {
    /// There is no browser window.
    NoWindow,
    /// The window did what was asked.
    Done,
    /// The window failed, with the host's words.
    Failed(String),
}

/// The view of a [`HostReport`].
pub enum HostReportView {
    NoWindow,
    Done,
    Failed(Seq<char>),
}

impl View for HostReport {
    type V = HostReportView;

    open spec fn view(&self) -> HostReportView {
        match self {
            HostReport::NoWindow => HostReportView::NoWindow,
            HostReport::Done => HostReportView::Done,
            HostReport::Failed(words) => HostReportView::Failed(words@),
        }
    }
}

/// A command that runs a script in the browser window's page.
#[derive(Clone, Copy, Debug, PartialEq, Eq, Structural)]
pub enum PageCommand {
    GoBack,
    GoForward,
    Refresh,
    InjectNavigationBar,
}

impl PageCommand {
    /// The script the page is asked to run.
    pub open spec fn script_text(self) -> Seq<char> {
        match self {
            PageCommand::GoBack => GO_BACK_SCRIPT@,
            PageCommand::GoForward => GO_FORWARD_SCRIPT@,
            PageCommand::Refresh => REFRESH_SCRIPT@,
            PageCommand::InjectNavigationBar => NAVIGATION_BAR_SCRIPT@,
        }
    }

    /// The message once the script was handed to the page.
    pub open spec fn success(self) -> Seq<char> {
        match self {
            PageCommand::GoBack => "Navigated back"@,
            PageCommand::GoForward => "Navigated forward"@,
            PageCommand::Refresh => "Page refreshed"@,
            PageCommand::InjectNavigationBar => "Navigation bar injected"@,
        }
    }

    /// What the host's words are put behind where the page refused the
    /// script.
    pub open spec fn failure_prefix(self) -> Seq<char> {
        match self {
            PageCommand::GoBack => "Failed to go back: "@,
            PageCommand::GoForward => "Failed to go forward: "@,
            PageCommand::Refresh => "Failed to refresh: "@,
            PageCommand::InjectNavigationBar => "Failed to inject navigation bar: "@,
        }
    }

    /// The answer to the command, from the host's report.
    pub open spec fn answer(self, report: HostReportView) -> Result<Seq<char>, Seq<char>> {
        match report {
            HostReportView::NoWindow => Err("No browser window found"@),
            HostReportView::Done => Ok(self.success()),
            HostReportView::Failed(words) => Err(self.failure_prefix() + words),
        }
    }

    /// The script the page is asked to run.
    pub fn script(&self) -> (script: &'static str)
        ensures
            script@ == self.script_text(),
    {
        match self {
            PageCommand::GoBack => GO_BACK_SCRIPT,
            PageCommand::GoForward => GO_FORWARD_SCRIPT,
            PageCommand::Refresh => REFRESH_SCRIPT,
            PageCommand::InjectNavigationBar => NAVIGATION_BAR_SCRIPT,
        }
    }

    /// Answers the command once the host has reported.
    pub fn reply(&self, report: &HostReport) -> (reply: Reply)
        ensures
            text_view(reply) == self.answer(report@),
    {
        match report {
            HostReport::NoWindow => Err("No browser window found".to_owned()),
            HostReport::Done => Ok(
                match self {
                    PageCommand::GoBack => "Navigated back",
                    PageCommand::GoForward => "Navigated forward",
                    PageCommand::Refresh => "Page refreshed",
                    PageCommand::InjectNavigationBar => "Navigation bar injected",
                }.to_owned(),
            ),
            HostReport::Failed(words) => Err(
                join(
                    match self {
                        PageCommand::GoBack => "Failed to go back: ",
                        PageCommand::GoForward => "Failed to go forward: ",
                        PageCommand::Refresh => "Failed to refresh: ",
                        PageCommand::InjectNavigationBar => "Failed to inject navigation bar: ",
                    },
                    words.as_str(),
                ),
            ),
        }
    }
}

/// What follows a request to close the browser window.
#[derive(Debug, PartialEq, Eq)]
pub struct Closing {
    /// Whether the main window, if there is one, is shown and focused again.
    pub restore_main: bool,
    pub reply: Reply,
}

/// The view of a [`Closing`].
pub struct ClosingView {
    pub restore_main: bool,
    pub reply: Result<Seq<char>, Seq<char>>,
}

impl View for Closing {
    type V = ClosingView;

    open spec fn view(&self) -> ClosingView {
        ClosingView { restore_main: self.restore_main, reply: text_view(self.reply) }
    }
}

/// What follows the host's report on closing the browser window: the main
/// window comes back only where the browser window did close.
pub open spec fn closing(report: HostReportView) -> ClosingView {
    match report {
        HostReportView::NoWindow => ClosingView {
            restore_main: false,
            reply: Err("No browser window to close"@),
        },
        HostReportView::Done => ClosingView {
            restore_main: true,
            reply: Ok("Browser window closed"@),
        },
        HostReportView::Failed(words) => ClosingView {
            restore_main: false,
            reply: Err("Failed to close browser window: "@ + words),
        },
    }
}

/// Decides what follows the host's report on closing the browser window.
pub fn close_browser_window(report: &HostReport) -> (outcome: Closing)
    ensures
        outcome@ == closing(report@),
        outcome.restore_main <==> outcome.reply is Ok,
{
    match report {
        HostReport::NoWindow => Closing {
            restore_main: false,
            reply: Err("No browser window to close".to_owned()),
        },
        HostReport::Done => Closing {
            restore_main: true,
            reply: Ok("Browser window closed".to_owned()),
        },
        HostReport::Failed(words) => Closing {
            restore_main: false,
            reply: Err(join("Failed to close browser window: ", words.as_str())),
        },
    }
}

/// Answers a request for the address shown: the page's address cannot be
/// read from outside, so with a browser window the answer says just that.
pub fn get_current_url(browser_found: bool) -> (reply: Reply)
    ensures
        text_view(reply) == if browser_found {
            Ok::<Seq<char>, Seq<char>>("URL tracking via webview is limited"@)
        } else {
            Err::<Seq<char>, Seq<char>>("No browser window found"@)
        },
{
    if browser_found {
        Ok("URL tracking via webview is limited".to_owned())
    } else {
        Err("No browser window found".to_owned())
    }
}

/// A page the user kept.
#[derive(Debug, PartialEq, Eq)]
pub struct Bookmark {
    pub url: String,
    pub title: String,
    pub timestamp: u64,
}

/// Takes note of the user's bookmarks. Any list is accepted; the answer
/// gives its length.
pub fn update_bookmarks(bookmarks: &Vec<Bookmark>) -> (reply: Reply)
    ensures
        text_view(reply) == Ok::<Seq<char>, Seq<char>>(
            "Successfully updated "@ + decimal(bookmarks@.len()) + " bookmarks"@,
        ),
{
    let count = to_decimal(bookmarks.len());
    Ok(join3("Successfully updated ", count.as_str(), " bookmarks"))
}

/// The bookmarks kept: none, as nothing is stored.
pub fn get_bookmarks() -> (kept: Result<Vec<Bookmark>, String>)
    ensures
        kept matches Ok(list) && list@ == Seq::<Bookmark>::empty(),
{
    Ok(Vec::new())
}

/// Answers a request to forget the pages visited.
pub fn clear_history() -> (reply: Reply)
    ensures
        text_view(reply) == Ok::<Seq<char>, Seq<char>>("History cleared successfully"@),
{
    Ok("History cleared successfully".to_owned())
}

/// What the browser says of itself.
#[derive(Debug, PartialEq, Eq)]
pub struct BrowserInfo {
    pub name: String,
    pub version: String,
    pub user_agent: String,
    pub engine: String,
}

/// The browser's name, user agent and engine, with the version the build
/// gives it.
pub fn get_browser_info(version: &str) -> (info: BrowserInfo)
    ensures
        info.name@ == "xbrowser"@,
        info.version@ == version@,
        info.user_agent@ == "xbrowser/1.0 (Tauri Browser)"@,
        info.engine@ == "WebKit"@,
{
    BrowserInfo {
        name: "xbrowser".to_owned(),
        version: version.to_owned(),
        user_agent: "xbrowser/1.0 (Tauri Browser)".to_owned(),
        engine: "WebKit".to_owned(),
    }
}

} // verus!
