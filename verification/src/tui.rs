//! The application state machine of the dashboard: the selected tab, the
//! instant of the last refresh, the status message and the snapshot on
//! display.
//!
//! The machine takes no clock and gathers no snapshot itself. The program
//! around it reads the keys and a monotonic clock, in nanoseconds, and hands
//! them in; when the machine asks for a refresh, the program gathers a new
//! snapshot and hands that in too.

use vstd::prelude::*;
use vstd::string::*;
use crate::models::{SystemInfo, SystemInfoView};

verus! {

/// The time after which the snapshot on display is refreshed: two seconds,
/// in nanoseconds.
pub const REFRESH_INTERVAL_NANOS: u128 = 2_000_000_000;

/// The views of the dashboard.
#[derive(Debug, Clone, Copy, PartialEq, Eq, Structural)]
pub enum Tab {
    Overview,
    Memory,
    Disks,
    Network,
}

/// A key press: a character key, or any other key.
#[derive(Debug, Clone, Copy, PartialEq, Eq, Structural)]
pub enum Key {
    Char(char),
    Other,
}

/// What the event loop has to do after a key was handled.
#[derive(Debug, Clone, Copy, PartialEq, Eq, Structural)]
pub enum Action {
    /// Go on with the loop.
    Continue,
    /// Gather a new snapshot and hand it to [`App::refresh`], then go on.
    Refresh,
    /// Leave the loop.
    Quit,
}

/// The state of the application.
pub struct App {
    system_info: SystemInfo,
    last_refresh: u128,
    status_message: String,
    current_tab: Tab,
    running: bool,
}

/// The mathematical value of an [`App`].
pub struct AppView {
    pub system_info: SystemInfoView,
    pub last_refresh: nat,
    pub status_message: Seq<char>,
    pub current_tab: Tab,
    pub running: bool,
}

impl View for App {
    type V = AppView;

    closed spec fn view(&self) -> AppView {
        AppView {
            system_info: self.system_info@,
            last_refresh: self.last_refresh as nat,
            status_message: self.status_message@,
            current_tab: self.current_tab,
            running: self.running,
        }
    }
}

/// The status message of a fresh application.
pub open spec fn welcome_message() -> Seq<char> {
    "Welcome to System Index! Press 'h' for help, 'q' to quit."@
}

/// The status message that lists the keys.
pub open spec fn help_message() -> Seq<char> {
    "Keys: q=quit, r=refresh, 1=overview, 2=memory, 3=disks, 4=network"@
}

/// The status message after a refresh that the user asked for.
pub open spec fn refreshed_message() -> Seq<char> {
    "System information refreshed!"@
}

/// The status message after a tab was selected.
pub open spec fn tab_message(tab: Tab) -> Seq<char> {
    match tab {
        Tab::Overview => "Showing: Overview"@,
        Tab::Memory => "Showing: Memory"@,
        Tab::Disks => "Showing: Disks"@,
        Tab::Network => "Showing: Network"@,
    }
}

/// The tab that a key selects, if it selects one: the keys `1` to `4`.
pub open spec fn tab_of_key(key: Key) -> Option<Tab> {
    match key {
        Key::Char(c) => if c == '1' {
            Some(Tab::Overview)
        } else if c == '2' {
            Some(Tab::Memory)
        } else if c == '3' {
            Some(Tab::Disks)
        } else if c == '4' {
            Some(Tab::Network)
        } else {
            None
        },
        Key::Other => None,
    }
}

/// The state after a key press.
///
/// `q` stops the application, `h` shows the help, `r` announces a refresh,
/// `1` to `4` select a tab; every other key leaves the state as it is. Only
/// the lower-case letters are commands.
pub open spec fn state_after_key(state: AppView, key: Key) -> AppView {
    if key == Key::Char('q') {
        AppView { running: false, ..state }
    } else if key == Key::Char('h') {
        AppView { status_message: help_message(), ..state }
    } else if key == Key::Char('r') {
        AppView { status_message: refreshed_message(), ..state }
    } else {
        match tab_of_key(key) {
            Some(tab) => AppView { current_tab: tab, status_message: tab_message(tab), ..state },
            None => state,
        }
    }
}

/// What the event loop has to do after a key press: leave on `q`, gather a
/// new snapshot on `r`, and go on otherwise.
pub open spec fn action_of_key(key: Key) -> Action {
    if key == Key::Char('q') {
        Action::Quit
    } else if key == Key::Char('r') {
        Action::Refresh
    } else {
        Action::Continue
    }
}

/// The state after a new snapshot, gathered at `now`, was taken in.
pub open spec fn state_after_refresh(state: AppView, system_info: SystemInfoView, now: nat)
    -> AppView {
    AppView { system_info, last_refresh: now, ..state }
}

/// Whether at `now` more than the refresh interval has passed since the
/// last refresh.
pub open spec fn refresh_is_due(state: AppView, now: nat) -> bool {
    now - state.last_refresh > REFRESH_INTERVAL_NANOS
}

impl App {
    /// A fresh application: it shows the overview of the snapshot handed in,
    /// which was gathered at `now`, and greets the user.
    pub fn new(system_info: SystemInfo, now: u128) -> (app: App)
        ensures
            app@ == (AppView {
                system_info: system_info@,
                last_refresh: now as nat,
                status_message: welcome_message(),
                current_tab: Tab::Overview,
                running: true,
            }),
    {
        App {
            system_info,
            last_refresh: now,
            status_message: "Welcome to System Index! Press 'h' for help, 'q' to quit.".to_string(),
            current_tab: Tab::Overview,
            running: true,
        }
    }

    /// The snapshot on display.
    pub fn system_info(&self) -> (r: &SystemInfo)
        ensures
            r@ == self@.system_info,
    {
        &self.system_info
    }

    /// The instant of the last refresh.
    pub fn last_refresh(&self) -> (r: u128)
        ensures
            r == self@.last_refresh,
    {
        self.last_refresh
    }

    /// The status message.
    pub fn status_message(&self) -> (r: &str)
        ensures
            r@ == self@.status_message,
    {
        self.status_message.as_str()
    }

    /// The selected tab.
    pub fn current_tab(&self) -> (r: Tab)
        ensures
            r == self@.current_tab,
    {
        self.current_tab
    }

    /// Whether the application is still running: true until `q` was pressed.
    pub fn is_running(&self) -> (r: bool)
        ensures
            r == self@.running,
    {
        self.running
    }

    /// Applies a key press to the state and tells the event loop what to do
    /// next.
    pub fn handle_input(&mut self, key: Key) -> (action: Action)
        ensures
            final(self)@ == state_after_key(old(self)@, key),
            action == action_of_key(key),
    {
        match key {
            Key::Char('q') => {
                self.running = false;
                Action::Quit
            },
            Key::Char('h') => {
                self.status_message =
                "Keys: q=quit, r=refresh, 1=overview, 2=memory, 3=disks, 4=network".to_string();
                Action::Continue
            },
            Key::Char('r') => {
                self.status_message = "System information refreshed!".to_string();
                Action::Refresh
            },
            Key::Char('1') => {
                self.current_tab = Tab::Overview;
                self.status_message = "Showing: Overview".to_string();
                Action::Continue
            },
            Key::Char('2') => {
                self.current_tab = Tab::Memory;
                self.status_message = "Showing: Memory".to_string();
                Action::Continue
            },
            Key::Char('3') => {
                self.current_tab = Tab::Disks;
                self.status_message = "Showing: Disks".to_string();
                Action::Continue
            },
            Key::Char('4') => {
                self.current_tab = Tab::Network;
                self.status_message = "Showing: Network".to_string();
                Action::Continue
            },
            _ => Action::Continue,
        }
    }

    /// Tells whether the snapshot on display is older than the refresh
    /// interval at `now`. A clock that reads earlier than the last refresh
    /// asks for none.
    pub fn refresh_due(&self, now: u128) -> (due: bool)
        ensures
            due == refresh_is_due(self@, now as nat),
    {
        now > self.last_refresh && now - self.last_refresh > REFRESH_INTERVAL_NANOS
    }

    /// Takes in a new snapshot, gathered at `now`. Tab, status message and
    /// running flag stay as they are.
    pub fn refresh(&mut self, system_info: SystemInfo, now: u128)
        ensures
            final(self)@ == state_after_refresh(old(self)@, system_info@, now as nat),
    {
        self.system_info = system_info;
        self.last_refresh = now;
    }
}

/// Selecting the tab that is already selected changes nothing but the
/// status message.
pub proof fn lemma_select_current_tab(state: AppView, key: Key)
    requires
        tab_of_key(key) == Some(state.current_tab),
    ensures
        state_after_key(state, key) == (AppView {
            status_message: tab_message(state.current_tab),
            ..state
        }),
{
}

/// Selecting a tab twice is the same as selecting it once.
pub proof fn lemma_select_tab_idempotent(state: AppView, key: Key)
    requires
        tab_of_key(key) is Some,
    ensures
        state_after_key(state_after_key(state, key), key) == state_after_key(state, key),
{
}

/// A key that is no command leaves the state as it is and lets the loop go
/// on.
pub proof fn lemma_other_keys_do_nothing(state: AppView, key: Key)
    requires
        key != Key::Char('q'),
        key != Key::Char('h'),
        key != Key::Char('r'),
        tab_of_key(key) is None,
    ensures
        state_after_key(state, key) == state,
        action_of_key(key) == Action::Continue,
{
}

} // verus!
