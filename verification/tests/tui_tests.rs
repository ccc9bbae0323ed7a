use system_index::models::{NetworkDetails, SystemInfo};
use system_index::tui::{Action, App, Key, Tab, REFRESH_INTERVAL_NANOS};

fn snapshot(hostname: &str) -> SystemInfo {
    SystemInfo {
        os_name: "Linux".to_string(),
        os_version: "6.1".to_string(),
        kernel_version: "6.1.0".to_string(),
        hostname: hostname.to_string(),
        cpu_count: 4,
        cpu_brand: "Example CPU".to_string(),
        total_memory: 8192,
        used_memory: 4096,
        total_swap: 0,
        used_swap: 0,
        disks: vec![],
        networks: vec![],
        network_details: NetworkDetails { local_ip: None, public_ip: None, bandwidth_mbps: None },
        processes_count: 10,
        uptime: 90,
    }
}

/// Stands for the snapshot assembler, and counts how often it was called.
struct Assembler {
    calls: usize,
}

impl Assembler {
    fn collect(&mut self) -> SystemInfo {
        self.calls += 1;
        snapshot(&format!("host-{}", self.calls))
    }
}

/// Feeds keys to the application as the event loop does, until it stops.
fn feed(app: &mut App, assembler: &mut Assembler, keys: &[Key], now: u128) {
    for key in keys {
        if !app.is_running() {
            break;
        }
        match app.handle_input(*key) {
            Action::Quit => break,
            Action::Refresh => {
                let info = assembler.collect();
                app.refresh(info, now);
            }
            Action::Continue => {}
        }
    }
}

#[test]
fn initial_state() {
    let app = App::new(snapshot("box"), 42);
    assert_eq!(app.current_tab(), Tab::Overview);
    assert_eq!(app.status_message(), "Welcome to System Index! Press 'h' for help, 'q' to quit.");
    assert_eq!(app.last_refresh(), 42);
    assert!(app.is_running());
    assert_eq!(app.system_info().hostname, "box");
}

#[test]
fn scenario_refresh_select_quit() {
    let mut assembler = Assembler { calls: 0 };
    let first = assembler.collect();
    let mut app = App::new(first, 0);
    feed(&mut app, &mut assembler, &[Key::Char('r'), Key::Char('3'), Key::Char('q')], 1_000);
    assert_eq!(app.current_tab(), Tab::Disks);
    assert!(!app.is_running());
    assert_eq!(assembler.calls, 2);
    assert_eq!(app.system_info().hostname, "host-2");
    assert_eq!(app.last_refresh(), 1_000);
}

#[test]
fn quit_stops_the_application() {
    let mut app = App::new(snapshot("box"), 0);
    assert_eq!(app.handle_input(Key::Char('q')), Action::Quit);
    assert!(!app.is_running());
    assert_eq!(app.current_tab(), Tab::Overview);
    assert_eq!(app.status_message(), "Welcome to System Index! Press 'h' for help, 'q' to quit.");
}

#[test]
fn help_sets_the_status_message() {
    let mut app = App::new(snapshot("box"), 0);
    app.handle_input(Key::Char('2'));
    assert_eq!(app.handle_input(Key::Char('h')), Action::Continue);
    assert_eq!(
        app.status_message(),
        "Keys: q=quit, r=refresh, 1=overview, 2=memory, 3=disks, 4=network"
    );
    assert_eq!(app.current_tab(), Tab::Memory);
    assert!(app.is_running());
}

#[test]
fn refresh_key_asks_for_a_snapshot() {
    let mut app = App::new(snapshot("old"), 5);
    assert_eq!(app.handle_input(Key::Char('r')), Action::Refresh);
    assert_eq!(app.status_message(), "System information refreshed!");
    assert_eq!(app.system_info().hostname, "old");
    assert_eq!(app.last_refresh(), 5);
    app.refresh(snapshot("new"), 77);
    assert_eq!(app.system_info().hostname, "new");
    assert_eq!(app.last_refresh(), 77);
    assert_eq!(app.status_message(), "System information refreshed!");
    assert_eq!(app.current_tab(), Tab::Overview);
    assert!(app.is_running());
}

#[test]
fn digits_select_tabs() {
    let mut app = App::new(snapshot("box"), 0);
    assert_eq!(app.handle_input(Key::Char('2')), Action::Continue);
    assert_eq!(app.current_tab(), Tab::Memory);
    assert_eq!(app.status_message(), "Showing: Memory");
    app.handle_input(Key::Char('3'));
    assert_eq!(app.current_tab(), Tab::Disks);
    assert_eq!(app.status_message(), "Showing: Disks");
    app.handle_input(Key::Char('4'));
    assert_eq!(app.current_tab(), Tab::Network);
    assert_eq!(app.status_message(), "Showing: Network");
    app.handle_input(Key::Char('1'));
    assert_eq!(app.current_tab(), Tab::Overview);
    assert_eq!(app.status_message(), "Showing: Overview");
}

#[test]
fn selecting_the_current_tab_changes_only_the_status() {
    let mut app = App::new(snapshot("box"), 9);
    app.handle_input(Key::Char('3'));
    app.handle_input(Key::Char('h'));
    assert_eq!(app.handle_input(Key::Char('3')), Action::Continue);
    assert_eq!(app.current_tab(), Tab::Disks);
    assert_eq!(app.status_message(), "Showing: Disks");
    assert_eq!(app.last_refresh(), 9);
    assert!(app.is_running());
    assert_eq!(app.system_info().hostname, "box");
    app.handle_input(Key::Char('3'));
    assert_eq!(app.current_tab(), Tab::Disks);
    assert_eq!(app.status_message(), "Showing: Disks");
}

#[test]
fn other_keys_do_nothing() {
    let mut app = App::new(snapshot("box"), 0);
    app.handle_input(Key::Char('2'));
    for key in [
        Key::Char('Q'),
        Key::Char('H'),
        Key::Char('R'),
        Key::Char('0'),
        Key::Char('5'),
        Key::Char(' '),
        Key::Char('x'),
        Key::Other,
    ] {
        assert_eq!(app.handle_input(key), Action::Continue);
        assert_eq!(app.current_tab(), Tab::Memory);
        assert_eq!(app.status_message(), "Showing: Memory");
        assert!(app.is_running());
    }
}

#[test]
fn refresh_is_due_after_two_seconds() {
    assert_eq!(REFRESH_INTERVAL_NANOS, 2_000_000_000);
    let app = App::new(snapshot("box"), 1_000);
    assert!(!app.refresh_due(1_000));
    assert!(!app.refresh_due(0));
    assert!(!app.refresh_due(2_000_000_999));
    assert!(!app.refresh_due(2_000_001_000));
    assert!(app.refresh_due(2_000_001_001));
    assert!(app.refresh_due(u128::MAX));
}

#[test]
fn timed_refresh_keeps_the_status_message() {
    let mut app = App::new(snapshot("old"), 0);
    app.handle_input(Key::Char('4'));
    assert!(app.refresh_due(3_000_000_000));
    app.refresh(snapshot("new"), 3_000_000_000);
    assert_eq!(app.status_message(), "Showing: Network");
    assert_eq!(app.current_tab(), Tab::Network);
    assert_eq!(app.system_info().hostname, "new");
    assert!(!app.refresh_due(3_000_000_001));
}
