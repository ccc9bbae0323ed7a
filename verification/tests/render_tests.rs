use system_index::models::{Bandwidth, DiskInfo, NetworkDetails, NetworkInfo, SystemInfo};
use system_index::render::{starts_with_rule, usage_percent, Screen, PROGRESS_BAR_WIDTH};
use system_index::tui::{App, Key};

fn full_snapshot() -> SystemInfo {
    SystemInfo {
        os_name: "Linux".to_string(),
        os_version: "6.1".to_string(),
        kernel_version: "6.1.0-18".to_string(),
        hostname: "box".to_string(),
        cpu_count: 8,
        cpu_brand: "Example CPU".to_string(),
        total_memory: 8192,
        used_memory: 2048,
        total_swap: 4096,
        used_swap: 4096,
        disks: vec![
            DiskInfo {
                name: "sda1".to_string(),
                mount_point: "/".to_string(),
                total_space: 1000,
                available_space: 250,
                file_system: "ext4".to_string(),
            },
            DiskInfo {
                name: "none".to_string(),
                mount_point: "/proc".to_string(),
                total_space: 0,
                available_space: 0,
                file_system: "proc".to_string(),
            },
        ],
        networks: vec![NetworkInfo {
            interface_name: "eth0".to_string(),
            received_bytes: 2048,
            transmitted_bytes: 1024,
            ip_address: None,
        }],
        network_details: NetworkDetails {
            local_ip: Some("192.168.1.10".to_string()),
            public_ip: None,
            bandwidth_mbps: Some(Bandwidth { bytes: 1_000_000, elapsed_nanos: 640_000_000 }),
        },
        processes_count: 123,
        uptime: 90061,
    }
}

fn bare_snapshot() -> SystemInfo {
    SystemInfo {
        os_name: "Unknown".to_string(),
        os_version: "Unknown".to_string(),
        kernel_version: "Unknown".to_string(),
        hostname: "Unknown".to_string(),
        cpu_count: 0,
        cpu_brand: "Unknown".to_string(),
        total_memory: 0,
        used_memory: 0,
        total_swap: 0,
        used_swap: 0,
        disks: vec![],
        networks: vec![],
        network_details: NetworkDetails { local_ip: None, public_ip: None, bandwidth_mbps: None },
        processes_count: 0,
        uptime: 0,
    }
}

fn bar(filled: usize) -> String {
    format!("{}{}", "█".repeat(filled), "░".repeat(50 - filled))
}

fn texts_of(screen: &Screen) -> Vec<String> {
    screen.lines.iter().map(|line| line.text.clone()).collect()
}

fn headings_of(screen: &Screen) -> Vec<usize> {
    let mut found: Vec<usize> = Vec::new();
    for (index, line) in screen.lines.iter().enumerate() {
        if line.heading {
            found.push(index);
        }
    }
    found
}

#[test]
fn percent_is_rounded_down() {
    assert_eq!(usage_percent(0, 0), 0);
    assert_eq!(usage_percent(0, 10), 0);
    assert_eq!(usage_percent(1, 3), 33);
    assert_eq!(usage_percent(2, 3), 66);
    assert_eq!(usage_percent(29, 100), 29);
    assert_eq!(usage_percent(999, 1000), 99);
    assert_eq!(usage_percent(1000, 1000), 100);
    assert_eq!(usage_percent(u64::MAX, u64::MAX), 100);
    assert_eq!(usage_percent(u64::MAX - 1, u64::MAX), 99);
}

#[test]
fn progress_bar_has_fifty_characters() {
    assert_eq!(PROGRESS_BAR_WIDTH, 50);
    assert_eq!(App::create_progress_bar(0), bar(0));
    assert_eq!(App::create_progress_bar(1), bar(0));
    assert_eq!(App::create_progress_bar(2), bar(1));
    assert_eq!(App::create_progress_bar(25), bar(12));
    assert_eq!(App::create_progress_bar(99), bar(49));
    assert_eq!(App::create_progress_bar(100), bar(50));
    assert_eq!(App::create_progress_bar(101), bar(50));
    for percent in 0..=100u32 {
        assert_eq!(App::create_progress_bar(percent).chars().count(), 50);
    }
}

#[test]
fn rule_marks_a_heading() {
    assert!(starts_with_rule("═══ RAM MEMORY ═══"));
    assert!(starts_with_rule("═══"));
    assert!(!starts_with_rule("══"));
    assert!(!starts_with_rule(""));
    assert!(!starts_with_rule(" ═══"));
    assert!(!starts_with_rule("══= x"));
    assert!(!starts_with_rule("Total: ═══"));
}

#[test]
fn overview_panel() {
    let app = App::new(full_snapshot(), 0);
    let expected = vec![
        "🖥️  Hostname: box",
        "💻 OS: Linux 6.1",
        "🔧 Kernel: 6.1.0-18",
        "⏰ Uptime: 1d 1h 1m 1s",
        "",
        "⚙️  CPU: Example CPU",
        "📊 CPU Cores: 8",
        "",
        "💾 Total Memory: 8.00 KB",
        "📈 Used Memory: 2.00 KB",
        "📉 Free Memory: 6.00 KB",
        "",
        "🔄 Total Swap: 4.00 KB",
        "📊 Used Swap: 4.00 KB",
        "",
        "💿 Disks: 2",
        "🌐 Network Interfaces: 1",
        "📋 Running Processes: 123",
    ];
    assert_eq!(app.render_overview(), expected);
}

#[test]
fn memory_panel() {
    let app = App::new(full_snapshot(), 0);
    let expected = vec![
        "═══ RAM MEMORY ═══".to_string(),
        "Total:     8.00 KB".to_string(),
        "Used:      2.00 KB (25%)".to_string(),
        "Free:      6.00 KB".to_string(),
        format!("Usage Bar: [{}]", bar(12)),
        String::new(),
        "═══ SWAP MEMORY ═══".to_string(),
        "Total:     4.00 KB".to_string(),
        "Used:      4.00 KB (100%)".to_string(),
        "Free:      0.00 B".to_string(),
        format!("Usage Bar: [{}]", bar(50)),
    ];
    assert_eq!(app.render_memory(), expected);
}

#[test]
fn memory_panel_without_memory() {
    let app = App::new(bare_snapshot(), 0);
    let lines = app.render_memory();
    assert_eq!(lines[2], "Used:      0.00 B (0%)");
    assert_eq!(lines[4], format!("Usage Bar: [{}]", bar(0)));
    assert_eq!(lines[8], "Used:      0.00 B (0%)");
    assert_eq!(lines[10], format!("Usage Bar: [{}]", bar(0)));
}

#[test]
fn disks_panel() {
    let app = App::new(full_snapshot(), 0);
    let expected = vec![
        "Mounted Disks:".to_string(),
        String::new(),
        "═══ Disk 1 ═══".to_string(),
        "Name:       sda1".to_string(),
        "Mount:      /".to_string(),
        "Filesystem: ext4".to_string(),
        "Total:      1000.00 B".to_string(),
        "Used:       750.00 B (75%)".to_string(),
        "Available:  250.00 B".to_string(),
        format!("Usage Bar:  [{}]", bar(37)),
        String::new(),
        "═══ Disk 2 ═══".to_string(),
        "Name:       none".to_string(),
        "Mount:      /proc".to_string(),
        "Filesystem: proc".to_string(),
        "Total:      0.00 B".to_string(),
        "Used:       0.00 B (0%)".to_string(),
        "Available:  0.00 B".to_string(),
        format!("Usage Bar:  [{}]", bar(0)),
        String::new(),
    ];
    assert_eq!(app.render_disks(), expected);
}

#[test]
fn disks_panel_without_disks() {
    let app = App::new(bare_snapshot(), 0);
    assert_eq!(app.render_disks(), vec!["Mounted Disks:", "", "No disks found."]);
}

#[test]
fn network_panel() {
    let app = App::new(full_snapshot(), 0);
    let expected = vec![
        "═══ Network Details ═══",
        "Local IP:   192.168.1.10",
        "Public IP:  Not available",
        "Bandwidth:  12.50 Mbps",
        "",
        "Network Interfaces:",
        "",
        "═══ Interface 1 ═══",
        "Name:       eth0",
        "Received:   2.00 KB",
        "Transmitted: 1.00 KB",
        "Total:      3.00 KB",
        "",
    ];
    assert_eq!(app.render_network(), expected);
}

#[test]
fn network_panel_without_interfaces() {
    let app = App::new(bare_snapshot(), 0);
    let expected = vec![
        "═══ Network Details ═══",
        "Local IP:   Not available",
        "Public IP:  Not available",
        "Bandwidth:  Not available",
        "",
        "Network Interfaces:",
        "",
        "No network interfaces found.",
    ];
    assert_eq!(app.render_network(), expected);
}

#[test]
fn screen_of_a_fresh_application() {
    let app = App::new(full_snapshot(), 0);
    let screen = app.ui();
    assert_eq!(
        screen.title,
        "🖥️  System Index - [1: Overview] | 2: Memory | 3: Disks | 4: Network"
    );
    assert_eq!(screen.panel_title, "System Overview");
    assert_eq!(screen.status, "Welcome to System Index! Press 'h' for help, 'q' to quit.");
    assert_eq!(texts_of(&screen), app.render_overview());
    assert!(headings_of(&screen).is_empty());
}

#[test]
fn screen_follows_the_selected_tab() {
    let mut app = App::new(full_snapshot(), 0);

    app.handle_input(Key::Char('2'));
    let screen = app.ui();
    assert_eq!(
        screen.title,
        "🖥️  System Index - 1: Overview | [2: Memory] | 3: Disks | 4: Network"
    );
    assert_eq!(screen.panel_title, "Memory Details");
    assert_eq!(screen.status, "Showing: Memory");
    assert_eq!(texts_of(&screen), app.render_memory());
    assert_eq!(headings_of(&screen), vec![0, 6]);

    app.handle_input(Key::Char('3'));
    let screen = app.ui();
    assert_eq!(
        screen.title,
        "🖥️  System Index - 1: Overview | 2: Memory | [3: Disks] | 4: Network"
    );
    assert_eq!(screen.panel_title, "Disk Information");
    assert_eq!(texts_of(&screen), app.render_disks());
    assert_eq!(headings_of(&screen), vec![2, 11]);

    app.handle_input(Key::Char('4'));
    let screen = app.ui();
    assert_eq!(
        screen.title,
        "🖥️  System Index - 1: Overview | 2: Memory | 3: Disks | [4: Network]"
    );
    assert_eq!(screen.panel_title, "Network Information");
    assert_eq!(texts_of(&screen), app.render_network());
    assert_eq!(headings_of(&screen), vec![0, 7]);
}

#[test]
fn screen_shows_the_latest_snapshot() {
    let mut app = App::new(bare_snapshot(), 0);
    assert_eq!(app.ui().lines[0].text, "🖥️  Hostname: Unknown");
    app.refresh(full_snapshot(), 5);
    assert_eq!(app.ui().lines[0].text, "🖥️  Hostname: box");
}

#[test]
fn overview_lines_are_no_headings() {
    let mut info = bare_snapshot();
    info.hostname = "═══".to_string();
    let screen = App::new(info, 0).ui();
    assert!(headings_of(&screen).is_empty());
}

#[test]
fn block_of_one_disk() {
    let disk = DiskInfo {
        name: "nvme0n1p2".to_string(),
        mount_point: "/home".to_string(),
        total_space: 2048,
        available_space: 1024,
        file_system: "btrfs".to_string(),
    };
    let expected = vec![
        "═══ Disk 12 ═══".to_string(),
        "Name:       nvme0n1p2".to_string(),
        "Mount:      /home".to_string(),
        "Filesystem: btrfs".to_string(),
        "Total:      2.00 KB".to_string(),
        "Used:       1.00 KB (50%)".to_string(),
        "Available:  1.00 KB".to_string(),
        format!("Usage Bar:  [{}]", bar(25)),
        String::new(),
    ];
    assert_eq!(App::render_disk(&disk, 12), expected);
}

#[test]
fn block_of_one_interface() {
    let network = NetworkInfo {
        interface_name: "wlan0".to_string(),
        received_bytes: u64::MAX - 1,
        transmitted_bytes: 1,
        ip_address: None,
    };
    let expected = vec![
        "═══ Interface 3 ═══",
        "Name:       wlan0",
        "Received:   16777216.00 TB",
        "Transmitted: 1.00 B",
        "Total:      16777216.00 TB",
        "",
    ];
    assert_eq!(App::render_interface(&network, 3), expected);
}

#[test]
fn a_panel_needs_only_its_own_part_of_the_snapshot() {
    let mut info = full_snapshot();
    info.disks[0].available_space = info.disks[0].total_space + 1;
    info.networks[0].received_bytes = u64::MAX;
    let mut app = App::new(info, 0);
    assert!(app.can_render());
    assert_eq!(app.ui().lines[0].text, "🖥️  Hostname: box");
    app.handle_input(Key::Char('2'));
    assert!(app.can_render());
    assert_eq!(app.ui().lines[1].text, "Total:     8.00 KB");
    app.handle_input(Key::Char('3'));
    assert!(!app.can_render());
    app.handle_input(Key::Char('4'));
    assert!(!app.can_render());

    let mut info = full_snapshot();
    info.used_memory = info.total_memory + 1;
    let mut app = App::new(info, 0);
    assert!(!app.can_render());
    app.handle_input(Key::Char('2'));
    assert!(!app.can_render());
    app.handle_input(Key::Char('3'));
    assert!(app.can_render());
    assert_eq!(app.ui().lines[2].text, "═══ Disk 1 ═══");
    app.handle_input(Key::Char('4'));
    assert!(app.can_render());
    assert_eq!(app.ui().lines[1].text, "Local IP:   192.168.1.10");
}

#[test]
fn the_memory_panel_needs_the_swap_too() {
    let mut info = full_snapshot();
    info.used_swap = info.total_swap + 1;
    let mut app = App::new(info, 0);
    assert!(app.can_render());
    assert_eq!(app.ui().lines[13].text, "📊 Used Swap: 4.00 KB");
    app.handle_input(Key::Char('2'));
    assert!(!app.can_render());
}
