//! The mapping from the application state to a screen layout: a title with
//! the tabs, one panel of lines for the selected tab, and the status bar.

use vstd::prelude::*;
use vstd::string::*;
use crate::format::{bytes_text, fixed2, push_fixed2, uptime_text};
use crate::models::{
    Bandwidth, DiskInfo, DiskInfoView, NetworkInfo, NetworkInfoView, SystemInfo, SystemInfoView,
};
use crate::text::{decimal, push_decimal};
use crate::tui::{state_after_key, state_after_refresh, App, AppView, Key, Tab};

verus! {

/// The texts of a list of strings.
pub open spec fn texts(lines: Seq<String>) -> Seq<Seq<char>> {
    lines.map_values(|s: String| s@)
}

/// Appends a line to a list of lines.
pub fn push_line(lines: &mut Vec<String>, line: String)
    ensures
        texts(final(lines)@) == texts(old(lines)@).push(line@),
{
    lines.push(line);
    assert(texts(lines@) =~= texts(old(lines)@).push(line@));
}

/// Appends all lines of `more` to `lines`.
pub fn push_lines(lines: &mut Vec<String>, more: Vec<String>)
    ensures
        texts(final(lines)@) == texts(old(lines)@) + texts(more@),
{
    let mut more = more;
    let ghost added = more@;
    lines.append(&mut more);
    assert(texts(lines@) =~= texts(old(lines)@) + texts(added));
}

/// A label followed by a text.
pub fn labelled(label: &str, value: &str) -> (r: String)
    ensures
        r@ == label@ + value@,
{
    let mut out = String::from_str(label);
    out.append(value);
    out
}

/// A label followed by a byte count.
pub fn labelled_bytes(label: &str, bytes: u64) -> (r: String)
    ensures
        r@ == label@ + bytes_text(bytes as nat),
{
    let value = SystemInfo::format_bytes(bytes);
    labelled(label, value.as_str())
}

/// A label followed by a count.
pub fn labelled_count(label: &str, count: usize) -> (r: String)
    ensures
        r@ == label@ + decimal(count as nat),
{
    let mut out = String::from_str(label);
    push_decimal(&mut out, count as u128);
    out
}

/// One line of a panel.
#[derive(Debug, Clone)]
pub struct Line {
    pub text: String,
    /// Whether the line is the heading of a section, to be set off from the
    /// lines around it.
    pub heading: bool,
}

/// The mathematical value of a [`Line`].
pub struct LineView {
    pub text: Seq<char>,
    pub heading: bool,
}

impl View for Line {
    type V = LineView;

    open spec fn view(&self) -> LineView {
        LineView { text: self.text@, heading: self.heading }
    }
}

/// One frame of the dashboard: the title bar, the panel of the selected
/// tab, and the status bar.
#[derive(Debug, Clone)]
pub struct Screen {
    pub title: String,
    pub panel_title: String,
    pub lines: Vec<Line>,
    pub status: String,
}

/// The mathematical value of a [`Screen`].
pub struct ScreenView {
    pub title: Seq<char>,
    pub panel_title: Seq<char>,
    pub lines: Seq<LineView>,
    pub status: Seq<char>,
}

impl View for Screen {
    type V = ScreenView;

    open spec fn view(&self) -> ScreenView {
        ScreenView {
            title: self.title@,
            panel_title: self.panel_title@,
            lines: self.lines@.map_values(|l: Line| l@),
            status: self.status@,
        }
    }
}

/// The name of a tab in the title bar, with the key that selects it.
pub open spec fn tab_title(tab: Tab) -> Seq<char> {
    match tab {
        Tab::Overview => "1: Overview"@,
        Tab::Memory => "2: Memory"@,
        Tab::Disks => "3: Disks"@,
        Tab::Network => "4: Network"@,
    }
}

/// The name of a tab in the title bar, between brackets where the tab is
/// the selected one.
pub open spec fn tab_label(tab: Tab, current: Tab) -> Seq<char> {
    if tab == current {
        "["@ + tab_title(tab) + "]"@
    } else {
        tab_title(tab)
    }
}

/// The title bar: the name of the program and the four tabs.
pub open spec fn title_text(current: Tab) -> Seq<char> {
    "🖥️  System Index - "@ + tab_label(Tab::Overview, current) + " | "@ + tab_label(
        Tab::Memory,
        current,
    ) + " | "@ + tab_label(Tab::Disks, current) + " | "@ + tab_label(Tab::Network, current)
}

/// The title of the panel of a tab.
pub open spec fn panel_title(tab: Tab) -> Seq<char> {
    match tab {
        Tab::Overview => "System Overview"@,
        Tab::Memory => "Memory Details"@,
        Tab::Disks => "Disk Information"@,
        Tab::Network => "Network Information"@,
    }
}

/// The lines of the panel of a tab.
pub open spec fn panel_texts(tab: Tab, info: SystemInfoView) -> Seq<Seq<char>> {
    match tab {
        Tab::Overview => overview_lines(info),
        Tab::Memory => memory_lines(info),
        Tab::Disks => disks_lines(info),
        Tab::Network => network_lines(info),
    }
}

/// What the panel of a tab needs of the snapshot: the overview, that no
/// more memory is used than there is; the memory panel, the same of memory
/// and swap; the disks panel, that no disk has more space available than it
/// has in all; the network panel, that the traffic of every interface can
/// be added up and that the bandwidth estimate comes from a transfer that
/// took time.
pub open spec fn panel_wf(tab: Tab, info: SystemInfoView) -> bool {
    match tab {
        Tab::Overview => info.memory_wf(),
        Tab::Memory => info.memory_wf() && info.swap_wf(),
        Tab::Disks => info.disks_wf(),
        Tab::Network => info.networks_wf(),
    }
}

/// Whether a text begins with the rule of three double lines that marks a
/// heading.
pub open spec fn has_rule_prefix(text: Seq<char>) -> bool {
    text.len() >= 3 && text[0] == '═' && text[1] == '═' && text[2] == '═'
}

/// Whether a line of the panel of a tab is a heading: in every panel but
/// the overview, the lines that begin with the rule.
pub open spec fn is_heading(tab: Tab, text: Seq<char>) -> bool {
    tab != Tab::Overview && has_rule_prefix(text)
}

/// The frame that shows a state.
pub open spec fn screen_of(state: AppView) -> ScreenView {
    ScreenView {
        title: title_text(state.current_tab),
        panel_title: panel_title(state.current_tab),
        lines: panel_texts(state.current_tab, state.system_info).map_values(
            |text: Seq<char>| LineView { text, heading: is_heading(state.current_tab, text) },
        ),
        status: state.status_message,
    }
}

/// Tells whether a text begins with the rule that marks a heading.
pub fn starts_with_rule(text: &str) -> (r: bool)
    ensures
        r == has_rule_prefix(text@),
{
    text.unicode_len() >= 3 && text.get_char(0) == '═' && text.get_char(1) == '═' && text.get_char(
        2,
    ) == '═'
}

/// Appends the name of a tab to the title bar.
fn push_tab_label(out: &mut String, tab: Tab, current: Tab)
    ensures
        final(out)@ == old(out)@ + tab_label(tab, current),
{
    let name: &'static str = match tab {
        Tab::Overview => "1: Overview",
        Tab::Memory => "2: Memory",
        Tab::Disks => "3: Disks",
        Tab::Network => "4: Network",
    };
    if tab == current {
        out.append("[");
        out.append(name);
        out.append("]");
    } else {
        out.append(name);
    }
    assert(out@ =~= old(out)@ + tab_label(tab, current));
}

/// The width of a usage bar, in characters.
pub const PROGRESS_BAR_WIDTH: usize = 50;

/// The share of `used` in `total`, in whole percent, rounded down; zero
/// where there is nothing in all.
pub open spec fn spec_usage_percent(used: nat, total: nat) -> nat {
    if total == 0 {
        0
    } else {
        used * 100 / total
    }
}

/// The share of `used` in `total`, in whole percent, rounded down; zero
/// where there is nothing in all.
pub fn usage_percent(used: u64, total: u64) -> (percent: u32)
    requires
        used <= total,
    ensures
        percent == spec_usage_percent(used as nat, total as nat),
        percent <= 100,
{
    if total > 0 {
        let scaled: u128 = (used as u128) * 100;
        let wide: u128 = total as u128;
        assert(scaled / wide <= 100) by (nonlinear_arith)
            requires
                scaled <= wide * 100,
                wide > 0,
        ;
        (scaled / wide) as u32
    } else {
        0
    }
}

/// A usage bar: two characters stand for one percent, the filled part
/// first.
pub open spec fn progress_bar(percent: nat) -> Seq<char> {
    Seq::new(PROGRESS_BAR_WIDTH as nat, |i: int| if i < percent / 2 { '█' } else { '░' })
}

/// A line that names an amount and its share: `Used: 1.00 KB (50%)`.
pub open spec fn share_text(label: Seq<char>, bytes: nat, percent: nat) -> Seq<char> {
    label + bytes_text(bytes) + " ("@ + decimal(percent) + "%)"@
}

/// A line that names an amount and its share.
pub fn share_line(label: &str, bytes: u64, percent: u32) -> (r: String)
    ensures
        r@ == share_text(label@, bytes as nat, percent as nat),
{
    let mut out = labelled_bytes(label, bytes);
    out.append(" (");
    push_decimal(&mut out, percent as u128);
    out.append("%)");
    out
}

/// A line that holds a usage bar between brackets.
pub open spec fn bar_text(label: Seq<char>, percent: nat) -> Seq<char> {
    label + progress_bar(percent) + "]"@
}

/// A line that holds a usage bar between brackets.
pub fn bar_line(label: &str, percent: u32) -> (r: String)
    requires
        percent / 2 <= PROGRESS_BAR_WIDTH,
    ensures
        r@ == bar_text(label@, percent as nat),
{
    let bar = App::create_progress_bar(percent);
    let mut out = labelled(label, bar.as_str());
    out.append("]");
    out
}

/// The lines of the memory panel: a section for the memory and one for the
/// swap, each with its total, the used part with its share, the free part
/// and a usage bar.
pub open spec fn memory_lines(info: SystemInfoView) -> Seq<Seq<char>> {
    let mem = spec_usage_percent(info.used_memory, info.total_memory);
    let swap = spec_usage_percent(info.used_swap, info.total_swap);
    seq![
        "═══ RAM MEMORY ═══"@,
        "Total:     "@ + bytes_text(info.total_memory),
        share_text("Used:      "@, info.used_memory, mem),
        "Free:      "@ + bytes_text((info.total_memory - info.used_memory) as nat),
        bar_text("Usage Bar: ["@, mem),
        Seq::empty(),
        "═══ SWAP MEMORY ═══"@,
        "Total:     "@ + bytes_text(info.total_swap),
        share_text("Used:      "@, info.used_swap, swap),
        "Free:      "@ + bytes_text((info.total_swap - info.used_swap) as nat),
        bar_text("Usage Bar: ["@, swap),
    ]
}

/// The heading of a numbered block: `═══ Disk 1 ═══`.
pub open spec fn block_heading(kind: Seq<char>, number: nat) -> Seq<char> {
    kind + decimal(number) + " ═══"@
}

/// The heading of a numbered block.
pub fn block_heading_line(kind: &str, number: usize) -> (r: String)
    ensures
        r@ == block_heading(kind@, number as nat),
{
    let mut out = labelled_count(kind, number);
    out.append(" ═══");
    out
}

/// The lines of one disk, the `number`-th of the list.
pub open spec fn disk_block(disk: DiskInfoView, number: nat) -> Seq<Seq<char>> {
    let used = (disk.total_space - disk.available_space) as nat;
    let percent = spec_usage_percent(used, disk.total_space);
    seq![
        block_heading("═══ Disk "@, number),
        "Name:       "@ + disk.name,
        "Mount:      "@ + disk.mount_point,
        "Filesystem: "@ + disk.file_system,
        "Total:      "@ + bytes_text(disk.total_space),
        share_text("Used:       "@, used, percent),
        "Available:  "@ + bytes_text(disk.available_space),
        bar_text("Usage Bar:  ["@, percent),
        Seq::empty(),
    ]
}

/// The lines of the first `count` disks, numbered from one.
pub open spec fn disk_blocks(disks: Seq<DiskInfoView>, count: nat) -> Seq<Seq<char>>
    decreases count,
{
    if count == 0 {
        Seq::empty()
    } else {
        disk_blocks(disks, (count - 1) as nat) + disk_block(disks[count - 1], count)
    }
}

/// The lines of the disks panel: every disk in turn, or a note that there
/// is none.
pub open spec fn disks_lines(info: SystemInfoView) -> Seq<Seq<char>> {
    let head = seq!["Mounted Disks:"@, Seq::empty()] + disk_blocks(info.disks, info.disks.len());
    if info.disks.len() == 0 {
        head.push("No disks found."@)
    } else {
        head
    }
}

/// The text that stands for a probe result: the result, or a fixed note
/// where there is none.
pub open spec fn or_not_available(value: Option<Seq<char>>) -> Seq<char> {
    match value {
        Some(text) => text,
        None => "Not available"@,
    }
}

/// The text of a bandwidth estimate: the rate with two decimals, or a fixed
/// note where there is none.
pub open spec fn bandwidth_text(value: Option<Bandwidth>) -> Seq<char> {
    match value {
        Some(b) => fixed2(b.spec_centi_mbps()) + " Mbps"@,
        None => "Not available"@,
    }
}

/// A label followed by a probe result or the note that there is none.
pub fn probe_line(label: &str, value: &Option<String>) -> (r: String)
    ensures
        r@ == label@ + or_not_available(crate::models::opt_text(*value)),
{
    match value {
        Some(text) => labelled(label, text.as_str()),
        None => labelled(label, "Not available"),
    }
}

/// A label followed by a bandwidth estimate or the note that there is none.
pub fn bandwidth_line(label: &str, value: &Option<Bandwidth>) -> (r: String)
    requires
        *value matches Some(b) ==> b.wf(),
    ensures
        r@ == label@ + bandwidth_text(*value),
{
    match value {
        Some(b) => {
            let mut out = String::from_str(label);
            push_fixed2(&mut out, b.centi_mbps());
            out.append(" Mbps");
            assert(out@ =~= label@ + bandwidth_text(*value));
            out
        },
        None => labelled(label, "Not available"),
    }
}

/// The lines of one interface, the `number`-th of the list.
pub open spec fn interface_block(network: NetworkInfoView, number: nat) -> Seq<Seq<char>> {
    seq![
        block_heading("═══ Interface "@, number),
        "Name:       "@ + network.interface_name,
        "Received:   "@ + bytes_text(network.received_bytes),
        "Transmitted: "@ + bytes_text(network.transmitted_bytes),
        "Total:      "@ + bytes_text(network.received_bytes + network.transmitted_bytes),
        Seq::empty(),
    ]
}

/// The lines of the first `count` interfaces, numbered from one.
pub open spec fn interface_blocks(networks: Seq<NetworkInfoView>, count: nat) -> Seq<Seq<char>>
    decreases count,
{
    if count == 0 {
        Seq::empty()
    } else {
        interface_blocks(networks, (count - 1) as nat) + interface_block(
            networks[count - 1],
            count,
        )
    }
}

/// The lines that show the results of the network probes. Every probe has
/// its line, whether it found something or not.
pub open spec fn details_lines(info: SystemInfoView) -> Seq<Seq<char>> {
    seq![
        "═══ Network Details ═══"@,
        "Local IP:   "@ + or_not_available(info.network_details.local_ip),
        "Public IP:  "@ + or_not_available(info.network_details.public_ip),
        "Bandwidth:  "@ + bandwidth_text(info.network_details.bandwidth_mbps),
        Seq::empty(),
        "Network Interfaces:"@,
        Seq::empty(),
    ]
}

/// The lines of the network panel: the results of the probes, then every
/// interface in turn, or a note that there is none.
pub open spec fn network_lines(info: SystemInfoView) -> Seq<Seq<char>> {
    let head = details_lines(info) + interface_blocks(info.networks, info.networks.len());
    if info.networks.len() == 0 {
        head.push("No network interfaces found."@)
    } else {
        head
    }
}

/// The lines of the overview panel.
pub open spec fn overview_lines(info: SystemInfoView) -> Seq<Seq<char>> {
    seq![
        "🖥️  Hostname: "@ + info.hostname,
        "💻 OS: "@ + info.os_name + " "@ + info.os_version,
        "🔧 Kernel: "@ + info.kernel_version,
        "⏰ Uptime: "@ + uptime_text(info.uptime),
        Seq::empty(),
        "⚙️  CPU: "@ + info.cpu_brand,
        "📊 CPU Cores: "@ + decimal(info.cpu_count),
        Seq::empty(),
        "💾 Total Memory: "@ + bytes_text(info.total_memory),
        "📈 Used Memory: "@ + bytes_text(info.used_memory),
        "📉 Free Memory: "@ + bytes_text((info.total_memory - info.used_memory) as nat),
        Seq::empty(),
        "🔄 Total Swap: "@ + bytes_text(info.total_swap),
        "📊 Used Swap: "@ + bytes_text(info.used_swap),
        Seq::empty(),
        "💿 Disks: "@ + decimal(info.disks.len()),
        "🌐 Network Interfaces: "@ + decimal(info.networks.len()),
        "📋 Running Processes: "@ + decimal(info.processes_count),
    ]
}

impl App {
    /// The lines of the overview panel: the identity of the host, its
    /// processor, memory and swap, and the numbers of disks, interfaces and
    /// processes.
    pub fn render_overview(&self) -> (lines: Vec<String>)
        requires
            self@.system_info.memory_wf(),
        ensures
            texts(lines@) == overview_lines(self@.system_info),
    {
        let info = self.system_info();
        let mut items: Vec<String> = Vec::new();
        assert(texts(items@) =~= Seq::empty());
        push_line(&mut items, labelled("🖥️  Hostname: ", info.hostname.as_str()));
        let mut os = labelled("💻 OS: ", info.os_name.as_str());
        os.append(" ");
        os.append(info.os_version.as_str());
        push_line(&mut items, os);
        push_line(&mut items, labelled("🔧 Kernel: ", info.kernel_version.as_str()));
        let uptime = SystemInfo::format_uptime(info.uptime);
        push_line(&mut items, labelled("⏰ Uptime: ", uptime.as_str()));
        push_line(&mut items, String::new());
        push_line(&mut items, labelled("⚙️  CPU: ", info.cpu_brand.as_str()));
        push_line(&mut items, labelled_count("📊 CPU Cores: ", info.cpu_count));
        push_line(&mut items, String::new());
        push_line(&mut items, labelled_bytes("💾 Total Memory: ", info.total_memory));
        push_line(&mut items, labelled_bytes("📈 Used Memory: ", info.used_memory));
        push_line(
            &mut items,
            labelled_bytes("📉 Free Memory: ", info.total_memory - info.used_memory),
        );
        push_line(&mut items, String::new());
        push_line(&mut items, labelled_bytes("🔄 Total Swap: ", info.total_swap));
        push_line(&mut items, labelled_bytes("📊 Used Swap: ", info.used_swap));
        push_line(&mut items, String::new());
        push_line(&mut items, labelled_count("💿 Disks: ", info.disks.len()));
        push_line(&mut items, labelled_count("🌐 Network Interfaces: ", info.networks.len()));
        push_line(&mut items, labelled_count("📋 Running Processes: ", info.processes_count));
        assert(texts(items@) =~= overview_lines(self@.system_info));
        items
    }

    /// A usage bar of fifty characters: one filled character for every two
    /// percent, the rest empty.
    pub fn create_progress_bar(percent: u32) -> (bar: String)
        requires
            percent / 2 <= PROGRESS_BAR_WIDTH,
        ensures
            bar@ == progress_bar(percent as nat),
    {
        let filled: usize = (percent / 2) as usize;
        let mut out = String::new();
        let mut i: usize = 0;
        proof {
            reveal_strlit("█");
            reveal_strlit("░");
        }
        while i < PROGRESS_BAR_WIDTH
            invariant
                i <= PROGRESS_BAR_WIDTH,
                filled == percent / 2,
                "█"@ == seq!['█'],
                "░"@ == seq!['░'],
                out@ == Seq::new(i as nat, |j: int| if j < percent as nat / 2 { '█' } else { '░' }),
            decreases PROGRESS_BAR_WIDTH - i,
        {
            if i < filled {
                out.append("█");
            } else {
                out.append("░");
            }
            i += 1;
            assert(out@ =~= Seq::new(
                i as nat,
                |j: int| if j < percent as nat / 2 { '█' } else { '░' },
            ));
        }
        out
    }

    /// The lines of the memory panel.
    pub fn render_memory(&self) -> (lines: Vec<String>)
        requires
            self@.system_info.memory_wf(),
            self@.system_info.swap_wf(),
        ensures
            texts(lines@) == memory_lines(self@.system_info),
    {
        let info = self.system_info();
        let mem: u32 = usage_percent(info.used_memory, info.total_memory);
        let swap: u32 = usage_percent(info.used_swap, info.total_swap);
        let mut items: Vec<String> = Vec::new();
        assert(texts(items@) =~= Seq::empty());
        push_line(&mut items, String::from_str("═══ RAM MEMORY ═══"));
        push_line(&mut items, labelled_bytes("Total:     ", info.total_memory));
        push_line(&mut items, share_line("Used:      ", info.used_memory, mem));
        push_line(&mut items, labelled_bytes("Free:      ", info.total_memory - info.used_memory));
        push_line(&mut items, bar_line("Usage Bar: [", mem));
        push_line(&mut items, String::new());
        push_line(&mut items, String::from_str("═══ SWAP MEMORY ═══"));
        push_line(&mut items, labelled_bytes("Total:     ", info.total_swap));
        push_line(&mut items, share_line("Used:      ", info.used_swap, swap));
        push_line(&mut items, labelled_bytes("Free:      ", info.total_swap - info.used_swap));
        push_line(&mut items, bar_line("Usage Bar: [", swap));
        assert(texts(items@) =~= memory_lines(self@.system_info));
        items
    }

    /// The lines of one disk in the disks panel, the `number`-th of the list.
    pub fn render_disk(disk: &DiskInfo, number: usize) -> (lines: Vec<String>)
        requires
            disk.available_space <= disk.total_space,
        ensures
            texts(lines@) == disk_block(disk@, number as nat),
    {
        let used_space: u64 = disk.total_space - disk.available_space;
        let percent: u32 = usage_percent(used_space, disk.total_space);
        let mut items: Vec<String> = Vec::new();
        assert(texts(items@) =~= Seq::empty());
        push_line(&mut items, block_heading_line("═══ Disk ", number));
        push_line(&mut items, labelled("Name:       ", disk.name.as_str()));
        push_line(&mut items, labelled("Mount:      ", disk.mount_point.as_str()));
        push_line(&mut items, labelled("Filesystem: ", disk.file_system.as_str()));
        push_line(&mut items, labelled_bytes("Total:      ", disk.total_space));
        push_line(&mut items, share_line("Used:       ", used_space, percent));
        push_line(&mut items, labelled_bytes("Available:  ", disk.available_space));
        push_line(&mut items, bar_line("Usage Bar:  [", percent));
        push_line(&mut items, String::new());
        assert(texts(items@) =~= disk_block(disk@, number as nat));
        items
    }

    /// The lines of the disks panel.
    pub fn render_disks(&self) -> (lines: Vec<String>)
        requires
            self@.system_info.disks_wf(),
        ensures
            texts(lines@) == disks_lines(self@.system_info),
    {
        let info = self.system_info();
        let ghost view = self@.system_info;
        let mut items: Vec<String> = Vec::new();
        assert(texts(items@) =~= Seq::empty());
        push_line(&mut items, String::from_str("Mounted Disks:"));
        push_line(&mut items, String::new());
        let ghost head = texts(items@);
        assert(head =~= seq!["Mounted Disks:"@, Seq::empty()]);
        assert(texts(items@) =~= head + disk_blocks(view.disks, 0));
        let mut idx: usize = 0;
        while idx < info.disks.len()
            invariant
                idx <= info.disks.len(),
                info@ == view,
                view.disks_wf(),
                texts(items@) == head + disk_blocks(view.disks, idx as nat),
            decreases info.disks.len() - idx,
        {
            let disk = &info.disks[idx];
            assert(disk@ == view.disks[idx as int]);
            let block = Self::render_disk(disk, idx + 1);
            push_lines(&mut items, block);
            idx += 1;
            assert(texts(items@) =~= head + disk_blocks(view.disks, idx as nat));
        }
        if info.disks.len() == 0 {
            push_line(&mut items, String::from_str("No disks found."));
        }
        items
    }

    /// The lines of one interface in the network panel, the `number`-th of
    /// the list.
    pub fn render_interface(network: &NetworkInfo, number: usize) -> (lines: Vec<String>)
        requires
            network.received_bytes + network.transmitted_bytes <= u64::MAX,
        ensures
            texts(lines@) == interface_block(network@, number as nat),
    {
        let mut items: Vec<String> = Vec::new();
        assert(texts(items@) =~= Seq::empty());
        push_line(&mut items, block_heading_line("═══ Interface ", number));
        push_line(&mut items, labelled("Name:       ", network.interface_name.as_str()));
        push_line(&mut items, labelled_bytes("Received:   ", network.received_bytes));
        push_line(&mut items, labelled_bytes("Transmitted: ", network.transmitted_bytes));
        push_line(
            &mut items,
            labelled_bytes("Total:      ", network.received_bytes + network.transmitted_bytes),
        );
        push_line(&mut items, String::new());
        assert(texts(items@) =~= interface_block(network@, number as nat));
        items
    }

    /// The lines of the network panel.
    pub fn render_network(&self) -> (lines: Vec<String>)
        requires
            self@.system_info.networks_wf(),
        ensures
            texts(lines@) == network_lines(self@.system_info),
    {
        let info = self.system_info();
        let ghost view = self@.system_info;
        let mut items: Vec<String> = Vec::new();
        assert(texts(items@) =~= Seq::empty());
        push_line(&mut items, String::from_str("═══ Network Details ═══"));
        push_line(&mut items, probe_line("Local IP:   ", &info.network_details.local_ip));
        push_line(&mut items, probe_line("Public IP:  ", &info.network_details.public_ip));
        push_line(&mut items, bandwidth_line("Bandwidth:  ", &info.network_details.bandwidth_mbps));
        push_line(&mut items, String::new());
        push_line(&mut items, String::from_str("Network Interfaces:"));
        push_line(&mut items, String::new());
        let ghost head = texts(items@);
        assert(head =~= details_lines(view));
        assert(texts(items@) =~= head + interface_blocks(view.networks, 0));
        let mut idx: usize = 0;
        while idx < info.networks.len()
            invariant
                idx <= info.networks.len(),
                info@ == view,
                view.networks_wf(),
                texts(items@) == head + interface_blocks(view.networks, idx as nat),
            decreases info.networks.len() - idx,
        {
            let network = &info.networks[idx];
            assert(network@ == view.networks[idx as int]);
            let block = Self::render_interface(network, idx + 1);
            push_lines(&mut items, block);
            idx += 1;
            assert(texts(items@) =~= head + interface_blocks(view.networks, idx as nat));
        }
        if info.networks.len() == 0 {
            push_line(&mut items, String::from_str("No network interfaces found."));
        }
        items
    }

    /// Tells whether the snapshot on display has what the panel of the
    /// selected tab needs of it.
    pub fn can_render(&self) -> (r: bool)
        ensures
            r == panel_wf(self@.current_tab, self@.system_info),
    {
        let info = self.system_info();
        match self.current_tab() {
            Tab::Overview => info.memory_is_consistent(),
            Tab::Memory => info.memory_is_consistent() && info.swap_is_consistent(),
            Tab::Disks => info.disks_are_consistent(),
            Tab::Network => info.networks_are_consistent(),
        }
    }

    /// The frame that shows the state: the title bar with the selected tab
    /// between brackets, the panel of that tab, and the status message.
    pub fn ui(&self) -> (screen: Screen)
        requires
            panel_wf(self@.current_tab, self@.system_info),
        ensures
            screen@ == screen_of(self@),
    {
        let tab = self.current_tab();
        let mut title = String::from_str("🖥️  System Index - ");
        push_tab_label(&mut title, Tab::Overview, tab);
        title.append(" | ");
        push_tab_label(&mut title, Tab::Memory, tab);
        title.append(" | ");
        push_tab_label(&mut title, Tab::Disks, tab);
        title.append(" | ");
        push_tab_label(&mut title, Tab::Network, tab);
        let panel: &'static str = match tab {
            Tab::Overview => "System Overview",
            Tab::Memory => "Memory Details",
            Tab::Disks => "Disk Information",
            Tab::Network => "Network Information",
        };
        let items: Vec<String> = match tab {
            Tab::Overview => self.render_overview(),
            Tab::Memory => self.render_memory(),
            Tab::Disks => self.render_disks(),
            Tab::Network => self.render_network(),
        };
        let ghost wanted = screen_of(self@).lines;
        let mut lines: Vec<Line> = Vec::new();
        let mut i: usize = 0;
        while i < items.len()
            invariant
                i <= items.len(),
                texts(items@) == panel_texts(tab, self@.system_info),
                tab == self@.current_tab,
                wanted == screen_of(self@).lines,
                lines@.map_values(|l: Line| l@) == wanted.take(i as int),
            decreases items.len() - i,
        {
            let text = items[i].clone();
            assert(text@ == texts(items@)[i as int]);
            let heading = match tab {
                Tab::Overview => false,
                _ => starts_with_rule(text.as_str()),
            };
            let line = Line { text, heading };
            assert(wanted[i as int] == line@);
            let ghost before = lines@.map_values(|l: Line| l@);
            lines.push(line);
            i += 1;
            assert(lines@.map_values(|l: Line| l@) =~= before.push(line@));
            assert(wanted.take(i as int) =~= before.push(line@));
        }
        assert(wanted.take(i as int) =~= wanted);
        Screen {
            title,
            panel_title: String::from_str(panel),
            lines,
            status: String::from_str(self.status_message()),
        }
    }
}

/// A frame shows the latest snapshot and nothing of an earlier one: after a
/// refresh the panel is made of the new snapshot alone, and a key press
/// changes the tab and the status message at most, never the snapshot that
/// the frame shows.
pub proof fn lemma_screen_shows_latest_snapshot(
    state: AppView,
    system_info: SystemInfoView,
    now: nat,
    key: Key,
)
    ensures
        screen_of(state_after_refresh(state, system_info, now)) == (ScreenView {
            lines: panel_texts(state.current_tab, system_info).map_values(
                |text: Seq<char>| LineView { text, heading: is_heading(state.current_tab, text) },
            ),
            ..screen_of(state)
        }),
        screen_of(state_after_key(state, key)) == screen_of(
            AppView {
                current_tab: state_after_key(state, key).current_tab,
                status_message: state_after_key(state, key).status_message,
                ..state
            },
        ),
{
}

} // verus!
