//! The reports of the one-shot commands: the lines that each command
//! prints of a snapshot.

use vstd::prelude::*;
use vstd::string::*;
use crate::format::{bytes_text, fixed2, push_fixed2, round_half_even, spec_round_half_even, uptime_text};
use crate::models::{
    DiskInfo, DiskInfoView, NetworkInfo, NetworkInfoView, SystemInfo, SystemInfoView,
};
use crate::render::{
    bandwidth_line, bandwidth_text, block_heading, block_heading_line, labelled, labelled_bytes,
    labelled_count, or_not_available, probe_line, push_line, push_lines, texts,
};
use crate::text::decimal;

verus! {

/// The share of `used` in `total`, in hundredths of a percent, rounded to
/// the nearest, ties to even; zero where there is nothing in all.
pub open spec fn spec_usage_centipercent(used: nat, total: nat) -> nat {
    if total == 0 {
        0
    } else {
        spec_round_half_even(used * 10000, total)
    }
}

/// The share of `used` in `total`, in hundredths of a percent.
pub fn usage_centipercent(used: u64, total: u64) -> (r: u128)
    ensures
        r == spec_usage_centipercent(used as nat, total as nat),
{
    if total > 0 {
        round_half_even((used as u128) * 10000, total as u128)
    } else {
        0
    }
}

/// A line that names an amount and its share with two decimals:
/// `Used Memory: 1.00 KB (50.00%)`.
pub open spec fn exact_share_text(label: Seq<char>, bytes: nat, centipercent: nat) -> Seq<char> {
    label + bytes_text(bytes) + " ("@ + fixed2(centipercent) + "%)"@
}

/// A line that names an amount and its share with two decimals.
pub fn exact_share_line(label: &str, bytes: u64, centipercent: u128) -> (r: String)
    ensures
        r@ == exact_share_text(label@, bytes as nat, centipercent as nat),
{
    let mut out = labelled_bytes(label, bytes);
    out.append(" (");
    push_fixed2(&mut out, centipercent);
    out.append("%)");
    out
}

/// The three lines of a banner around a title.
pub open spec fn banner(title: Seq<char>) -> Seq<Seq<char>> {
    seq![
        "╔═══════════════════════════════════════════════════════╗"@,
        title,
        "╚═══════════════════════════════════════════════════════╝"@,
        Seq::empty(),
    ]
}

/// Appends the banner around a title, and an empty line.
fn push_banner(lines: &mut Vec<String>, title: &str)
    ensures
        texts(final(lines)@) == texts(old(lines)@) + banner(title@),
{
    push_line(lines, String::from_str("╔═══════════════════════════════════════════════════════╗"));
    push_line(lines, String::from_str(title));
    push_line(lines, String::from_str("╚═══════════════════════════════════════════════════════╝"));
    push_line(lines, String::new());
    assert(texts(lines@) =~= texts(old(lines)@) + banner(title@));
}

/// The lines about a probe result in the overview: one line where there is
/// a result, none where there is none.
pub open spec fn optional_line(label: Seq<char>, value: Option<Seq<char>>) -> Seq<Seq<char>> {
    match value {
        Some(text) => seq![label + text],
        None => Seq::empty(),
    }
}

/// The report of the overview command.
pub open spec fn overview_report_lines(info: SystemInfoView) -> Seq<Seq<char>> {
    banner("║              SYSTEM OVERVIEW                          ║"@) + seq![
        "🖥️  Hostname:        "@ + info.hostname,
        "💻 Operating System: "@ + info.os_name + " "@ + info.os_version,
        "🔧 Kernel Version:   "@ + info.kernel_version,
        "⏰ System Uptime:    "@ + uptime_text(info.uptime),
        Seq::empty(),
        "⚙️  CPU:             "@ + info.cpu_brand,
        "📊 CPU Cores:        "@ + decimal(info.cpu_count),
        Seq::empty(),
        "💾 Total Memory:     "@ + bytes_text(info.total_memory),
        "📈 Used Memory:      "@ + bytes_text(info.used_memory),
        Seq::empty(),
        "💿 Mounted Disks:    "@ + decimal(info.disks.len()),
        "🌐 Network Interfaces: "@ + decimal(info.networks.len()),
    ] + optional_line("🏠 Local IP:         "@, info.network_details.local_ip) + optional_line(
        "🌍 Public IP:        "@,
        info.network_details.public_ip,
    ) + seq!["📋 Running Processes: "@ + decimal(info.processes_count)]
}

/// The report of the processor command.
pub open spec fn cpu_report_lines(info: SystemInfoView) -> Seq<Seq<char>> {
    banner("║              CPU INFORMATION                          ║"@) + seq![
        "⚙️  CPU Brand:       "@ + info.cpu_brand,
        "📊 Number of Cores:  "@ + decimal(info.cpu_count),
    ]
}

/// The swap that is free: what is left of the swap after what is used, and
/// nothing where more is used than there is.
pub open spec fn free_swap(info: SystemInfoView) -> nat {
    if info.used_swap <= info.total_swap {
        (info.total_swap - info.used_swap) as nat
    } else {
        0
    }
}

/// The report of the memory command.
pub open spec fn memory_report_lines(info: SystemInfoView) -> Seq<Seq<char>> {
    banner("║              MEMORY INFORMATION                       ║"@) + seq![
        "═══ RAM MEMORY ═══"@,
        "Total Memory:    "@ + bytes_text(info.total_memory),
        exact_share_text(
            "Used Memory:     "@,
            info.used_memory,
            spec_usage_centipercent(info.used_memory, info.total_memory),
        ),
        "Free Memory:     "@ + bytes_text((info.total_memory - info.used_memory) as nat),
        Seq::empty(),
        "═══ SWAP MEMORY ═══"@,
        "Total Swap:      "@ + bytes_text(info.total_swap),
        exact_share_text(
            "Used Swap:       "@,
            info.used_swap,
            spec_usage_centipercent(info.used_swap, info.total_swap),
        ),
        "Free Swap:       "@ + bytes_text(free_swap(info)),
    ]
}

/// The lines of one disk in the report, the `number`-th of the list.
pub open spec fn disk_report_block(disk: DiskInfoView, number: nat) -> Seq<Seq<char>> {
    let used = (disk.total_space - disk.available_space) as nat;
    seq![
        block_heading("═══ Disk "@, number),
        "Name:           "@ + disk.name,
        "Mount Point:    "@ + disk.mount_point,
        "File System:    "@ + disk.file_system,
        "Total Space:    "@ + bytes_text(disk.total_space),
        exact_share_text(
            "Used Space:     "@,
            used,
            spec_usage_centipercent(used, disk.total_space),
        ),
        "Available Space: "@ + bytes_text(disk.available_space),
        Seq::empty(),
    ]
}

/// The lines of the first `count` disks in the report.
pub open spec fn disk_report_blocks(disks: Seq<DiskInfoView>, count: nat) -> Seq<Seq<char>>
    decreases count,
{
    if count == 0 {
        Seq::empty()
    } else {
        disk_report_blocks(disks, (count - 1) as nat) + disk_report_block(disks[count - 1], count)
    }
}

/// The report of the disks command: every disk in turn, or a note that
/// nothing is known of the disks.
pub open spec fn disk_report_lines(info: SystemInfoView) -> Seq<Seq<char>> {
    let head = banner("║              DISK INFORMATION                         ║"@);
    if info.disks.len() == 0 {
        head.push("No disk information available."@)
    } else {
        head + disk_report_blocks(info.disks, info.disks.len())
    }
}

/// The lines of one interface in the report, the `number`-th of the list.
pub open spec fn interface_report_block(network: NetworkInfoView, number: nat) -> Seq<Seq<char>> {
    seq![
        "Interface "@ + decimal(number) + ": "@ + network.interface_name,
        "  Received:       "@ + bytes_text(network.received_bytes),
        "  Transmitted:    "@ + bytes_text(network.transmitted_bytes),
        "  Total:          "@ + bytes_text(network.received_bytes + network.transmitted_bytes),
        Seq::empty(),
    ]
}

/// The lines of the first `count` interfaces in the report.
pub open spec fn interface_report_blocks(networks: Seq<NetworkInfoView>, count: nat) -> Seq<
    Seq<char>,
>
    decreases count,
{
    if count == 0 {
        Seq::empty()
    } else {
        interface_report_blocks(networks, (count - 1) as nat) + interface_report_block(
            networks[count - 1],
            count,
        )
    }
}

/// The lines of the report that show the results of the network probes.
pub open spec fn details_report_lines(info: SystemInfoView) -> Seq<Seq<char>> {
    banner("║              NETWORK INFORMATION                      ║"@) + seq![
        "═══ NETWORK DETAILS ═══"@,
        "🏠 Local IP:        "@ + or_not_available(info.network_details.local_ip),
        "🌍 Public IP:       "@ + or_not_available(info.network_details.public_ip),
        "⚡ Bandwidth:       "@ + bandwidth_text(info.network_details.bandwidth_mbps),
        Seq::empty(),
    ]
}

/// The report of the network command: the results of the probes, then
/// every interface in turn, or a note that nothing is known of the
/// interfaces.
pub open spec fn network_report_lines(info: SystemInfoView) -> Seq<Seq<char>> {
    let head = details_report_lines(info);
    if info.networks.len() == 0 {
        head.push("No network interfaces available."@)
    } else {
        head.push("═══ NETWORK INTERFACES ═══"@) + interface_report_blocks(
            info.networks,
            info.networks.len(),
        )
    }
}

/// The report of the command that shows everything: the five reports, one
/// after the other, with an empty line between two of them.
pub open spec fn all_report_lines(info: SystemInfoView) -> Seq<Seq<char>> {
    overview_report_lines(info).push(Seq::empty()) + cpu_report_lines(info).push(Seq::empty())
        + memory_report_lines(info).push(Seq::empty()) + disk_report_lines(info).push(
        Seq::empty(),
    ) + network_report_lines(info)
}

/// Appends the line about a probe result in the overview, where there is a
/// result.
fn push_optional_line(lines: &mut Vec<String>, label: &str, value: &Option<String>)
    ensures
        texts(final(lines)@) == texts(old(lines)@) + optional_line(
            label@,
            crate::models::opt_text(*value),
        ),
{
    match value {
        Some(text) => {
            push_line(lines, labelled(label, text.as_str()));
        },
        None => {},
    }
    assert(texts(lines@) =~= texts(old(lines)@) + optional_line(
        label@,
        crate::models::opt_text(*value),
    ));
}

/// The report of the overview command: the identity of the host, its
/// processor and memory, the numbers of disks and interfaces, the local and
/// the public address where they are known, and the number of processes.
pub fn overview_report(info: &SystemInfo) -> (lines: Vec<String>)
    ensures
        texts(lines@) == overview_report_lines(info@),
{
    let mut items: Vec<String> = Vec::new();
    assert(texts(items@) =~= Seq::empty());
    push_banner(&mut items, "║              SYSTEM OVERVIEW                          ║");
    push_line(&mut items, labelled("🖥️  Hostname:        ", info.hostname.as_str()));
    let mut os = labelled("💻 Operating System: ", info.os_name.as_str());
    os.append(" ");
    os.append(info.os_version.as_str());
    push_line(&mut items, os);
    push_line(&mut items, labelled("🔧 Kernel Version:   ", info.kernel_version.as_str()));
    let uptime = SystemInfo::format_uptime(info.uptime);
    push_line(&mut items, labelled("⏰ System Uptime:    ", uptime.as_str()));
    push_line(&mut items, String::new());
    push_line(&mut items, labelled("⚙️  CPU:             ", info.cpu_brand.as_str()));
    push_line(&mut items, labelled_count("📊 CPU Cores:        ", info.cpu_count));
    push_line(&mut items, String::new());
    push_line(&mut items, labelled_bytes("💾 Total Memory:     ", info.total_memory));
    push_line(&mut items, labelled_bytes("📈 Used Memory:      ", info.used_memory));
    push_line(&mut items, String::new());
    push_line(&mut items, labelled_count("💿 Mounted Disks:    ", info.disks.len()));
    push_line(&mut items, labelled_count("🌐 Network Interfaces: ", info.networks.len()));
    push_optional_line(&mut items, "🏠 Local IP:         ", &info.network_details.local_ip);
    push_optional_line(&mut items, "🌍 Public IP:        ", &info.network_details.public_ip);
    push_line(&mut items, labelled_count("📋 Running Processes: ", info.processes_count));
    assert(texts(items@) =~= overview_report_lines(info@));
    items
}

/// The report of the processor command: the brand and the number of cores.
pub fn cpu_report(info: &SystemInfo) -> (lines: Vec<String>)
    ensures
        texts(lines@) == cpu_report_lines(info@),
{
    let mut items: Vec<String> = Vec::new();
    assert(texts(items@) =~= Seq::empty());
    push_banner(&mut items, "║              CPU INFORMATION                          ║");
    push_line(&mut items, labelled("⚙️  CPU Brand:       ", info.cpu_brand.as_str()));
    push_line(&mut items, labelled_count("📊 Number of Cores:  ", info.cpu_count));
    assert(texts(items@) =~= cpu_report_lines(info@));
    items
}

/// The report of the memory command: memory and swap, each with its total,
/// the used part with its share, and the free part.
pub fn memory_report(info: &SystemInfo) -> (lines: Vec<String>)
    requires
        info@.memory_wf(),
    ensures
        texts(lines@) == memory_report_lines(info@),
{
    let mem: u128 = usage_centipercent(info.used_memory, info.total_memory);
    let swap: u128 = usage_centipercent(info.used_swap, info.total_swap);
    let mut items: Vec<String> = Vec::new();
    assert(texts(items@) =~= Seq::empty());
    push_banner(&mut items, "║              MEMORY INFORMATION                       ║");
    push_line(&mut items, String::from_str("═══ RAM MEMORY ═══"));
    push_line(&mut items, labelled_bytes("Total Memory:    ", info.total_memory));
    push_line(&mut items, exact_share_line("Used Memory:     ", info.used_memory, mem));
    push_line(
        &mut items,
        labelled_bytes("Free Memory:     ", info.total_memory - info.used_memory),
    );
    push_line(&mut items, String::new());
    push_line(&mut items, String::from_str("═══ SWAP MEMORY ═══"));
    push_line(&mut items, labelled_bytes("Total Swap:      ", info.total_swap));
    push_line(&mut items, exact_share_line("Used Swap:       ", info.used_swap, swap));
    let free_swap: u64 = if info.used_swap <= info.total_swap {
        info.total_swap - info.used_swap
    } else {
        0
    };
    push_line(&mut items, labelled_bytes("Free Swap:       ", free_swap));
    assert(texts(items@) =~= memory_report_lines(info@));
    items
}

/// The lines of one disk in the report, the `number`-th of the list.
pub fn disk_report_entry(disk: &DiskInfo, number: usize) -> (lines: Vec<String>)
    requires
        disk.available_space <= disk.total_space,
    ensures
        texts(lines@) == disk_report_block(disk@, number as nat),
{
    let used_space: u64 = disk.total_space - disk.available_space;
    let share: u128 = usage_centipercent(used_space, disk.total_space);
    let mut items: Vec<String> = Vec::new();
    assert(texts(items@) =~= Seq::empty());
    push_line(&mut items, block_heading_line("═══ Disk ", number));
    push_line(&mut items, labelled("Name:           ", disk.name.as_str()));
    push_line(&mut items, labelled("Mount Point:    ", disk.mount_point.as_str()));
    push_line(&mut items, labelled("File System:    ", disk.file_system.as_str()));
    push_line(&mut items, labelled_bytes("Total Space:    ", disk.total_space));
    push_line(&mut items, exact_share_line("Used Space:     ", used_space, share));
    push_line(&mut items, labelled_bytes("Available Space: ", disk.available_space));
    push_line(&mut items, String::new());
    assert(texts(items@) =~= disk_report_block(disk@, number as nat));
    items
}

/// The report of the disks command.
pub fn disk_report(info: &SystemInfo) -> (lines: Vec<String>)
    requires
        info@.disks_wf(),
    ensures
        texts(lines@) == disk_report_lines(info@),
{
    let ghost view = info@;
    let mut items: Vec<String> = Vec::new();
    assert(texts(items@) =~= Seq::empty());
    push_banner(&mut items, "║              DISK INFORMATION                         ║");
    let ghost head = texts(items@);
    if info.disks.len() == 0 {
        push_line(&mut items, String::from_str("No disk information available."));
        return items;
    }
    assert(texts(items@) =~= head + disk_report_blocks(view.disks, 0));
    let mut idx: usize = 0;
    while idx < info.disks.len()
        invariant
            idx <= info.disks.len(),
            info@ == view,
            view.disks_wf(),
            texts(items@) == head + disk_report_blocks(view.disks, idx as nat),
        decreases info.disks.len() - idx,
    {
        let disk = &info.disks[idx];
        assert(disk@ == view.disks[idx as int]);
        let block = disk_report_entry(disk, idx + 1);
        push_lines(&mut items, block);
        idx += 1;
        assert(texts(items@) =~= head + disk_report_blocks(view.disks, idx as nat));
    }
    items
}

/// The first line of an interface in the report: its number and its name.
fn interface_title(number: usize, name: &str) -> (r: String)
    ensures
        r@ == "Interface "@ + decimal(number as nat) + ": "@ + name@,
{
    let mut out = labelled_count("Interface ", number);
    out.append(": ");
    out.append(name);
    out
}

/// The lines of one interface in the report, the `number`-th of the list.
pub fn interface_report_entry(network: &NetworkInfo, number: usize) -> (lines: Vec<String>)
    requires
        network.received_bytes + network.transmitted_bytes <= u64::MAX,
    ensures
        texts(lines@) == interface_report_block(network@, number as nat),
{
    let mut items: Vec<String> = Vec::new();
    assert(texts(items@) =~= Seq::empty());
    push_line(&mut items, interface_title(number, network.interface_name.as_str()));
    push_line(&mut items, labelled_bytes("  Received:       ", network.received_bytes));
    push_line(&mut items, labelled_bytes("  Transmitted:    ", network.transmitted_bytes));
    push_line(
        &mut items,
        labelled_bytes("  Total:          ", network.received_bytes + network.transmitted_bytes),
    );
    push_line(&mut items, String::new());
    assert(texts(items@) =~= interface_report_block(network@, number as nat));
    items
}

/// The report of the network command.
pub fn network_report(info: &SystemInfo) -> (lines: Vec<String>)
    requires
        info@.networks_wf(),
    ensures
        texts(lines@) == network_report_lines(info@),
{
    let ghost view = info@;
    let mut items: Vec<String> = Vec::new();
    assert(texts(items@) =~= Seq::empty());
    push_banner(&mut items, "║              NETWORK INFORMATION                      ║");
    push_line(&mut items, String::from_str("═══ NETWORK DETAILS ═══"));
    push_line(&mut items, probe_line("🏠 Local IP:        ", &info.network_details.local_ip));
    push_line(&mut items, probe_line("🌍 Public IP:       ", &info.network_details.public_ip));
    push_line(
        &mut items,
        bandwidth_line("⚡ Bandwidth:       ", &info.network_details.bandwidth_mbps),
    );
    push_line(&mut items, String::new());
    assert(texts(items@) =~= details_report_lines(view));
    if info.networks.len() == 0 {
        push_line(&mut items, String::from_str("No network interfaces available."));
        return items;
    }
    push_line(&mut items, String::from_str("═══ NETWORK INTERFACES ═══"));
    let ghost head = texts(items@);
    assert(texts(items@) =~= head + interface_report_blocks(view.networks, 0));
    let mut idx: usize = 0;
    while idx < info.networks.len()
        invariant
            idx <= info.networks.len(),
            info@ == view,
            view.networks_wf(),
            head == details_report_lines(view).push("═══ NETWORK INTERFACES ═══"@),
            texts(items@) == head + interface_report_blocks(view.networks, idx as nat),
        decreases info.networks.len() - idx,
    {
        let network = &info.networks[idx];
        assert(network@ == view.networks[idx as int]);
        let block = interface_report_entry(network, idx + 1);
        push_lines(&mut items, block);
        idx += 1;
        assert(texts(items@) =~= head + interface_report_blocks(view.networks, idx as nat));
    }
    items
}

/// The report of the command that shows everything.
pub fn all_report(info: &SystemInfo) -> (lines: Vec<String>)
    requires
        info@.memory_wf(),
        info@.disks_wf(),
        info@.networks_wf(),
    ensures
        texts(lines@) == all_report_lines(info@),
{
    let mut items: Vec<String> = overview_report(info);
    push_line(&mut items, String::new());
    push_lines(&mut items, cpu_report(info));
    push_line(&mut items, String::new());
    push_lines(&mut items, memory_report(info));
    push_line(&mut items, String::new());
    push_lines(&mut items, disk_report(info));
    push_line(&mut items, String::new());
    push_lines(&mut items, network_report(info));
    assert(texts(items@) =~= all_report_lines(info@));
    items
}

} // verus!
