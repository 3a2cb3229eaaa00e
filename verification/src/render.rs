//! The renderer: the text of every section, of the report and of the lines
//! that greet the user.
//!
//! Memory and disk sizes are converted to whole gibibytes here and nowhere
//! else; network counters stay in bytes. Each section opens with a blank
//! line and its header; a blank line sets the header apart from the item
//! lines, where there are any; the report closes with one blank line.

use vstd::prelude::*;

use crate::selection::{Section, Selection};
use crate::snapshot::{
    cpu_views, disk_views, net_views, text_of, CpuSample, CpuView, DiskSample, DiskView,
    MemorySample, MemoryView, NetSample, NetView, Snapshot, SnapshotView,
};
use crate::style::{Theme, ThemeView};
use crate::units::{decimal, gib, percent, push_decimal, push_percent, whole_gib};

verus! {

/// What ends every line.
pub const LINE_BREAK: &'static str = "\n";

/// What stands between the parts of the heading.
pub const SPACE: &'static str = " ";

/// What stands between a name or label and its value.
pub const SEPARATOR: &'static str = ": ";

/// What follows a CPU's utilisation.
pub const PERCENT_SUFFIX: &'static str = " %";

/// What opens the line of the total memory.
pub const TOTAL_PREFIX: &'static str = "Total: ";

/// What opens the line of the used memory.
pub const USED_PREFIX: &'static str = "Used: ";

/// What opens the line of the free memory.
pub const FREE_PREFIX: &'static str = "Free: ";

/// What follows a memory size.
pub const GB_SUFFIX: &'static str = " GB";

/// What stands between a disk's available and total size.
pub const OUT_OF: &'static str = " / ";

/// What follows a disk's sizes.
pub const GB_AVAILABLE_SUFFIX: &'static str = " GB available";

/// What stands between an interface's name and the bytes it received.
pub const RECEIVED_INFIX: &'static str = ": received ";

/// What stands between the bytes received and the bytes transmitted.
pub const TRANSMITTED_INFIX: &'static str = " bytes, transmitted ";

/// What follows the bytes transmitted.
pub const BYTES_SUFFIX: &'static str = " bytes";

/// The welcome for a user whose name is not known.
pub const WELCOME: &'static str = "\n---------- Welcome to Peekaboo! ----------\n";

/// The hint that tells how to have the name remembered.
pub const TIP: &'static str =
    "\nTip - Peekaboo can remember your name for personalised outputs! Just run 'peek --name YOUR_NAME'.\n";

/// What stands before the user's name in the greeting.
pub const MONITORING_PREFIX: &'static str = "\nMonitoring ";

/// What stands after the user's name in the greeting.
pub const MONITORING_SUFFIX: &'static str = "'s System...\n";

/// What stands before the name once it has been remembered.
pub const SAVED_PREFIX: &'static str = "\nNice to meet you ";

/// What stands after the name once it has been remembered.
pub const SAVED_SUFFIX: &'static str = "!\n";

/// One identity line, `<label>: <value>`, or nothing where the host does not
/// tell the value.
pub open spec fn identity_line(label: Seq<char>, value: Option<Seq<char>>) -> Seq<char> {
    match value {
        Some(v) => label + SEPARATOR@ + v + LINE_BREAK@,
        None => Seq::empty(),
    }
}

/// The identity lines: system name, kernel version, OS version, host name.
pub open spec fn sysinfo_items(snapshot: SnapshotView, theme: ThemeView) -> Seq<char> {
    identity_line(theme.os_name_label, snapshot.os_name) + identity_line(
        theme.kernel_version_label,
        snapshot.kernel_version,
    ) + identity_line(theme.os_version_label, snapshot.os_version) + identity_line(
        theme.host_name_label,
        snapshot.host_name,
    )
}

/// The line of one CPU: `<name>: <usage> %`, the usage with two fractional
/// digits.
pub open spec fn cpu_line(cpu: CpuView) -> Seq<char> {
    cpu.name + SEPARATOR@ + percent(cpu.usage_hundredths) + PERCENT_SUFFIX@
}

/// The lines of all CPUs, in their order.
pub open spec fn cpu_items(cpus: Seq<CpuView>) -> Seq<char>
    decreases cpus.len(),
{
    if cpus.len() == 0 {
        Seq::empty()
    } else {
        cpu_items(cpus.drop_last()) + cpu_line(cpus.last()) + LINE_BREAK@
    }
}

/// One memory line: `<prefix><whole gibibytes> GB`.
pub open spec fn memory_line(prefix: Seq<char>, bytes: nat) -> Seq<char> {
    prefix + decimal(gib(bytes)) + GB_SUFFIX@
}

/// The three memory lines: total, used, free.
pub open spec fn memory_items(memory: MemoryView) -> Seq<char> {
    memory_line(TOTAL_PREFIX@, memory.total_bytes) + LINE_BREAK@ + memory_line(
        USED_PREFIX@,
        memory.used_bytes,
    ) + LINE_BREAK@ + memory_line(FREE_PREFIX@, memory.free_bytes) + LINE_BREAK@
}

/// The line of one disk: `<name>: <available> / <total> GB available`, both
/// in whole gibibytes.
pub open spec fn disk_line(disk: DiskView) -> Seq<char> {
    disk.name + SEPARATOR@ + decimal(gib(disk.available_bytes)) + OUT_OF@ + decimal(
        gib(disk.total_bytes),
    ) + GB_AVAILABLE_SUFFIX@
}

/// The lines of all disks, in their order.
pub open spec fn disk_items(disks: Seq<DiskView>) -> Seq<char>
    decreases disks.len(),
{
    if disks.len() == 0 {
        Seq::empty()
    } else {
        disk_items(disks.drop_last()) + disk_line(disks.last()) + LINE_BREAK@
    }
}

/// The line of one interface:
/// `<interface>: received <bytes> bytes, transmitted <bytes> bytes`.
pub open spec fn net_line(net: NetView) -> Seq<char> {
    net.interface_name + RECEIVED_INFIX@ + decimal(net.received_bytes) + TRANSMITTED_INFIX@
        + decimal(net.transmitted_bytes) + BYTES_SUFFIX@
}

/// The lines of all interfaces, in their order.
pub open spec fn net_items(nets: Seq<NetView>) -> Seq<char>
    decreases nets.len(),
{
    if nets.len() == 0 {
        Seq::empty()
    } else {
        net_items(nets.drop_last()) + net_line(nets.last()) + LINE_BREAK@
    }
}

/// The item lines of a section, each closed by a line break.
pub open spec fn section_items(
    section: Section,
    snapshot: SnapshotView,
    theme: ThemeView,
) -> Seq<char> {
    match section {
        Section::SysInfo => sysinfo_items(snapshot, theme),
        Section::Cpu => cpu_items(snapshot.cpus),
        Section::Memory => memory_items(snapshot.memory),
        Section::Disk => disk_items(snapshot.disks),
        Section::Network => net_items(snapshot.networks),
    }
}

/// The item lines as they follow a header: set apart by a blank line where
/// there are any, and nothing where there are none.
pub open spec fn set_apart(items: Seq<char>) -> Seq<char> {
    if items.len() == 0 {
        Seq::empty()
    } else {
        LINE_BREAK@ + items
    }
}

/// A section: a blank line, the header on a line of its own and, where the
/// section has items, a blank line and the item lines.
pub open spec fn section_text(
    section: Section,
    snapshot: SnapshotView,
    theme: ThemeView,
) -> Seq<char> {
    LINE_BREAK@ + theme.header(section) + LINE_BREAK@ + set_apart(
        section_items(section, snapshot, theme),
    )
}

/// The text that a section contributes: its own where it is selected, none
/// where it is not.
pub open spec fn section_part(
    selection: Selection,
    section: Section,
    snapshot: SnapshotView,
    theme: ThemeView,
) -> Seq<char> {
    if selection.spec_contains(section) {
        section_text(section, snapshot, theme)
    } else {
        Seq::empty()
    }
}

/// The report: the selected sections in their fixed order, then one blank
/// line.
pub open spec fn report_text(
    selection: Selection,
    snapshot: SnapshotView,
    theme: ThemeView,
) -> Seq<char> {
    section_part(selection, Section::SysInfo, snapshot, theme) + section_part(
        selection,
        Section::Cpu,
        snapshot,
        theme,
    ) + section_part(selection, Section::Memory, snapshot, theme) + section_part(
        selection,
        Section::Disk,
        snapshot,
        theme,
    ) + section_part(selection, Section::Network, snapshot, theme) + LINE_BREAK@
}

/// What greets a user whose name is known: the banner, the heading and the
/// line that names the user.
pub open spec fn greeting_text(name: Seq<char>, theme: ThemeView) -> Seq<char> {
    LINE_BREAK@ + theme.banner + LINE_BREAK@ + theme.heading_lead + SPACE@ + theme.heading_title
        + SPACE@ + theme.heading_tail + LINE_BREAK@ + MONITORING_PREFIX@ + name
        + MONITORING_SUFFIX@
}

/// What greets a user whose name is not known: the welcome and the hint.
pub open spec fn welcome_text() -> Seq<char> {
    WELCOME@ + TIP@
}

/// What is printed before the report.
pub open spec fn prelude_text(name: Option<Seq<char>>, theme: ThemeView) -> Seq<char> {
    match name {
        Some(n) => greeting_text(n, theme),
        None => welcome_text(),
    }
}

/// What is printed once a name has been remembered.
pub open spec fn saved_text(name: Seq<char>) -> Seq<char> {
    SAVED_PREFIX@ + name + SAVED_SUFFIX@
}

fn push_identity_line(out: &mut String, label: &str, value: &Option<String>)
    ensures
        final(out)@ == old(out)@ + identity_line(label@, text_of(*value)),
{
    match value {
        Some(v) => {
            out.append(label);
            out.append(SEPARATOR);
            out.append(v.as_str());
            out.append(LINE_BREAK);
            assert(out@ =~= old(out)@ + identity_line(label@, text_of(*value)));
        },
        None => {
            assert(out@ =~= old(out)@ + identity_line(label@, text_of(*value)));
        },
    }
}

fn push_sysinfo_items(out: &mut String, snapshot: &Snapshot, theme: &Theme)
    ensures
        final(out)@ == old(out)@ + sysinfo_items(snapshot@, theme@),
{
    push_identity_line(out, theme.os_name_label.as_str(), &snapshot.os_name);
    push_identity_line(out, theme.kernel_version_label.as_str(), &snapshot.kernel_version);
    push_identity_line(out, theme.os_version_label.as_str(), &snapshot.os_version);
    push_identity_line(out, theme.host_name_label.as_str(), &snapshot.host_name);
    assert(out@ =~= old(out)@ + sysinfo_items(snapshot@, theme@));
}

fn push_cpu_line(out: &mut String, cpu: &CpuSample)
    ensures
        final(out)@ == old(out)@ + cpu_line(cpu@),
{
    out.append(cpu.name.as_str());
    out.append(SEPARATOR);
    push_percent(out, cpu.usage_hundredths);
    out.append(PERCENT_SUFFIX);
    assert(out@ =~= old(out)@ + cpu_line(cpu@));
}

fn push_cpu_items(out: &mut String, cpus: &Vec<CpuSample>)
    ensures
        final(out)@ == old(out)@ + cpu_items(cpu_views(cpus@)),
{
    let ghost start = out@;
    let ghost views = cpu_views(cpus@);
    let mut i: usize = 0;
    assert(out@ =~= start + cpu_items(views.take(0)));
    while i < cpus.len()
        invariant
            i <= cpus.len(),
            views == cpu_views(cpus@),
            out@ == start + cpu_items(views.take(i as int)),
        decreases cpus.len() - i,
    {
        push_cpu_line(out, &cpus[i]);
        out.append(LINE_BREAK);
        proof {
            let next = views.take(i + 1);
            assert(next.drop_last() =~= views.take(i as int));
            assert(next.last() == cpus@[i as int]@);
            assert(out@ =~= start + cpu_items(next));
        }
        i += 1;
    }
    assert(views.take(i as int) =~= views);
}

fn push_memory_line(out: &mut String, prefix: &str, bytes: u64)
    ensures
        final(out)@ == old(out)@ + memory_line(prefix@, bytes as nat) + LINE_BREAK@,
{
    out.append(prefix);
    push_decimal(out, whole_gib(bytes));
    out.append(GB_SUFFIX);
    out.append(LINE_BREAK);
    assert(out@ =~= old(out)@ + memory_line(prefix@, bytes as nat) + LINE_BREAK@);
}

fn push_memory_items(out: &mut String, memory: &MemorySample)
    ensures
        final(out)@ == old(out)@ + memory_items(memory@),
{
    push_memory_line(out, TOTAL_PREFIX, memory.total_bytes);
    push_memory_line(out, USED_PREFIX, memory.used_bytes);
    push_memory_line(out, FREE_PREFIX, memory.free_bytes);
    assert(out@ =~= old(out)@ + memory_items(memory@));
}

fn push_disk_line(out: &mut String, disk: &DiskSample)
    ensures
        final(out)@ == old(out)@ + disk_line(disk@),
{
    out.append(disk.name.as_str());
    out.append(SEPARATOR);
    push_decimal(out, whole_gib(disk.available_bytes));
    out.append(OUT_OF);
    push_decimal(out, whole_gib(disk.total_bytes));
    out.append(GB_AVAILABLE_SUFFIX);
    assert(out@ =~= old(out)@ + disk_line(disk@));
}

fn push_disk_items(out: &mut String, disks: &Vec<DiskSample>)
    ensures
        final(out)@ == old(out)@ + disk_items(disk_views(disks@)),
{
    let ghost start = out@;
    let ghost views = disk_views(disks@);
    let mut i: usize = 0;
    assert(out@ =~= start + disk_items(views.take(0)));
    while i < disks.len()
        invariant
            i <= disks.len(),
            views == disk_views(disks@),
            out@ == start + disk_items(views.take(i as int)),
        decreases disks.len() - i,
    {
        push_disk_line(out, &disks[i]);
        out.append(LINE_BREAK);
        proof {
            let next = views.take(i + 1);
            assert(next.drop_last() =~= views.take(i as int));
            assert(next.last() == disks@[i as int]@);
            assert(out@ =~= start + disk_items(next));
        }
        i += 1;
    }
    assert(views.take(i as int) =~= views);
}

fn push_net_line(out: &mut String, net: &NetSample)
    ensures
        final(out)@ == old(out)@ + net_line(net@),
{
    out.append(net.interface_name.as_str());
    out.append(RECEIVED_INFIX);
    push_decimal(out, net.received_bytes);
    out.append(TRANSMITTED_INFIX);
    push_decimal(out, net.transmitted_bytes);
    out.append(BYTES_SUFFIX);
    assert(out@ =~= old(out)@ + net_line(net@));
}

fn push_net_items(out: &mut String, nets: &Vec<NetSample>)
    ensures
        final(out)@ == old(out)@ + net_items(net_views(nets@)),
{
    let ghost start = out@;
    let ghost views = net_views(nets@);
    let mut i: usize = 0;
    assert(out@ =~= start + net_items(views.take(0)));
    while i < nets.len()
        invariant
            i <= nets.len(),
            views == net_views(nets@),
            out@ == start + net_items(views.take(i as int)),
        decreases nets.len() - i,
    {
        push_net_line(out, &nets[i]);
        out.append(LINE_BREAK);
        proof {
            let next = views.take(i + 1);
            assert(next.drop_last() =~= views.take(i as int));
            assert(next.last() == nets@[i as int]@);
            assert(out@ =~= start + net_items(next));
        }
        i += 1;
    }
    assert(views.take(i as int) =~= views);
}

fn push_section(out: &mut String, section: Section, snapshot: &Snapshot, theme: &Theme)
    ensures
        final(out)@ == old(out)@ + section_text(section, snapshot@, theme@),
{
    let mut items = String::new();
    match section {
        Section::SysInfo => push_sysinfo_items(&mut items, snapshot, theme),
        Section::Cpu => push_cpu_items(&mut items, &snapshot.cpus),
        Section::Memory => push_memory_items(&mut items, &snapshot.memory),
        Section::Disk => push_disk_items(&mut items, &snapshot.disks),
        Section::Network => push_net_items(&mut items, &snapshot.networks),
    }
    assert(items@ =~= section_items(section, snapshot@, theme@));
    out.append(LINE_BREAK);
    out.append(theme.header(section));
    out.append(LINE_BREAK);
    if !items.as_str().is_empty() {
        out.append(LINE_BREAK);
        out.append(items.as_str());
    }
    assert(out@ =~= old(out)@ + section_text(section, snapshot@, theme@));
}

fn push_section_part(
    out: &mut String,
    selection: &Selection,
    section: Section,
    snapshot: &Snapshot,
    theme: &Theme,
)
    ensures
        final(out)@ == old(out)@ + section_part(*selection, section, snapshot@, theme@),
{
    if selection.contains(section) {
        push_section(out, section, snapshot, theme);
    } else {
        assert(out@ =~= old(out)@ + section_part(*selection, section, snapshot@, theme@));
    }
}

/// Renders the line of one CPU, without a line break.
pub fn render_cpu_line(cpu: &CpuSample) -> (text: String)
    ensures
        text@ == cpu_line(cpu@),
{
    let mut text = String::new();
    push_cpu_line(&mut text, cpu);
    assert(text@ =~= cpu_line(cpu@));
    text
}

/// Renders the line of one disk, without a line break.
pub fn render_disk_line(disk: &DiskSample) -> (text: String)
    ensures
        text@ == disk_line(disk@),
{
    let mut text = String::new();
    push_disk_line(&mut text, disk);
    assert(text@ =~= disk_line(disk@));
    text
}

/// Renders the line of one network interface, without a line break.
pub fn render_net_line(net: &NetSample) -> (text: String)
    ensures
        text@ == net_line(net@),
{
    let mut text = String::new();
    push_net_line(&mut text, net);
    assert(text@ =~= net_line(net@));
    text
}

/// Renders one section: a blank line, its header and, where the section has
/// items, a blank line and the item lines.
pub fn render_section(section: Section, snapshot: &Snapshot, theme: &Theme) -> (text: String)
    ensures
        text@ == section_text(section, snapshot@, theme@),
{
    let mut text = String::new();
    push_section(&mut text, section, snapshot, theme);
    assert(text@ =~= section_text(section, snapshot@, theme@));
    text
}

/// Renders the report: the selected sections in their fixed order, then one
/// blank line.
pub fn render_report(selection: &Selection, snapshot: &Snapshot, theme: &Theme) -> (text: String)
    ensures
        text@ == report_text(*selection, snapshot@, theme@),
{
    let mut text = String::new();
    push_section_part(&mut text, selection, Section::SysInfo, snapshot, theme);
    push_section_part(&mut text, selection, Section::Cpu, snapshot, theme);
    push_section_part(&mut text, selection, Section::Memory, snapshot, theme);
    push_section_part(&mut text, selection, Section::Disk, snapshot, theme);
    push_section_part(&mut text, selection, Section::Network, snapshot, theme);
    text.append(LINE_BREAK);
    assert(text@ =~= report_text(*selection, snapshot@, theme@));
    text
}

/// Renders what greets a user whose name is known.
pub fn render_greeting(name: &str, theme: &Theme) -> (text: String)
    ensures
        text@ == greeting_text(name@, theme@),
{
    let mut text = String::new();
    text.append(LINE_BREAK);
    text.append(theme.banner.as_str());
    text.append(LINE_BREAK);
    text.append(theme.heading_lead.as_str());
    text.append(SPACE);
    text.append(theme.heading_title.as_str());
    text.append(SPACE);
    text.append(theme.heading_tail.as_str());
    text.append(LINE_BREAK);
    text.append(MONITORING_PREFIX);
    text.append(name);
    text.append(MONITORING_SUFFIX);
    assert(text@ =~= greeting_text(name@, theme@));
    text
}

/// Renders what greets a user whose name is not known.
pub fn render_welcome() -> (text: String)
    ensures
        text@ == welcome_text(),
{
    let mut text = String::new();
    text.append(WELCOME);
    text.append(TIP);
    assert(text@ =~= welcome_text());
    text
}

/// Renders what is printed before the report: the greeting where a name is
/// known, the welcome where none is.
pub fn render_prelude(name: Option<&str>, theme: &Theme) -> (text: String)
    ensures
        text@ == prelude_text(
            match name {
                Some(n) => Some(n@),
                None => None,
            },
            theme@,
        ),
{
    match name {
        Some(n) => render_greeting(n, theme),
        None => render_welcome(),
    }
}

/// Renders what is printed once a name has been remembered.
pub fn render_saved(name: &str) -> (text: String)
    ensures
        text@ == saved_text(name@),
{
    let mut text = String::new();
    text.append(SAVED_PREFIX);
    text.append(name);
    text.append(SAVED_SUFFIX);
    assert(text@ =~= saved_text(name@));
    text
}

} // verus!
