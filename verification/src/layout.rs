//! Layout laws: what holds of the rendered text whatever the snapshot, the
//! selection and the theme.

use vstd::prelude::*;

use crate::render::{
    cpu_items, cpu_line, disk_items, disk_line, identity_line, memory_items, memory_line,
    net_items, net_line, prelude_text, report_text, section_items, section_part, section_text,
    set_apart, sysinfo_items, BYTES_SUFFIX, FREE_PREFIX, GB_AVAILABLE_SUFFIX, GB_SUFFIX, LINE_BREAK,
    MONITORING_SUFFIX, OUT_OF, PERCENT_SUFFIX, SEPARATOR, TIP,
};
use crate::selection::{lemma_ordered_unfold, pick, FlagsView, Section, Selection};
use crate::snapshot::{CpuView, DiskView, NetView, SnapshotView};
use crate::style::{
    ansi_open, ansi_reset, bold_tint_code, escape, header_text, header_tint, painted, ThemeView,
};
use crate::units::{decimal, gib, BYTES_PER_GIB};

verus! {

/// The line break as a character.
pub open spec fn line_break() -> char {
    '\n'
}

/// Whether a text ends with a line that is not blank: its last character is
/// a line break and the one before is not.
pub open spec fn ends_with_line(text: Seq<char>) -> bool {
    &&& text.len() >= 2
    &&& text[text.len() - 1] == line_break()
    &&& text[text.len() - 2] != line_break()
}

/// Whether a text is empty or ends with a line that is not blank.
pub open spec fn empty_or_ends_with_line(text: Seq<char>) -> bool {
    text.len() == 0 || ends_with_line(text)
}

/// Whether a text ends with exactly one blank line: a line that is not
/// blank, then a single line break.
pub open spec fn ends_with_one_blank_line(text: Seq<char>) -> bool {
    &&& text.len() >= 3
    &&& text[text.len() - 1] == line_break()
    &&& text[text.len() - 2] == line_break()
    &&& text[text.len() - 3] != line_break()
}

/// The identity value that is rendered last, if any is present.
pub open spec fn last_identity_value(snapshot: SnapshotView) -> Option<Seq<char>> {
    if snapshot.host_name is Some {
        snapshot.host_name
    } else if snapshot.os_version is Some {
        snapshot.os_version
    } else if snapshot.kernel_version is Some {
        snapshot.kernel_version
    } else {
        snapshot.os_name
    }
}

/// Whether the identity value that is rendered last does not itself end with
/// a line break.
pub open spec fn identity_ends_in_text(snapshot: SnapshotView) -> bool {
    match last_identity_value(snapshot) {
        Some(v) => v.len() == 0 || v.last() != line_break(),
        None => true,
    }
}

/// What the report holds before the text of `section`: the parts of the
/// sections that come earlier in the fixed order.
pub open spec fn report_before(
    selection: Selection,
    section: Section,
    snapshot: SnapshotView,
    theme: ThemeView,
) -> Seq<char> {
    let sysinfo = section_part(selection, Section::SysInfo, snapshot, theme);
    let cpu = section_part(selection, Section::Cpu, snapshot, theme);
    let memory = section_part(selection, Section::Memory, snapshot, theme);
    let disk = section_part(selection, Section::Disk, snapshot, theme);
    match section {
        Section::SysInfo => Seq::empty(),
        Section::Cpu => sysinfo,
        Section::Memory => sysinfo + cpu,
        Section::Disk => sysinfo + cpu + memory,
        Section::Network => sysinfo + cpu + memory + disk,
    }
}

/// What the report holds after the text of `section`: the parts of the
/// sections that come later in the fixed order, and the closing line break.
pub open spec fn report_after(
    selection: Selection,
    section: Section,
    snapshot: SnapshotView,
    theme: ThemeView,
) -> Seq<char> {
    let cpu = section_part(selection, Section::Cpu, snapshot, theme);
    let memory = section_part(selection, Section::Memory, snapshot, theme);
    let disk = section_part(selection, Section::Disk, snapshot, theme);
    let network = section_part(selection, Section::Network, snapshot, theme);
    match section {
        Section::SysInfo => cpu + memory + disk + network + LINE_BREAK@,
        Section::Cpu => memory + disk + network + LINE_BREAK@,
        Section::Memory => disk + network + LINE_BREAK@,
        Section::Disk => network + LINE_BREAK@,
        Section::Network => LINE_BREAK@,
    }
}

/// The texts of a list of sections, one after the other.
pub open spec fn sections_text(
    sections: Seq<Section>,
    snapshot: SnapshotView,
    theme: ThemeView,
) -> Seq<char>
    decreases sections.len(),
{
    if sections.len() == 0 {
        Seq::empty()
    } else {
        sections_text(sections.drop_last(), snapshot, theme) + section_text(
            sections.last(),
            snapshot,
            theme,
        )
    }
}

/// How the fixed pieces of the item lines end and begin.
proof fn lemma_fixed_pieces()
    ensures
        LINE_BREAK@ == seq![line_break()],
        PERCENT_SUFFIX@.len() == 2 && PERCENT_SUFFIX@.last() == '%',
        GB_SUFFIX@.len() == 3 && GB_SUFFIX@.last() == 'B',
        GB_AVAILABLE_SUFFIX@.len() == 13 && GB_AVAILABLE_SUFFIX@.last() == 'e',
        BYTES_SUFFIX@.len() == 6 && BYTES_SUFFIX@.last() == 's',
        SEPARATOR@.len() == 2 && SEPARATOR@.last() == ' ',
        ends_with_line(MONITORING_SUFFIX@),
        ends_with_line(TIP@),
{
    reveal_strlit("\n");
    reveal_strlit(" %");
    reveal_strlit(" GB");
    reveal_strlit(" GB available");
    reveal_strlit(" bytes");
    reveal_strlit(": ");
    reveal_strlit("'s System...\n");
    reveal_strlit(
        "\nTip - Peekaboo can remember your name for personalised outputs! Just run 'peek --name YOUR_NAME'.\n",
    );
    assert(LINE_BREAK@ =~= seq![line_break()]);
}

/// A well-formed theme's headers are not empty and neither begin nor end
/// with a line break.
pub proof fn lemma_header_edges(theme: ThemeView, section: Section)
    requires
        theme.well_formed(),
    ensures
        theme.header(section).len() > 0,
        theme.header(section)[0] != line_break(),
        theme.header(section).last() != line_break(),
{
    reveal_strlit("System Information:");
    reveal_strlit("CPU Usage:");
    reveal_strlit("Memory Usage:");
    reveal_strlit("Disk Usage:");
    reveal_strlit("Network Usage:");
    let header = theme.header(section);
    let text = header_text(section);
    let codes = bold_tint_code(header_tint(section));
    assert(painted(header, text, codes));
    assert(text.len() > 0 && text[0] != line_break() && text.last() != line_break());
    if header != text {
        let styled = ansi_open(codes) + text + ansi_reset();
        assert(header == styled);
        assert(styled[0] == escape());
        assert(styled.last() == 'm');
    }
}

/// Appending to a text that ends with a line one that is empty or ends with
/// a line gives a text that ends with a line.
proof fn lemma_ends_with_line_append(a: Seq<char>, b: Seq<char>)
    requires
        ends_with_line(a),
        empty_or_ends_with_line(b),
    ensures
        ends_with_line(a + b),
{
    if b.len() == 0 {
        assert(a + b =~= a);
    }
}

/// The lines of the CPUs are empty or end with a line.
pub proof fn lemma_cpu_items_end(cpus: Seq<CpuView>)
    ensures
        empty_or_ends_with_line(cpu_items(cpus)),
        cpus.len() == 0 <==> cpu_items(cpus).len() == 0,
{
    lemma_fixed_pieces();
    if cpus.len() > 0 {
        let line = cpu_line(cpus.last());
        assert(line.last() == '%');
    }
}

/// The lines of the disks are empty or end with a line.
pub proof fn lemma_disk_items_end(disks: Seq<DiskView>)
    ensures
        empty_or_ends_with_line(disk_items(disks)),
        disks.len() == 0 <==> disk_items(disks).len() == 0,
{
    lemma_fixed_pieces();
    if disks.len() > 0 {
        let line = disk_line(disks.last());
        assert(line.last() == 'e');
    }
}

/// The lines of the interfaces are empty or end with a line.
pub proof fn lemma_net_items_end(nets: Seq<NetView>)
    ensures
        empty_or_ends_with_line(net_items(nets)),
        nets.len() == 0 <==> net_items(nets).len() == 0,
{
    lemma_fixed_pieces();
    if nets.len() > 0 {
        let line = net_line(nets.last());
        assert(line.last() == 's');
    }
}

/// The identity lines are empty or end with a line, unless the value that is
/// rendered last ends with a line break of its own.
pub proof fn lemma_sysinfo_items_end(snapshot: SnapshotView, theme: ThemeView)
    requires
        identity_ends_in_text(snapshot),
    ensures
        empty_or_ends_with_line(sysinfo_items(snapshot, theme)),
{
    lemma_fixed_pieces();
    let a = identity_line(theme.os_name_label, snapshot.os_name);
    let b = identity_line(theme.kernel_version_label, snapshot.kernel_version);
    let c = identity_line(theme.os_version_label, snapshot.os_version);
    let d = identity_line(theme.host_name_label, snapshot.host_name);
    if snapshot.host_name is Some {
        lemma_identity_line_end(theme.host_name_label, snapshot.host_name->0);
    } else if snapshot.os_version is Some {
        lemma_identity_line_end(theme.os_version_label, snapshot.os_version->0);
        assert(a + b + c + d =~= a + b + c);
    } else if snapshot.kernel_version is Some {
        lemma_identity_line_end(theme.kernel_version_label, snapshot.kernel_version->0);
        assert(a + b + c + d =~= a + b);
    } else if snapshot.os_name is Some {
        lemma_identity_line_end(theme.os_name_label, snapshot.os_name->0);
        assert(a + b + c + d =~= a);
    } else {
        assert(a + b + c + d =~= Seq::<char>::empty());
    }
}

/// An identity line ends with a line unless its value ends with a line break.
proof fn lemma_identity_line_end(label: Seq<char>, value: Seq<char>)
    requires
        value.len() == 0 || value.last() != line_break(),
    ensures
        ends_with_line(identity_line(label, Some(value))),
{
    lemma_fixed_pieces();
    let line = label + SEPARATOR@ + value;
    assert(line.last() != line_break());
    assert(identity_line(label, Some(value)) =~= line + LINE_BREAK@);
}

/// Every section ends with a line that is not blank, be it its header or
/// its last item.
pub proof fn lemma_section_ends_with_line(
    section: Section,
    snapshot: SnapshotView,
    theme: ThemeView,
)
    requires
        theme.well_formed(),
        section == Section::SysInfo ==> identity_ends_in_text(snapshot),
    ensures
        ends_with_line(section_text(section, snapshot, theme)),
{
    lemma_fixed_pieces();
    lemma_header_edges(theme, section);
    let head = LINE_BREAK@ + theme.header(section) + LINE_BREAK@;
    assert(ends_with_line(head));
    match section {
        Section::SysInfo => lemma_sysinfo_items_end(snapshot, theme),
        Section::Cpu => lemma_cpu_items_end(snapshot.cpus),
        Section::Memory => {
            let items = memory_items(snapshot.memory);
            assert(memory_line(FREE_PREFIX@, snapshot.memory.free_bytes).last() == 'B');
            assert(ends_with_line(items));
        },
        Section::Disk => lemma_disk_items_end(snapshot.disks),
        Section::Network => lemma_net_items_end(snapshot.networks),
    }
    let items = section_items(section, snapshot, theme);
    if items.len() > 0 {
        assert(ends_with_line(LINE_BREAK@ + items));
    }
    lemma_ends_with_line_append(head, set_apart(items));
}

/// What is printed before the report ends with a line that is not blank,
/// whatever the name.
pub proof fn lemma_prelude_ends_with_line(name: Option<Seq<char>>, theme: ThemeView)
    ensures
        ends_with_line(prelude_text(name, theme)),
{
    lemma_fixed_pieces();
}

/// The report is the text before a selected section, the section, and the
/// text after it.
pub proof fn lemma_report_split(
    selection: Selection,
    section: Section,
    snapshot: SnapshotView,
    theme: ThemeView,
)
    requires
        selection.spec_contains(section),
    ensures
        report_text(selection, snapshot, theme) == report_before(
            selection,
            section,
            snapshot,
            theme,
        ) + section_text(section, snapshot, theme) + report_after(
            selection,
            section,
            snapshot,
            theme,
        ),
{
    lemma_regroup(
        section_part(selection, Section::SysInfo, snapshot, theme),
        section_part(selection, Section::Cpu, snapshot, theme),
        section_part(selection, Section::Memory, snapshot, theme),
        section_part(selection, Section::Disk, snapshot, theme),
        section_part(selection, Section::Network, snapshot, theme),
        LINE_BREAK@,
    );
}

/// Six texts in a row may be cut before and after any of the first five.
proof fn lemma_regroup(
    a: Seq<char>,
    b: Seq<char>,
    c: Seq<char>,
    d: Seq<char>,
    e: Seq<char>,
    z: Seq<char>,
)
    ensures
        a + b + c + d + e + z == Seq::<char>::empty() + a + (b + c + d + e + z),
        a + b + c + d + e + z == a + b + (c + d + e + z),
        a + b + c + d + e + z == a + b + c + (d + e + z),
        a + b + c + d + e + z == a + b + c + d + (e + z),
{
    assert(a + b + c + d + e + z =~= Seq::<char>::empty() + a + (b + c + d + e + z));
    assert(a + b + c + d + e + z =~= a + b + (c + d + e + z));
    assert(a + b + c + d + e + z =~= a + b + c + (d + e + z));
    assert(a + b + c + d + e + z =~= a + b + c + d + (e + z));
}

/// Where a header stands in a text that holds it after a line break.
proof fn lemma_locate_header(
    prelude: Seq<char>,
    inner: Seq<char>,
    header: Seq<char>,
    rest: Seq<char>,
    after: Seq<char>,
)
    ensures
        ({
            let brk = seq![line_break()];
            let before = prelude + inner;
            let output = prelude + (inner + (brk + header + brk + rest) + after);
            &&& before.len() + 1 + header.len() <= output.len()
            &&& output.subrange(0, before.len() as int) == before
            &&& output[before.len() as int] == line_break()
            &&& output.subrange(
                before.len() as int + 1,
                before.len() as int + 1 + header.len(),
            ) == header
        }),
{
    let brk = seq![line_break()];
    let before = prelude + inner;
    let output = prelude + (inner + (brk + header + brk + rest) + after);
    assert(output.subrange(0, before.len() as int) =~= before);
    assert(output.subrange(before.len() as int + 1, before.len() as int + 1 + header.len())
        =~= header);
}

/// What the report holds before a section is empty or ends with a line that
/// is not blank.
pub proof fn lemma_report_before_ends(
    selection: Selection,
    section: Section,
    snapshot: SnapshotView,
    theme: ThemeView,
)
    requires
        theme.well_formed(),
        selection.sysinfo ==> identity_ends_in_text(snapshot),
    ensures
        empty_or_ends_with_line(report_before(selection, section, snapshot, theme)),
{
    let sysinfo = section_part(selection, Section::SysInfo, snapshot, theme);
    let cpu = section_part(selection, Section::Cpu, snapshot, theme);
    let memory = section_part(selection, Section::Memory, snapshot, theme);
    let disk = section_part(selection, Section::Disk, snapshot, theme);
    if selection.sysinfo {
        lemma_section_ends_with_line(Section::SysInfo, snapshot, theme);
    }
    if selection.cpu {
        lemma_section_ends_with_line(Section::Cpu, snapshot, theme);
    }
    if selection.memory {
        lemma_section_ends_with_line(Section::Memory, snapshot, theme);
    }
    if selection.disk {
        lemma_section_ends_with_line(Section::Disk, snapshot, theme);
    }
    lemma_empty_or_line_append(sysinfo, cpu);
    lemma_empty_or_line_append(sysinfo + cpu, memory);
    lemma_empty_or_line_append(sysinfo + cpu + memory, disk);
}

/// Two texts that are each empty or end with a line give, one after the
/// other, a text that is empty or ends with a line.
proof fn lemma_empty_or_line_append(a: Seq<char>, b: Seq<char>)
    requires
        empty_or_ends_with_line(a),
        empty_or_ends_with_line(b),
    ensures
        empty_or_ends_with_line(a + b),
{
    if a.len() == 0 {
        assert(a + b =~= b);
    } else {
        lemma_ends_with_line_append(a, b);
    }
}

/// Exactly one blank line stands before the header of every section that is
/// rendered: in the output of a run, the text before the section ends with a
/// line that is not blank, then come one line break and the header, which
/// does not begin with a line break itself.
///
/// The one input left out is an identity value that ends with a line break
/// and is rendered last in its section: it brings a blank line of its own.
pub proof fn lemma_one_blank_line_before_header(
    name: Option<Seq<char>>,
    selection: Selection,
    section: Section,
    snapshot: SnapshotView,
    theme: ThemeView,
)
    requires
        theme.well_formed(),
        selection.spec_contains(section),
        selection.sysinfo ==> identity_ends_in_text(snapshot),
    ensures
        ({
            let before = prelude_text(name, theme) + report_before(
                selection,
                section,
                snapshot,
                theme,
            );
            let header = theme.header(section);
            let output = prelude_text(name, theme) + report_text(selection, snapshot, theme);
            &&& ends_with_line(before)
            &&& header.len() > 0
            &&& header[0] != line_break()
            &&& before.len() + 1 + header.len() <= output.len()
            &&& output.subrange(0, before.len() as int) == before
            &&& output[before.len() as int] == line_break()
            &&& output.subrange(
                before.len() as int + 1,
                before.len() as int + 1 + header.len(),
            ) == header
        }),
{
    let prelude = prelude_text(name, theme);
    let inner = report_before(selection, section, snapshot, theme);
    let before = prelude + inner;
    let header = theme.header(section);
    lemma_fixed_pieces();
    lemma_header_edges(theme, section);
    lemma_prelude_ends_with_line(name, theme);
    lemma_report_before_ends(selection, section, snapshot, theme);
    lemma_ends_with_line_append(prelude, inner);
    lemma_report_split(selection, section, snapshot, theme);
    lemma_locate_header(
        prelude,
        inner,
        header,
        set_apart(section_items(section, snapshot, theme)),
        report_after(selection, section, snapshot, theme),
    );
}

/// The output of a run ends with exactly one blank line, whichever sections
/// were rendered.
///
/// The one input left out is an identity value that ends with a line break
/// and is rendered last in its section.
pub proof fn lemma_one_trailing_blank_line(
    name: Option<Seq<char>>,
    selection: Selection,
    snapshot: SnapshotView,
    theme: ThemeView,
)
    requires
        theme.well_formed(),
        selection.sysinfo ==> identity_ends_in_text(snapshot),
    ensures
        ends_with_one_blank_line(
            prelude_text(name, theme) + report_text(selection, snapshot, theme),
        ),
{
    let prelude = prelude_text(name, theme);
    let sysinfo = section_part(selection, Section::SysInfo, snapshot, theme);
    let cpu = section_part(selection, Section::Cpu, snapshot, theme);
    let memory = section_part(selection, Section::Memory, snapshot, theme);
    let disk = section_part(selection, Section::Disk, snapshot, theme);
    let network = section_part(selection, Section::Network, snapshot, theme);
    lemma_fixed_pieces();
    lemma_prelude_ends_with_line(name, theme);
    lemma_report_before_ends(selection, Section::Network, snapshot, theme);
    if selection.network {
        lemma_section_ends_with_line(Section::Network, snapshot, theme);
    }
    lemma_empty_or_line_append(sysinfo + cpu + memory + disk, network);
    lemma_blank_line_after(prelude, sysinfo + cpu + memory + disk + network);
}

/// A line break after a text that ends with a line makes one blank line.
proof fn lemma_blank_line_after(prelude: Seq<char>, body: Seq<char>)
    requires
        ends_with_line(prelude),
        empty_or_ends_with_line(body),
    ensures
        ends_with_one_blank_line(prelude + (body + seq![line_break()])),
{
    lemma_ends_with_line_append(prelude, body);
    assert(prelude + (body + seq![line_break()]) =~= (prelude + body) + seq![line_break()]);
}

/// With no section flag, no show-all and no name, the report is a single
/// line break: the output is what greets the user and one blank line, and
/// holds no section.
pub proof fn lemma_no_flags_no_sections(
    flags: FlagsView,
    name: Option<Seq<char>>,
    snapshot: SnapshotView,
    theme: ThemeView,
)
    requires
        flags.name is None,
        !flags.showall,
        !flags.sysinfo,
        !flags.cpu,
        !flags.memory,
        !flags.disk,
        !flags.network,
    ensures
        Selection::spec_from_flags(flags).spec_is_empty(),
        report_text(Selection::spec_from_flags(flags), snapshot, theme) == LINE_BREAK@,
        prelude_text(name, theme) + report_text(
            Selection::spec_from_flags(flags),
            snapshot,
            theme,
        ) == prelude_text(name, theme) + LINE_BREAK@,
{
    assert(report_text(Selection::spec_from_flags(flags), snapshot, theme) =~= LINE_BREAK@);
}

/// The show-all shortcut renders exactly what the five section flags
/// together render from the same snapshot and theme.
pub proof fn lemma_showall_same_report(flags: FlagsView, snapshot: SnapshotView, theme: ThemeView)
    requires
        flags.name is None,
        flags.showall,
    ensures
        report_text(Selection::spec_from_flags(flags), snapshot, theme) == report_text(
            Selection::spec_from_flags(
                FlagsView {
                    showall: false,
                    sysinfo: true,
                    cpu: true,
                    memory: true,
                    disk: true,
                    network: true,
                    ..flags
                },
            ),
            snapshot,
            theme,
        ),
{
}

/// A section whose sequence is empty is rendered as its header alone: the
/// blank line, the header, and no item line.
pub proof fn lemma_empty_section_is_header_only(
    section: Section,
    snapshot: SnapshotView,
    theme: ThemeView,
)
    requires
        section == Section::Cpu ==> snapshot.cpus.len() == 0,
        section == Section::Disk ==> snapshot.disks.len() == 0,
        section == Section::Network ==> snapshot.networks.len() == 0,
        section == Section::SysInfo ==> snapshot.os_name is None && snapshot.kernel_version is None
            && snapshot.os_version is None && snapshot.host_name is None,
        section != Section::Memory,
    ensures
        section_text(section, snapshot, theme) == LINE_BREAK@ + theme.header(section)
            + LINE_BREAK@,
{
    assert(section_text(section, snapshot, theme) =~= LINE_BREAK@ + theme.header(section)
        + LINE_BREAK@);
}

/// The lines of two runs of CPUs, one after the other, are the lines of the
/// joined run: every CPU has its line at its place, whatever stands around
/// it.
pub proof fn lemma_cpu_items_append(a: Seq<CpuView>, b: Seq<CpuView>)
    ensures
        cpu_items(a + b) == cpu_items(a) + cpu_items(b),
    decreases b.len(),
{
    if b.len() == 0 {
        assert(a + b =~= a);
        assert(cpu_items(a) + cpu_items(b) =~= cpu_items(a));
    } else {
        lemma_cpu_items_append(a, b.drop_last());
        assert((a + b).drop_last() =~= a + b.drop_last());
        assert((a + b).last() == b.last());
        assert(cpu_items(a + b) =~= cpu_items(a) + cpu_items(b));
    }
}

/// The lines of two runs of disks, one after the other, are the lines of the
/// joined run.
pub proof fn lemma_disk_items_append(a: Seq<DiskView>, b: Seq<DiskView>)
    ensures
        disk_items(a + b) == disk_items(a) + disk_items(b),
    decreases b.len(),
{
    if b.len() == 0 {
        assert(a + b =~= a);
        assert(disk_items(a) + disk_items(b) =~= disk_items(a));
    } else {
        lemma_disk_items_append(a, b.drop_last());
        assert((a + b).drop_last() =~= a + b.drop_last());
        assert((a + b).last() == b.last());
        assert(disk_items(a + b) =~= disk_items(a) + disk_items(b));
    }
}

/// The lines of two runs of interfaces, one after the other, are the lines
/// of the joined run.
pub proof fn lemma_net_items_append(a: Seq<NetView>, b: Seq<NetView>)
    ensures
        net_items(a + b) == net_items(a) + net_items(b),
    decreases b.len(),
{
    if b.len() == 0 {
        assert(a + b =~= a);
        assert(net_items(a) + net_items(b) =~= net_items(a));
    } else {
        lemma_net_items_append(a, b.drop_last());
        assert((a + b).drop_last() =~= a + b.drop_last());
        assert((a + b).last() == b.last());
        assert(net_items(a + b) =~= net_items(a) + net_items(b));
    }
}

/// In a section that has items, exactly one blank line stands between the
/// header and the first item line.
pub proof fn lemma_items_set_apart(section: Section, snapshot: SnapshotView, theme: ThemeView)
    requires
        section_items(section, snapshot, theme).len() > 0,
    ensures
        section_text(section, snapshot, theme) == LINE_BREAK@ + theme.header(section)
            + LINE_BREAK@ + LINE_BREAK@ + section_items(section, snapshot, theme),
{
    assert(section_text(section, snapshot, theme) =~= LINE_BREAK@ + theme.header(section)
        + LINE_BREAK@ + LINE_BREAK@ + section_items(section, snapshot, theme));
}

/// A disk that holds less than one gibibyte is rendered with `0 / 0`.
pub proof fn lemma_small_disk_is_zero(disk: DiskView)
    requires
        disk.well_formed(),
        disk.total_bytes < BYTES_PER_GIB,
    ensures
        disk_line(disk) == disk.name + SEPARATOR@ + seq!['0'] + OUT_OF@ + seq!['0']
            + GB_AVAILABLE_SUFFIX@,
{
    assert(gib(disk.total_bytes) == 0);
    assert(gib(disk.available_bytes) == 0);
    assert(decimal(0) =~= seq!['0']);
}

/// The texts of two lists of sections, one after the other, are the texts of
/// the joined list.
pub proof fn lemma_sections_text_append(
    a: Seq<Section>,
    b: Seq<Section>,
    snapshot: SnapshotView,
    theme: ThemeView,
)
    ensures
        sections_text(a + b, snapshot, theme) == sections_text(a, snapshot, theme) + sections_text(
            b,
            snapshot,
            theme,
        ),
    decreases b.len(),
{
    if b.len() == 0 {
        assert(a + b =~= a);
        assert(sections_text(a, snapshot, theme) + sections_text(b, snapshot, theme)
            =~= sections_text(a, snapshot, theme));
    } else {
        lemma_sections_text_append(a, b.drop_last(), snapshot, theme);
        assert((a + b).drop_last() =~= a + b.drop_last());
        assert((a + b).last() == b.last());
        assert(sections_text(a + b, snapshot, theme) =~= sections_text(a, snapshot, theme)
            + sections_text(b, snapshot, theme));
    }
}

/// The report holds the selected sections in the fixed order, each once, and
/// nothing for a section that is not selected.
pub proof fn lemma_report_follows_order(
    selection: Selection,
    snapshot: SnapshotView,
    theme: ThemeView,
)
    ensures
        report_text(selection, snapshot, theme) == sections_text(
            selection.ordered(),
            snapshot,
            theme,
        ) + LINE_BREAK@,
{
    lemma_ordered_unfold(selection);
    let p1 = pick(selection.sysinfo, Section::SysInfo);
    let p2 = pick(selection.cpu, Section::Cpu);
    let p3 = pick(selection.memory, Section::Memory);
    let p4 = pick(selection.disk, Section::Disk);
    let p5 = pick(selection.network, Section::Network);
    lemma_pick_text(selection, Section::SysInfo, snapshot, theme);
    lemma_pick_text(selection, Section::Cpu, snapshot, theme);
    lemma_pick_text(selection, Section::Memory, snapshot, theme);
    lemma_pick_text(selection, Section::Disk, snapshot, theme);
    lemma_pick_text(selection, Section::Network, snapshot, theme);
    lemma_sections_text_append(p1, p2, snapshot, theme);
    lemma_sections_text_append(p1 + p2, p3, snapshot, theme);
    lemma_sections_text_append(p1 + p2 + p3, p4, snapshot, theme);
    lemma_sections_text_append(p1 + p2 + p3 + p4, p5, snapshot, theme);
}

/// The text of the list that holds a section if it is selected is the part
/// that the section contributes to the report.
proof fn lemma_pick_text(
    selection: Selection,
    section: Section,
    snapshot: SnapshotView,
    theme: ThemeView,
)
    ensures
        sections_text(pick(selection.spec_contains(section), section), snapshot, theme)
            == section_part(selection, section, snapshot, theme),
{
    let list = pick(selection.spec_contains(section), section);
    if selection.spec_contains(section) {
        assert(list.drop_last() =~= Seq::<Section>::empty());
        assert(sections_text(list.drop_last(), snapshot, theme) =~= Seq::<char>::empty());
        assert(sections_text(list, snapshot, theme) =~= section_text(section, snapshot, theme));
    }
}

} // verus!
