use peekaboo::render::{
    render_cpu_line, render_disk_line, render_greeting, render_net_line, render_prelude,
    render_report, render_saved, render_section, render_welcome,
};
use peekaboo::selection::{Section, Selection};
use peekaboo::snapshot::{CpuSample, DiskSample, MemorySample, NetSample, Snapshot};
use peekaboo::style::{Theme, BANNER};

fn cpu(name: &str, usage_hundredths: u64) -> CpuSample {
    CpuSample { name: name.to_string(), usage_hundredths }
}

fn disk(name: &str, total_bytes: u64, available_bytes: u64) -> DiskSample {
    DiskSample { name: name.to_string(), total_bytes, available_bytes }
}

fn net(name: &str, received_bytes: u64, transmitted_bytes: u64) -> NetSample {
    NetSample { interface_name: name.to_string(), received_bytes, transmitted_bytes }
}

fn sample_snapshot() -> Snapshot {
    Snapshot {
        os_name: Some("Ubuntu".to_string()),
        kernel_version: Some("6.8.0".to_string()),
        os_version: None,
        host_name: Some("box".to_string()),
        cpus: vec![cpu("cpu0", 0), cpu("cpu1", 1234), cpu("cpu2", 10000)],
        memory: MemorySample {
            total_bytes: 17_179_869_184,
            used_bytes: 5_905_580_032,
            free_bytes: 3_221_225_471,
        },
        disks: vec![disk("sda1", 500_107_862_016, 123_456_789_012)],
        networks: vec![net("eth0", 123_456_789, 987_654_321), net("lo", 0, 0)],
    }
}

fn empty_snapshot() -> Snapshot {
    Snapshot {
        os_name: None,
        kernel_version: None,
        os_version: None,
        host_name: None,
        cpus: vec![],
        memory: MemorySample { total_bytes: 0, used_bytes: 0, free_bytes: 0 },
        disks: vec![],
        networks: vec![],
    }
}

const SYSINFO: &str =
    "\nSystem Information:\n\nSystem Name: Ubuntu\nSystem kernel version: 6.8.0\nSystem host name: box\n";
const CPU: &str = "\nCPU Usage:\n\ncpu0: 0.00 %\ncpu1: 12.34 %\ncpu2: 100.00 %\n";
const MEMORY: &str = "\nMemory Usage:\n\nTotal: 16 GB\nUsed: 5 GB\nFree: 2 GB\n";
const DISK: &str = "\nDisk Usage:\n\nsda1: 114 / 465 GB available\n";
const NETWORK: &str = "\nNetwork Usage:\n\neth0: received 123456789 bytes, transmitted 987654321 bytes\nlo: received 0 bytes, transmitted 0 bytes\n";

#[test]
fn each_section_renders_its_header_and_items() {
    let snapshot = sample_snapshot();
    let theme = Theme::plain();
    assert_eq!(render_section(Section::SysInfo, &snapshot, &theme), SYSINFO);
    assert_eq!(render_section(Section::Cpu, &snapshot, &theme), CPU);
    assert_eq!(render_section(Section::Memory, &snapshot, &theme), MEMORY);
    assert_eq!(render_section(Section::Disk, &snapshot, &theme), DISK);
    assert_eq!(render_section(Section::Network, &snapshot, &theme), NETWORK);
}

#[test]
fn report_of_all_sections_follows_the_fixed_order() {
    let text = render_report(&Selection::all(), &sample_snapshot(), &Theme::plain());
    assert_eq!(text, format!("{}{}{}{}{}\n", SYSINFO, CPU, MEMORY, DISK, NETWORK));
}

#[test]
fn report_leaves_out_what_is_not_selected() {
    let selection =
        Selection { sysinfo: false, cpu: true, memory: false, disk: false, network: true };
    let text = render_report(&selection, &sample_snapshot(), &Theme::plain());
    assert_eq!(text, format!("{}{}\n", CPU, NETWORK));
}

#[test]
fn report_of_nothing_is_one_blank_line() {
    let text = render_report(&Selection::none(), &sample_snapshot(), &Theme::plain());
    assert_eq!(text, "\n");
}

#[test]
fn memory_only_report() {
    let selection =
        Selection { sysinfo: false, cpu: false, memory: true, disk: false, network: false };
    let text = render_report(&selection, &sample_snapshot(), &Theme::plain());
    assert_eq!(text, "\nMemory Usage:\n\nTotal: 16 GB\nUsed: 5 GB\nFree: 2 GB\n\n");
}

#[test]
fn one_blank_line_before_each_header_and_one_at_the_end() {
    let selections = [
        Selection::all(),
        Selection { sysinfo: true, cpu: false, memory: false, disk: false, network: false },
        Selection { sysinfo: false, cpu: true, memory: true, disk: false, network: false },
        Selection { sysinfo: false, cpu: false, memory: false, disk: true, network: true },
    ];
    let headers =
        ["System Information:", "CPU Usage:", "Memory Usage:", "Disk Usage:", "Network Usage:"];
    for snapshot in [sample_snapshot(), empty_snapshot()] {
        for selection in selections {
            let mut output = render_welcome();
            output.push_str(&render_report(&selection, &snapshot, &Theme::plain()));
            let lines: Vec<&str> = output.split('\n').collect();
            for (i, line) in lines.iter().enumerate() {
                if headers.contains(line) {
                    assert!(i >= 2);
                    assert_eq!(lines[i - 1], "");
                    assert_ne!(lines[i - 2], "");
                }
            }
            assert!(output.ends_with("\n\n"));
            assert!(!output.ends_with("\n\n\n"));
        }
    }
}

#[test]
fn empty_sequences_render_the_header_alone() {
    let snapshot = empty_snapshot();
    let theme = Theme::plain();
    assert_eq!(render_section(Section::SysInfo, &snapshot, &theme), "\nSystem Information:\n");
    assert_eq!(render_section(Section::Cpu, &snapshot, &theme), "\nCPU Usage:\n");
    assert_eq!(render_section(Section::Disk, &snapshot, &theme), "\nDisk Usage:\n");
    assert_eq!(render_section(Section::Network, &snapshot, &theme), "\nNetwork Usage:\n");
    assert_eq!(
        render_report(&Selection::all(), &snapshot, &theme),
        "\nSystem Information:\n\nCPU Usage:\n\nMemory Usage:\n\nTotal: 0 GB\nUsed: 0 GB\nFree: 0 GB\n\nDisk Usage:\n\nNetwork Usage:\n\n"
    );
}

#[test]
fn absent_identity_strings_are_skipped() {
    let mut snapshot = empty_snapshot();
    snapshot.os_version = Some("24.04".to_string());
    assert_eq!(
        render_section(Section::SysInfo, &snapshot, &Theme::plain()),
        "\nSystem Information:\n\nSystem OS version: 24.04\n"
    );
    snapshot.os_name = Some("Ubuntu".to_string());
    snapshot.kernel_version = Some("6.8.0".to_string());
    snapshot.host_name = Some("box".to_string());
    assert_eq!(
        render_section(Section::SysInfo, &snapshot, &Theme::plain()),
        "\nSystem Information:\n\nSystem Name: Ubuntu\nSystem kernel version: 6.8.0\nSystem OS version: 24.04\nSystem host name: box\n"
    );
}

#[test]
fn idle_cpu_prints_zero_with_two_digits() {
    assert_eq!(render_cpu_line(&cpu("cpu0", 0)), "cpu0: 0.00 %");
    let mut snapshot = empty_snapshot();
    snapshot.cpus = vec![cpu("cpu0", 0)];
    assert_eq!(
        render_section(Section::Cpu, &snapshot, &Theme::plain()),
        "\nCPU Usage:\n\ncpu0: 0.00 %\n"
    );
}

#[test]
fn cpu_usage_has_two_fractional_digits() {
    assert_eq!(render_cpu_line(&cpu("cpu7", 7)), "cpu7: 0.07 %");
    assert_eq!(render_cpu_line(&cpu("cpu7", 4250)), "cpu7: 42.50 %");
    assert_eq!(render_cpu_line(&cpu("cpu7", 10000)), "cpu7: 100.00 %");
}

#[test]
fn cpus_keep_their_order() {
    let mut snapshot = empty_snapshot();
    snapshot.cpus = vec![cpu("b", 200), cpu("a", 100), cpu("c", 300)];
    assert_eq!(
        render_section(Section::Cpu, &snapshot, &Theme::plain()),
        "\nCPU Usage:\n\nb: 2.00 %\na: 1.00 %\nc: 3.00 %\n"
    );
}

#[test]
fn small_disk_prints_zero_of_zero() {
    assert_eq!(
        render_disk_line(&disk("boot", 1_073_741_823, 1_073_741_823)),
        "boot: 0 / 0 GB available"
    );
    assert_eq!(render_disk_line(&disk("tiny", 512, 0)), "tiny: 0 / 0 GB available");
}

#[test]
fn disk_sizes_are_rounded_down_to_gibibytes() {
    assert_eq!(
        render_disk_line(&disk("data", 2_147_483_648, 2_147_483_647)),
        "data: 1 / 2 GB available"
    );
    assert_eq!(
        render_disk_line(&disk("big", u64::MAX, u64::MAX)),
        "big: 17179869183 / 17179869183 GB available"
    );
}

#[test]
fn network_counters_are_printed_in_bytes() {
    assert_eq!(
        render_net_line(&net("wlan0", 1_073_741_824, 1_500)),
        "wlan0: received 1073741824 bytes, transmitted 1500 bytes"
    );
    assert_eq!(
        render_net_line(&net("eth1", u64::MAX, 1)),
        "eth1: received 18446744073709551615 bytes, transmitted 1 bytes"
    );
}

#[test]
fn welcome_names_the_program_and_the_flag() {
    let text = render_welcome();
    assert_eq!(
        text,
        "\n---------- Welcome to Peekaboo! ----------\n\nTip - Peekaboo can remember your name for personalised outputs! Just run 'peek --name YOUR_NAME'.\n"
    );
    assert!(text.contains("peek --name YOUR_NAME"));
}

#[test]
fn greeting_holds_banner_heading_and_name() {
    let text = render_greeting("Ada", &Theme::plain());
    assert_eq!(
        text,
        format!(
            "\n{}\n\n----------------- A System Monitoring CLI Tool -----------------\n\nMonitoring Ada's System...\n",
            BANNER
        )
    );
}

#[test]
fn prelude_depends_on_whether_a_name_is_known() {
    let theme = Theme::plain();
    assert_eq!(render_prelude(None, &theme), render_welcome());
    assert_eq!(render_prelude(Some("Ada"), &theme), render_greeting("Ada", &theme));
}

#[test]
fn saved_text_names_the_user() {
    assert_eq!(render_saved("Ada"), "\nNice to meet you Ada!\n");
    assert_eq!(render_saved(""), "\nNice to meet you !\n");
}

#[test]
fn snapshot_well_formedness() {
    assert!(sample_snapshot().is_well_formed());
    assert!(empty_snapshot().is_well_formed());

    let mut snapshot = sample_snapshot();
    snapshot.cpus.push(cpu("", 10));
    assert!(!snapshot.is_well_formed());

    let mut snapshot = sample_snapshot();
    snapshot.cpus.push(cpu("cpu3", 10001));
    assert!(!snapshot.is_well_formed());

    let mut snapshot = sample_snapshot();
    snapshot.memory = MemorySample { total_bytes: 10, used_bytes: 6, free_bytes: 5 };
    assert!(!snapshot.is_well_formed());
    snapshot.memory = MemorySample { total_bytes: 10, used_bytes: 6, free_bytes: 4 };
    assert!(snapshot.is_well_formed());
    snapshot.memory = MemorySample { total_bytes: 10, used_bytes: u64::MAX, free_bytes: 4 };
    assert!(!snapshot.is_well_formed());

    let mut snapshot = sample_snapshot();
    snapshot.disks.push(disk("odd", 10, 11));
    assert!(!snapshot.is_well_formed());
}
