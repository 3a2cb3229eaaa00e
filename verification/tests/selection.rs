use peekaboo::selection::{Flags, Section, Selection};

fn flags(name: Option<&str>, showall: bool, s: bool, c: bool, m: bool, d: bool, n: bool) -> Flags {
    Flags {
        name: name.map(|x| x.to_string()),
        showall,
        sysinfo: s,
        cpu: c,
        memory: m,
        disk: d,
        network: n,
    }
}

#[test]
fn no_flags_select_nothing() {
    let selection = Selection::from_flags(&flags(None, false, false, false, false, false, false));
    assert_eq!(selection, Selection::none());
    assert!(selection.is_empty());
    assert_eq!(selection.sections(), vec![]);
}

#[test]
fn each_flag_selects_its_section() {
    let selection = Selection::from_flags(&flags(None, false, false, false, true, false, false));
    assert_eq!(selection.sections(), vec![Section::Memory]);
    assert!(selection.contains(Section::Memory));
    assert!(!selection.contains(Section::Cpu));
    assert!(!selection.is_empty());

    let selection = Selection::from_flags(&flags(None, false, true, false, false, false, true));
    assert_eq!(selection.sections(), vec![Section::SysInfo, Section::Network]);
}

#[test]
fn showall_selects_every_section() {
    let selection = Selection::from_flags(&flags(None, true, false, false, false, false, false));
    assert_eq!(selection, Selection::all());
    assert_eq!(
        selection.sections(),
        vec![Section::SysInfo, Section::Cpu, Section::Memory, Section::Disk, Section::Network]
    );
}

#[test]
fn showall_is_the_same_as_all_five_flags() {
    let shortcut = Selection::from_flags(&flags(None, true, false, true, false, false, false));
    let spelled = Selection::from_flags(&flags(None, false, true, true, true, true, true));
    assert_eq!(shortcut, spelled);
}

#[test]
fn a_name_selects_nothing_whatever_else_is_flagged() {
    let selection = Selection::from_flags(&flags(Some("Ada"), true, true, true, true, true, true));
    assert!(selection.is_empty());
    assert_eq!(selection.sections(), vec![]);
}

#[test]
fn sections_come_in_the_fixed_order() {
    let selection = Selection { sysinfo: false, cpu: true, memory: false, disk: true, network: true };
    assert_eq!(selection.sections(), vec![Section::Cpu, Section::Disk, Section::Network]);
}
