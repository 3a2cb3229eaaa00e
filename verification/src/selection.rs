//! Selection: which sections one invocation renders, derived from its flags.

use vstd::prelude::*;

verus! {

/// The flags of one invocation, as the command line gave them.
#[derive(Clone, Debug, PartialEq, Eq)]
pub struct Flags {
    /// The name to remember; when given, nothing else is done.
    pub name: Option<String>,
    /// Shortcut that enables all five sections.
    pub showall: bool,
    pub sysinfo: bool,
    pub cpu: bool,
    pub memory: bool,
    pub disk: bool,
    pub network: bool,
}

/// Mathematical model of [`Flags`].
pub ghost struct FlagsView {
    pub name: Option<Seq<char>>,
    pub showall: bool,
    pub sysinfo: bool,
    pub cpu: bool,
    pub memory: bool,
    pub disk: bool,
    pub network: bool,
}

impl View for Flags {
    type V = FlagsView;

    open spec fn view(&self) -> FlagsView {
        FlagsView {
            name: match self.name {
                Some(n) => Some(n@),
                None => None,
            },
            showall: self.showall,
            sysinfo: self.sysinfo,
            cpu: self.cpu,
            memory: self.memory,
            disk: self.disk,
            network: self.network,
        }
    }
}

/// The kinds of section, in the order in which they are rendered.
#[derive(Clone, Copy, Debug, PartialEq, Eq, Structural)]
pub enum Section {
    SysInfo,
    Cpu,
    Memory,
    Disk,
    Network,
}

/// The set of sections to render.
#[derive(Clone, Copy, Debug, PartialEq, Eq, Structural)]
pub struct Selection {
    pub sysinfo: bool,
    pub cpu: bool,
    pub memory: bool,
    pub disk: bool,
    pub network: bool,
}

/// All sections, in rendering order.
pub open spec fn section_order() -> Seq<Section> {
    seq![Section::SysInfo, Section::Cpu, Section::Memory, Section::Disk, Section::Network]
}

impl Selection {
    /// The selection that renders nothing.
    pub open spec fn spec_none() -> Selection {
        Selection { sysinfo: false, cpu: false, memory: false, disk: false, network: false }
    }

    /// The selection that renders every section.
    pub open spec fn spec_all() -> Selection {
        Selection { sysinfo: true, cpu: true, memory: true, disk: true, network: true }
    }

    /// What the flags select: nothing when a name is to be remembered,
    /// everything under the show-all shortcut, else the sections flagged.
    pub open spec fn spec_from_flags(flags: FlagsView) -> Selection {
        if flags.name is Some {
            Selection::spec_none()
        } else if flags.showall {
            Selection::spec_all()
        } else {
            Selection {
                sysinfo: flags.sysinfo,
                cpu: flags.cpu,
                memory: flags.memory,
                disk: flags.disk,
                network: flags.network,
            }
        }
    }

    /// Whether the selection holds `section`.
    pub open spec fn spec_contains(self, section: Section) -> bool {
        match section {
            Section::SysInfo => self.sysinfo,
            Section::Cpu => self.cpu,
            Section::Memory => self.memory,
            Section::Disk => self.disk,
            Section::Network => self.network,
        }
    }

    /// The selection as a set of sections.
    pub open spec fn as_set(self) -> Set<Section> {
        Set::new(|s: Section| self.spec_contains(s))
    }

    /// The selected sections in rendering order.
    pub open spec fn ordered(self) -> Seq<Section> {
        section_order().filter(|s: Section| self.spec_contains(s))
    }

    /// Whether nothing is selected.
    pub open spec fn spec_is_empty(self) -> bool {
        self == Selection::spec_none()
    }

    /// The selection that renders nothing.
    pub fn none() -> (s: Selection)
        ensures
            s == Selection::spec_none(),
    {
        Selection { sysinfo: false, cpu: false, memory: false, disk: false, network: false }
    }

    /// The selection that renders every section.
    pub fn all() -> (s: Selection)
        ensures
            s == Selection::spec_all(),
    {
        Selection { sysinfo: true, cpu: true, memory: true, disk: true, network: true }
    }

    /// Derives the selection from the flags of an invocation.
    pub fn from_flags(flags: &Flags) -> (s: Selection)
        ensures
            s == Selection::spec_from_flags(flags@),
    {
        if flags.name.is_some() {
            Selection::none()
        } else if flags.showall {
            Selection::all()
        } else {
            Selection {
                sysinfo: flags.sysinfo,
                cpu: flags.cpu,
                memory: flags.memory,
                disk: flags.disk,
                network: flags.network,
            }
        }
    }

    /// Whether the selection holds `section`.
    pub fn contains(&self, section: Section) -> (held: bool)
        ensures
            held == self.spec_contains(section),
            held == self.as_set().contains(section),
    {
        match section {
            Section::SysInfo => self.sysinfo,
            Section::Cpu => self.cpu,
            Section::Memory => self.memory,
            Section::Disk => self.disk,
            Section::Network => self.network,
        }
    }

    /// Whether nothing is selected.
    pub fn is_empty(&self) -> (empty: bool)
        ensures
            empty == self.spec_is_empty(),
            empty == (self.ordered().len() == 0),
    {
        proof {
            lemma_ordered_members(*self);
        }
        !self.sysinfo && !self.cpu && !self.memory && !self.disk && !self.network
    }

    /// The selected sections in rendering order.
    pub fn sections(&self) -> (list: Vec<Section>)
        ensures
            list@ == self.ordered(),
    {
        let mut list: Vec<Section> = Vec::new();
        if self.sysinfo {
            list.push(Section::SysInfo);
        }
        if self.cpu {
            list.push(Section::Cpu);
        }
        if self.memory {
            list.push(Section::Memory);
        }
        if self.disk {
            list.push(Section::Disk);
        }
        if self.network {
            list.push(Section::Network);
        }
        proof {
            lemma_ordered_unfold(*self);
        }
        list
    }
}

/// The five optional pieces of which the ordered list is made.
pub open spec fn pick(held: bool, section: Section) -> Seq<Section> {
    if held {
        seq![section]
    } else {
        Seq::empty()
    }
}

/// The ordered list is the fixed order with the sections left out that are
/// not selected.
pub proof fn lemma_ordered_unfold(s: Selection)
    ensures
        s.ordered() == pick(s.sysinfo, Section::SysInfo) + pick(s.cpu, Section::Cpu) + pick(
            s.memory,
            Section::Memory,
        ) + pick(s.disk, Section::Disk) + pick(s.network, Section::Network),
{
    let keep = |x: Section| s.spec_contains(x);
    let o = section_order();
    reveal_with_fuel(Seq::filter, 6);
    assert(o.drop_last() =~= seq![Section::SysInfo, Section::Cpu, Section::Memory, Section::Disk]);
    assert(o.drop_last().drop_last() =~= seq![Section::SysInfo, Section::Cpu, Section::Memory]);
    assert(o.drop_last().drop_last().drop_last() =~= seq![Section::SysInfo, Section::Cpu]);
    assert(o.drop_last().drop_last().drop_last().drop_last() =~= seq![Section::SysInfo]);
    assert(o.drop_last().drop_last().drop_last().drop_last().drop_last() =~= Seq::<
        Section,
    >::empty());
    assert(o.filter(keep) =~= pick(s.sysinfo, Section::SysInfo) + pick(s.cpu, Section::Cpu) + pick(
        s.memory,
        Section::Memory,
    ) + pick(s.disk, Section::Disk) + pick(s.network, Section::Network));
}

/// The ordered list holds exactly the selected sections, each once, and is
/// empty only for the empty selection.
pub proof fn lemma_ordered_members(s: Selection)
    ensures
        forall|x: Section| s.ordered().contains(x) <==> s.spec_contains(x),
        s.ordered().no_duplicates(),
        s.ordered().len() == 0 <==> s.spec_is_empty(),
{
    lemma_ordered_unfold(s);
    let o = s.ordered();
    assert forall|x: Section| o.contains(x) <==> s.spec_contains(x) by {
        if s.spec_contains(x) {
            let before: int = match x {
                Section::SysInfo => 0,
                Section::Cpu => pick(s.sysinfo, Section::SysInfo).len() as int,
                Section::Memory => (pick(s.sysinfo, Section::SysInfo) + pick(
                    s.cpu,
                    Section::Cpu,
                )).len() as int,
                Section::Disk => (pick(s.sysinfo, Section::SysInfo) + pick(s.cpu, Section::Cpu)
                    + pick(s.memory, Section::Memory)).len() as int,
                Section::Network => (pick(s.sysinfo, Section::SysInfo) + pick(
                    s.cpu,
                    Section::Cpu,
                ) + pick(s.memory, Section::Memory) + pick(s.disk, Section::Disk)).len() as int,
            };
            assert(o[before] == x);
        }
    }
}

/// Under the show-all shortcut the selection is the same as with all five
/// section flags given, whatever the section flags were.
pub proof fn lemma_showall_selects_all(flags: FlagsView)
    requires
        flags.name is None,
        flags.showall,
    ensures
        Selection::spec_from_flags(flags) == Selection::spec_all(),
        Selection::spec_from_flags(flags) == Selection::spec_from_flags(
            FlagsView {
                showall: false,
                sysinfo: true,
                cpu: true,
                memory: true,
                disk: true,
                network: true,
                ..flags
            },
        ),
{
}

/// With a name to remember nothing is selected, whatever else is flagged.
pub proof fn lemma_name_selects_nothing(flags: FlagsView)
    requires
        flags.name is Some,
    ensures
        Selection::spec_from_flags(flags).spec_is_empty(),
        Selection::spec_from_flags(flags).ordered().len() == 0,
{
    lemma_ordered_members(Selection::spec_from_flags(flags));
}

} // verus!
