//! Styling: the fixed texts of the program and their ANSI-styled forms.
//!
//! Whether a terminal takes colours is decided outside this crate, by the
//! `colored` crate and the environment it reads. A [`Theme`] holds the texts
//! as they came back from it, so that everything rendered from one theme is a
//! function of that theme alone.

use colored::Colorize;
use vstd::prelude::*;

use crate::selection::Section;

verus! {

/// The foreground colours that the program uses.
#[derive(Clone, Copy, Debug, PartialEq, Eq, Structural)]
pub enum Tint {
    Red,
    Green,
    Yellow,
    Blue,
    Cyan,
}

/// The banner: the program's name in large letters.
pub const BANNER: &'static str =
    " ____  _____ _____ _  __    _    ____   ___   ___\n|  _ \\| ____| ____| |/ /   / \\  | __ ) / _ \\ / _ \\\n| |_) |  _| |  _| | ' /   / _ \\ |  _ \\| | | | | | |\n|  __/| |___| |___| . \\  / ___ \\| |_) | |_| | |_| |\n|_|   |_____|_____|_|\\_\\/_/   \\_\\____/ \\___/ \\___/";

/// First part of the heading under the banner; it opens with a line break.
pub const HEADING_LEAD: &'static str = "\n----------------- A";

/// Middle part of the heading under the banner.
pub const HEADING_TITLE: &'static str = "System Monitoring";

/// Last part of the heading under the banner.
pub const HEADING_TAIL: &'static str = "CLI Tool -----------------";

/// Header of the identity section.
pub const SYSINFO_HEADER: &'static str = "System Information:";

/// Header of the CPU section.
pub const CPU_HEADER: &'static str = "CPU Usage:";

/// Header of the memory section.
pub const MEMORY_HEADER: &'static str = "Memory Usage:";

/// Header of the disk section.
pub const DISK_HEADER: &'static str = "Disk Usage:";

/// Header of the network section.
pub const NETWORK_HEADER: &'static str = "Network Usage:";

/// Label of the operating system's name.
pub const OS_NAME_LABEL: &'static str = "System Name";

/// Label of the kernel's version.
pub const KERNEL_VERSION_LABEL: &'static str = "System kernel version";

/// Label of the operating system's version.
pub const OS_VERSION_LABEL: &'static str = "System OS version";

/// Label of the host's name.
pub const HOST_NAME_LABEL: &'static str = "System host name";

/// The escape character that opens every ANSI sequence.
pub open spec fn escape() -> char {
    '\x1b'
}

/// The ANSI parameter of a foreground colour.
pub open spec fn tint_code(tint: Tint) -> Seq<char> {
    match tint {
        Tint::Red => seq!['3', '1'],
        Tint::Green => seq!['3', '2'],
        Tint::Yellow => seq!['3', '3'],
        Tint::Blue => seq!['3', '4'],
        Tint::Cyan => seq!['3', '6'],
    }
}

/// The ANSI parameter of bold text.
pub open spec fn bold_code() -> Seq<char> {
    seq!['1']
}

/// The ANSI parameters of bold text in a foreground colour.
pub open spec fn bold_tint_code(tint: Tint) -> Seq<char> {
    seq!['1', ';'] + tint_code(tint)
}

/// The sequence that switches the given parameters on.
pub open spec fn ansi_open(codes: Seq<char>) -> Seq<char> {
    seq![escape(), '['] + codes + seq!['m']
}

/// The sequence that switches all styling off.
pub open spec fn ansi_reset() -> Seq<char> {
    seq![escape(), '[', '0', 'm']
}

/// Whether a text holds no escape character, and so no ANSI sequence.
pub open spec fn free_of_escapes(text: Seq<char>) -> bool {
    forall|i: int| 0 <= i < text.len() ==> text[i] != escape()
}

/// Whether `out` is `text` in one of its two forms: left plain, or enclosed
/// in the sequence that switches `codes` on and the one that resets.
pub open spec fn painted(out: Seq<char>, text: Seq<char>, codes: Seq<char>) -> bool {
    out == text || out == ansi_open(codes) + text + ansi_reset()
}

/// Calls `colored`'s `Colorize::bold` on `text` and renders the result with
/// `ColoredString`'s `Display`.
///
/// Trusted: for a text without escape characters, `colored` writes the text
/// unchanged where it finds colours switched off, and otherwise between
/// `ESC[1m` and `ESC[0m`. Which of the two depends on the environment.
#[verifier::external_body]
fn paint_bold(text: &str) -> (out: String)
    ensures
        free_of_escapes(text@) ==> painted(out@, text@, bold_code()),
{
    text.bold().to_string()
}

/// Calls `colored`'s `Colorize::color` on `text` and renders the result with
/// `ColoredString`'s `Display`.
///
/// Trusted: for a text without escape characters, `colored` writes the text
/// unchanged where it finds colours switched off, and otherwise between
/// `ESC[<colour>m` and `ESC[0m`, the colour's parameter being 31 for red, 32
/// for green, 33 for yellow, 34 for blue and 36 for cyan.
#[verifier::external_body]
fn paint_tinted(text: &str, tint: Tint) -> (out: String)
    ensures
        free_of_escapes(text@) ==> painted(out@, text@, tint_code(tint)),
{
    let color = match tint {
        Tint::Red => colored::Color::Red,
        Tint::Green => colored::Color::Green,
        Tint::Yellow => colored::Color::Yellow,
        Tint::Blue => colored::Color::Blue,
        Tint::Cyan => colored::Color::Cyan,
    };
    text.color(color).to_string()
}

/// Calls `colored`'s `Colorize::color` and `Colorize::bold` on `text` and
/// renders the result with `ColoredString`'s `Display`.
///
/// Trusted: for a text without escape characters, `colored` writes the text
/// unchanged where it finds colours switched off, and otherwise between
/// `ESC[1;<colour>m` and `ESC[0m`, whichever of the two was applied first.
#[verifier::external_body]
fn paint_bold_tinted(text: &str, tint: Tint) -> (out: String)
    ensures
        free_of_escapes(text@) ==> painted(out@, text@, bold_tint_code(tint)),
{
    let color = match tint {
        Tint::Red => colored::Color::Red,
        Tint::Green => colored::Color::Green,
        Tint::Yellow => colored::Color::Yellow,
        Tint::Blue => colored::Color::Blue,
        Tint::Cyan => colored::Color::Cyan,
    };
    text.color(color).bold().to_string()
}

/// The colour of a section's header.
pub open spec fn header_tint(section: Section) -> Tint {
    match section {
        Section::SysInfo => Tint::Red,
        Section::Cpu => Tint::Blue,
        Section::Memory => Tint::Cyan,
        Section::Disk => Tint::Green,
        Section::Network => Tint::Yellow,
    }
}

/// The plain text of a section's header.
pub open spec fn header_text(section: Section) -> Seq<char> {
    match section {
        Section::SysInfo => SYSINFO_HEADER@,
        Section::Cpu => CPU_HEADER@,
        Section::Memory => MEMORY_HEADER@,
        Section::Disk => DISK_HEADER@,
        Section::Network => NETWORK_HEADER@,
    }
}

/// The fixed texts of the program, each as it is to be written to the
/// terminal.
#[derive(Clone, Debug, PartialEq, Eq)]
pub struct Theme {
    pub banner: String,
    pub heading_lead: String,
    pub heading_title: String,
    pub heading_tail: String,
    pub sysinfo_header: String,
    pub cpu_header: String,
    pub memory_header: String,
    pub disk_header: String,
    pub network_header: String,
    pub os_name_label: String,
    pub kernel_version_label: String,
    pub os_version_label: String,
    pub host_name_label: String,
}

/// Mathematical model of a [`Theme`].
pub ghost struct ThemeView {
    pub banner: Seq<char>,
    pub heading_lead: Seq<char>,
    pub heading_title: Seq<char>,
    pub heading_tail: Seq<char>,
    pub sysinfo_header: Seq<char>,
    pub cpu_header: Seq<char>,
    pub memory_header: Seq<char>,
    pub disk_header: Seq<char>,
    pub network_header: Seq<char>,
    pub os_name_label: Seq<char>,
    pub kernel_version_label: Seq<char>,
    pub os_version_label: Seq<char>,
    pub host_name_label: Seq<char>,
}

impl View for Theme {
    type V = ThemeView;

    open spec fn view(&self) -> ThemeView {
        ThemeView {
            banner: self.banner@,
            heading_lead: self.heading_lead@,
            heading_title: self.heading_title@,
            heading_tail: self.heading_tail@,
            sysinfo_header: self.sysinfo_header@,
            cpu_header: self.cpu_header@,
            memory_header: self.memory_header@,
            disk_header: self.disk_header@,
            network_header: self.network_header@,
            os_name_label: self.os_name_label@,
            kernel_version_label: self.kernel_version_label@,
            os_version_label: self.os_version_label@,
            host_name_label: self.host_name_label@,
        }
    }
}

impl ThemeView {
    /// The theme without any styling.
    pub open spec fn plain() -> ThemeView {
        ThemeView {
            banner: BANNER@,
            heading_lead: HEADING_LEAD@,
            heading_title: HEADING_TITLE@,
            heading_tail: HEADING_TAIL@,
            sysinfo_header: SYSINFO_HEADER@,
            cpu_header: CPU_HEADER@,
            memory_header: MEMORY_HEADER@,
            disk_header: DISK_HEADER@,
            network_header: NETWORK_HEADER@,
            os_name_label: OS_NAME_LABEL@,
            kernel_version_label: KERNEL_VERSION_LABEL@,
            os_version_label: OS_VERSION_LABEL@,
            host_name_label: HOST_NAME_LABEL@,
        }
    }

    /// The header of a section as the theme holds it.
    pub open spec fn header(self, section: Section) -> Seq<char> {
        match section {
            Section::SysInfo => self.sysinfo_header,
            Section::Cpu => self.cpu_header,
            Section::Memory => self.memory_header,
            Section::Disk => self.disk_header,
            Section::Network => self.network_header,
        }
    }

    /// Every text is the program's own, plain or in its style: the banner
    /// cyan, the heading bold with a yellow title, each header bold in its
    /// section's colour, each label bold.
    pub open spec fn well_formed(self) -> bool {
        &&& painted(self.banner, BANNER@, tint_code(Tint::Cyan))
        &&& painted(self.heading_lead, HEADING_LEAD@, bold_code())
        &&& painted(self.heading_title, HEADING_TITLE@, bold_tint_code(Tint::Yellow))
        &&& painted(self.heading_tail, HEADING_TAIL@, bold_code())
        &&& forall|s: Section|
            painted(#[trigger] self.header(s), header_text(s), bold_tint_code(header_tint(s)))
        &&& painted(self.os_name_label, OS_NAME_LABEL@, bold_code())
        &&& painted(self.kernel_version_label, KERNEL_VERSION_LABEL@, bold_code())
        &&& painted(self.os_version_label, OS_VERSION_LABEL@, bold_code())
        &&& painted(self.host_name_label, HOST_NAME_LABEL@, bold_code())
    }
}

/// None of the program's fixed texts holds an escape character.
pub proof fn lemma_texts_free_of_escapes()
    ensures
        free_of_escapes(BANNER@),
        free_of_escapes(HEADING_LEAD@),
        free_of_escapes(HEADING_TITLE@),
        free_of_escapes(HEADING_TAIL@),
        forall|s: Section| free_of_escapes(#[trigger] header_text(s)),
        free_of_escapes(OS_NAME_LABEL@),
        free_of_escapes(KERNEL_VERSION_LABEL@),
        free_of_escapes(OS_VERSION_LABEL@),
        free_of_escapes(HOST_NAME_LABEL@),
{
    reveal_strlit(
        " ____  _____ _____ _  __    _    ____   ___   ___\n|  _ \\| ____| ____| |/ /   / \\  | __ ) / _ \\ / _ \\\n| |_) |  _| |  _| | ' /   / _ \\ |  _ \\| | | | | | |\n|  __/| |___| |___| . \\  / ___ \\| |_) | |_| | |_| |\n|_|   |_____|_____|_|\\_\\/_/   \\_\\____/ \\___/ \\___/",
    );
    reveal_strlit("\n----------------- A");
    reveal_strlit("System Monitoring");
    reveal_strlit("CLI Tool -----------------");
    reveal_strlit("System Information:");
    reveal_strlit("CPU Usage:");
    reveal_strlit("Memory Usage:");
    reveal_strlit("Disk Usage:");
    reveal_strlit("Network Usage:");
    reveal_strlit("System Name");
    reveal_strlit("System kernel version");
    reveal_strlit("System OS version");
    reveal_strlit("System host name");
}

impl Theme {
    /// The theme without any styling: every text as the program spells it.
    pub fn plain() -> (theme: Theme)
        ensures
            theme@ == ThemeView::plain(),
            theme@.well_formed(),
    {
        Theme {
            banner: String::from_str(BANNER),
            heading_lead: String::from_str(HEADING_LEAD),
            heading_title: String::from_str(HEADING_TITLE),
            heading_tail: String::from_str(HEADING_TAIL),
            sysinfo_header: String::from_str(SYSINFO_HEADER),
            cpu_header: String::from_str(CPU_HEADER),
            memory_header: String::from_str(MEMORY_HEADER),
            disk_header: String::from_str(DISK_HEADER),
            network_header: String::from_str(NETWORK_HEADER),
            os_name_label: String::from_str(OS_NAME_LABEL),
            kernel_version_label: String::from_str(KERNEL_VERSION_LABEL),
            os_version_label: String::from_str(OS_VERSION_LABEL),
            host_name_label: String::from_str(HOST_NAME_LABEL),
        }
    }

    /// The theme for the terminal at hand: every text styled where the
    /// terminal takes colours, and plain where it does not.
    pub fn for_terminal() -> (theme: Theme)
        ensures
            theme@.well_formed(),
    {
        proof {
            lemma_texts_free_of_escapes();
            assert(header_text(Section::SysInfo) == SYSINFO_HEADER@);
            assert(header_text(Section::Cpu) == CPU_HEADER@);
            assert(header_text(Section::Memory) == MEMORY_HEADER@);
            assert(header_text(Section::Disk) == DISK_HEADER@);
            assert(header_text(Section::Network) == NETWORK_HEADER@);
        }
        Theme {
            banner: paint_tinted(BANNER, Tint::Cyan),
            heading_lead: paint_bold(HEADING_LEAD),
            heading_title: paint_bold_tinted(HEADING_TITLE, Tint::Yellow),
            heading_tail: paint_bold(HEADING_TAIL),
            sysinfo_header: paint_bold_tinted(SYSINFO_HEADER, Tint::Red),
            cpu_header: paint_bold_tinted(CPU_HEADER, Tint::Blue),
            memory_header: paint_bold_tinted(MEMORY_HEADER, Tint::Cyan),
            disk_header: paint_bold_tinted(DISK_HEADER, Tint::Green),
            network_header: paint_bold_tinted(NETWORK_HEADER, Tint::Yellow),
            os_name_label: paint_bold(OS_NAME_LABEL),
            kernel_version_label: paint_bold(KERNEL_VERSION_LABEL),
            os_version_label: paint_bold(OS_VERSION_LABEL),
            host_name_label: paint_bold(HOST_NAME_LABEL),
        }
    }

    /// The header of a section as the theme holds it.
    pub fn header(&self, section: Section) -> (text: &str)
        ensures
            text@ == self@.header(section),
    {
        match section {
            Section::SysInfo => self.sysinfo_header.as_str(),
            Section::Cpu => self.cpu_header.as_str(),
            Section::Memory => self.memory_header.as_str(),
            Section::Disk => self.disk_header.as_str(),
            Section::Network => self.network_header.as_str(),
        }
    }
}

} // verus!
