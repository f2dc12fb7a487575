//! The report: a snapshot of machine facts, gathered once, and its lines.

use vstd::prelude::*;
use crate::decimal::{lemma_decimal_nonempty, two_digit_text, two_digits};
use crate::platform;
use crate::text::{
    cpu_summary, cpu_text, format_memory, format_os, format_storage, format_uptime,
    known_or_unknown, known_text, lemma_unknown_nonempty, memory_text, opt_text, os_text,
    shell_name, shell_text, storage_text, used_sum, trimmed, unknown, unknown_text, uptime_text,
    window_manager, window_manager_text,
};

verus! {

/// A local date and time to the minute.
pub struct Timestamp {
    pub year: i32,
    pub month: u32,
    pub day: u32,
    pub hour: u32,
    pub minute: u32,
}

impl Timestamp {
    /// Every field lies in its calendar or clock range.
    pub open spec fn wf(&self) -> bool {
        &&& 1 <= self.month <= 12
        &&& 1 <= self.day <= 31
        &&& self.hour <= 23
        &&& self.minute <= 59
    }

    /// `"MM/DD/YY HH:MM"`, where `YY` is the year modulo 100.
    pub open spec fn text(&self) -> Seq<char> {
        two_digit_text(self.month as nat) + "/"@ + two_digit_text(self.day as nat) + "/"@
            + two_digit_text(((self.year as int) % 100) as nat) + " "@ + two_digit_text(
            self.hour as nat,
        ) + ":"@ + two_digit_text(self.minute as nat)
    }

    /// Writes the timestamp as `"MM/DD/YY HH:MM"`.
    pub fn format(&self) -> (r: String)
        requires
            self.wf(),
        ensures
            r@ == self.text(),
    {
        let yy: u128 = if self.year >= 0 {
            (self.year as u128) % 100
        } else {
            let back: u128 = ((-(self.year as i64)) as u128) % 100;
            if back == 0 {
                0
            } else {
                100 - back
            }
        };
        assert(yy as int == (self.year as int) % 100);
        let mut r = two_digits(self.month as u128);
        r.append("/");
        let d = two_digits(self.day as u128);
        r.append(d.as_str());
        r.append("/");
        let y = two_digits(yy);
        r.append(y.as_str());
        r.append(" ");
        let h = two_digits(self.hour as u128);
        r.append(h.as_str());
        r.append(":");
        let m = two_digits(self.minute as u128);
        r.append(m.as_str());
        r
    }
}

/// The values of the environment variables the report reads: the user's
/// shell path, the desktop environment and its fallback session variable,
/// and the terminal type. `None` stands for an unset variable.
pub struct Environment {
    pub shell: Option<String>,
    pub desktop: Option<String>,
    pub session: Option<String>,
    pub term: Option<String>,
}

/// A snapshot of facts about the local machine, fixed when it is made.
pub struct SystemInfo {
    pub user: String,
    pub hostname: String,
    pub datetime: Timestamp,
    pub os_info: String,
    pub uptime: String,
    pub shell: String,
    pub displays: String,
    pub window_manager: String,
    pub terminal: String,
    pub font: String,
    pub cpu: String,
    pub gpu: String,
    pub memory: String,
    pub storage: String,
}

/// How a piece of a line is to be shown on a terminal.
pub enum Style {
    /// As is.
    Plain,
    /// Emphasised, for the user and host names.
    Name,
    /// Emphasised, for the label of a field.
    Label,
    /// Muted, for the timestamp.
    Muted,
}

/// A piece of a line with its style.
pub struct Segment {
    pub style: Style,
    pub text: String,
}

/// The text of a styled line: its segments' texts, in order.
pub open spec fn segments_text(segs: Seq<(Style, Seq<char>)>) -> Seq<char>
    decreases segs.len(),
{
    if segs.len() == 0 {
        Seq::empty()
    } else {
        segments_text(segs.drop_last()) + segs.last().1
    }
}

/// The style and text of each segment of each line of a styled rendering.
pub open spec fn styled_view(lines: Seq<Vec<Segment>>) -> Seq<Seq<(Style, Seq<char>)>> {
    lines.map_values(|l: Vec<Segment>| l@.map_values(|g: Segment| (g.style, g.text@)))
}

/// A field's label, emphasised, a space and its value.
pub open spec fn styled_field(label: Seq<char>, value: Seq<char>) -> Seq<(Style, Seq<char>)> {
    seq![(Style::Label, label), (Style::Plain, " "@), (Style::Plain, value)]
}

/// `"{label} {value}"`.
pub open spec fn field_line(label: Seq<char>, value: Seq<char>) -> Seq<char> {
    label + " "@ + value
}

/// `"{user}@{host} ({timestamp})"`.
pub open spec fn header_text(user: Seq<char>, host: Seq<char>, stamp: Seq<char>) -> Seq<char> {
    user + "@"@ + host + " ("@ + stamp + ")"@
}

/// The text of each line of a rendering.
pub open spec fn line_texts(lines: Seq<String>) -> Seq<Seq<char>> {
    lines.map_values(|l: String| l@)
}

impl SystemInfo {
    /// Every text field holds a value, the placeholder at worst, and the
    /// timestamp is a valid date and time.
    pub open spec fn wf(&self) -> bool {
        &&& self.user@.len() > 0
        &&& self.hostname@.len() > 0
        &&& self.datetime.wf()
        &&& self.os_info@.len() > 0
        &&& self.uptime@.len() > 0
        &&& self.shell@.len() > 0
        &&& self.displays@.len() > 0
        &&& self.window_manager@.len() > 0
        &&& self.terminal@.len() > 0
        &&& self.font@.len() > 0
        &&& self.cpu@.len() > 0
        &&& self.gpu@.len() > 0
        &&& self.memory@.len() > 0
        &&& self.storage@.len() > 0
    }

    /// The report's lines as styled segments: the names and the timestamp
    /// of the header, and each field's label, stand apart from the rest.
    pub open spec fn styled(&self) -> Seq<Seq<(Style, Seq<char>)>> {
        seq![
            seq![
                (Style::Name, self.user@),
                (Style::Plain, "@"@),
                (Style::Name, self.hostname@),
                (Style::Plain, " ("@),
                (Style::Muted, self.datetime.text()),
                (Style::Plain, ")"@),
            ],
            Seq::empty(),
            styled_field("OS:"@, self.os_info@),
            styled_field("Uptime:"@, self.uptime@),
            styled_field("Shell:"@, self.shell@),
            styled_field("Displays:"@, self.displays@),
            styled_field("WM:"@, self.window_manager@),
            styled_field("Terminal:"@, self.terminal@),
            styled_field("Font:"@, self.font@),
            styled_field("CPU:"@, self.cpu@),
            styled_field("GPU:"@, self.gpu@),
            styled_field("Memory:"@, self.memory@),
            styled_field("Storage:"@, self.storage@),
        ]
    }

    /// The lines of the report: a header, a blank line, then one line per
    /// field in a fixed order.
    pub open spec fn lines(&self) -> Seq<Seq<char>> {
        seq![
            header_text(self.user@, self.hostname@, self.datetime.text()),
            Seq::empty(),
            field_line("OS:"@, self.os_info@),
            field_line("Uptime:"@, self.uptime@),
            field_line("Shell:"@, self.shell@),
            field_line("Displays:"@, self.displays@),
            field_line("WM:"@, self.window_manager@),
            field_line("Terminal:"@, self.terminal@),
            field_line("Font:"@, self.font@),
            field_line("CPU:"@, self.cpu@),
            field_line("GPU:"@, self.gpu@),
            field_line("Memory:"@, self.memory@),
            field_line("Storage:"@, self.storage@),
        ]
    }
}

fn field(label: &str, value: &String) -> (r: String)
    ensures
        r@ == field_line(label@, value@),
{
    let mut r = String::from_str(label);
    r.append(" ");
    r.append(value.as_str());
    r
}

fn segment(style: Style, text: &str) -> (r: Segment)
    ensures
        r.style == style,
        r.text@ == text@,
{
    Segment { style, text: String::from_str(text) }
}

fn field_segments(label: &str, value: &String) -> (r: Vec<Segment>)
    ensures
        r@.map_values(|g: Segment| (g.style, g.text@)) == styled_field(label@, value@),
{
    let mut r: Vec<Segment> = Vec::new();
    r.push(segment(Style::Label, label));
    r.push(segment(Style::Plain, " "));
    r.push(segment(Style::Plain, value.as_str()));
    assert(r@.map_values(|g: Segment| (g.style, g.text@)) =~= styled_field(label@, value@));
    r
}

impl SystemInfo {
    /// The report as lines of styled segments, for a display that shows
    /// emphasis.
    pub fn styled_lines(&self) -> (r: Vec<Vec<Segment>>)
        requires
            self.datetime.wf(),
        ensures
            styled_view(r@) == self.styled(),
    {
        let mut head: Vec<Segment> = Vec::new();
        head.push(segment(Style::Name, self.user.as_str()));
        head.push(segment(Style::Plain, "@"));
        head.push(segment(Style::Name, self.hostname.as_str()));
        head.push(segment(Style::Plain, " ("));
        let stamp = self.datetime.format();
        head.push(segment(Style::Muted, stamp.as_str()));
        head.push(segment(Style::Plain, ")"));
        let ghost head_view = head@.map_values(|g: Segment| (g.style, g.text@));
        assert(head_view =~= self.styled()[0]);
        let mut lines: Vec<Vec<Segment>> = Vec::new();
        lines.push(head);
        lines.push(Vec::new());
        lines.push(field_segments("OS:", &self.os_info));
        lines.push(field_segments("Uptime:", &self.uptime));
        lines.push(field_segments("Shell:", &self.shell));
        lines.push(field_segments("Displays:", &self.displays));
        lines.push(field_segments("WM:", &self.window_manager));
        lines.push(field_segments("Terminal:", &self.terminal));
        lines.push(field_segments("Font:", &self.font));
        lines.push(field_segments("CPU:", &self.cpu));
        lines.push(field_segments("GPU:", &self.gpu));
        lines.push(field_segments("Memory:", &self.memory));
        lines.push(field_segments("Storage:", &self.storage));
        assert(styled_view(lines@)[1] =~= Seq::<(Style, Seq<char>)>::empty());
        assert(styled_view(lines@) =~= self.styled());
        lines
    }

    /// The report as lines of text, ready to print.
    pub fn as_vec(&self) -> (r: Vec<String>)
        requires
            self.datetime.wf(),
        ensures
            line_texts(r@) == self.lines(),
    {
        let mut lines: Vec<String> = Vec::new();
        let mut head = self.user.clone();
        head.append("@");
        head.append(self.hostname.as_str());
        head.append(" (");
        let stamp = self.datetime.format();
        head.append(stamp.as_str());
        head.append(")");
        lines.push(head);
        lines.push(String::new());
        lines.push(field("OS:", &self.os_info));
        lines.push(field("Uptime:", &self.uptime));
        lines.push(field("Shell:", &self.shell));
        lines.push(field("Displays:", &self.displays));
        lines.push(field("WM:", &self.window_manager));
        lines.push(field("Terminal:", &self.terminal));
        lines.push(field("Font:", &self.font));
        lines.push(field("CPU:", &self.cpu));
        lines.push(field("GPU:", &self.gpu));
        lines.push(field("Memory:", &self.memory));
        lines.push(field("Storage:", &self.storage));
        assert(line_texts(lines@) =~= self.lines());
        lines
    }

    /// Gathers the report from the running machine, reading the environment
    /// variables' values from `env`. Facts that cannot be found become the
    /// placeholder; display count, font and GPU are not detected.
    pub fn new(env: &Environment) -> (r: SystemInfo)
        ensures
            r.wf(),
            exists|u: Option<Seq<char>>| r.user@ == #[trigger] known_text(u),
            exists|h: Option<Seq<char>>| r.hostname@ == #[trigger] known_text(h),
            exists|l: Option<Seq<char>>, k: Option<Seq<char>>| r.os_info@ == #[trigger] os_text(l, k),
            exists|s: nat| r.uptime@ == #[trigger] uptime_text(s),
            r.shell@ == shell_text(opt_text(env.shell)),
            r.displays@ == "1"@,
            r.window_manager@ == window_manager_text(opt_text(env.desktop), opt_text(env.session)),
            r.terminal@ == known_text(opt_text(env.term)),
            r.font@ == unknown_text(),
            r.cpu@ == unknown_text() || exists|b: Seq<char>, n: nat|
                n > 0 && r.cpu@ == #[trigger] cpu_text(b, n),
            r.gpu@ == unknown_text(),
            exists|used: nat, total: nat| r.memory@ == #[trigger] memory_text(used, total),
            exists|v: Seq<(u64, u64)>| r.storage@ == #[trigger] storage_text(v),
    {
        let mut sys = platform::new_system();
        platform::refresh_all(&mut sys);
        let user_raw = platform::username();
        let user = known_or_unknown(&user_raw);
        let host_raw = platform::hostname();
        let hostname = known_or_unknown(&host_raw);
        let datetime = platform::local_now();
        let long = platform::long_os_version();
        let kernel = platform::kernel_version();
        let os_info = format_os(&long, &kernel);
        let secs = platform::uptime_seconds();
        let uptime = format_uptime(secs);
        let shell = shell_name(&env.shell);
        let displays = String::from_str("1");
        let wm = window_manager(&env.desktop, &env.session);
        let terminal = known_or_unknown(&env.term);
        let font = unknown();
        let brands = platform::cpu_brands(&sys);
        let cpu = cpu_summary(&brands);
        let gpu = unknown();
        let total_mem = platform::total_memory(&sys);
        let used_mem = platform::used_memory(&sys);
        let memory = format_memory(used_mem, total_mem);
        let vols = platform::volumes();
        let storage = format_storage(&vols);
        proof {
            lemma_known_nonempty(opt_text(user_raw));
            lemma_known_nonempty(opt_text(host_raw));
            lemma_known_nonempty(opt_text(long));
            lemma_known_nonempty(opt_text(kernel));
            lemma_known_nonempty(opt_text(env.term));
            lemma_shell_nonempty(opt_text(env.shell));
            lemma_window_manager_nonempty(opt_text(env.desktop), opt_text(env.session));
            lemma_unknown_nonempty();
            reveal_strlit("1");
            lemma_decimal_nonempty(secs as nat / 86400);
            lemma_decimal_nonempty(used_mem as nat / 1048576);
            lemma_decimal_nonempty(used_sum(vols@) / 1073741824);
            lemma_decimal_nonempty(brands@.len());
            if brands@.len() > 0 {
                assert(cpu_text(trimmed(brands@[0]@), brands@.len()).len() > 0);
            }
        }
        SystemInfo {
            user,
            hostname,
            datetime,
            os_info,
            uptime,
            shell,
            displays,
            window_manager: wm,
            terminal,
            font,
            cpu,
            gpu,
            memory,
            storage,
        }
    }
}

/// A known-or-placeholder value is never empty.
pub proof fn lemma_known_nonempty(v: Option<Seq<char>>)
    ensures
        known_text(v).len() > 0,
{
    lemma_unknown_nonempty();
}

/// The shell's name is never empty.
pub proof fn lemma_shell_nonempty(path: Option<Seq<char>>)
    ensures
        shell_text(path).len() > 0,
{
    lemma_unknown_nonempty();
}

/// The desktop session's name is never empty.
pub proof fn lemma_window_manager_nonempty(first: Option<Seq<char>>, second: Option<Seq<char>>)
    ensures
        window_manager_text(first, second).len() > 0,
{
    lemma_unknown_nonempty();
}

/// Rendering is pure: two renderings of one report hold the same lines.
pub proof fn lemma_render_deterministic(info: SystemInfo, a: Seq<String>, b: Seq<String>)
    requires
        line_texts(a) == info.lines(),
        line_texts(b) == info.lines(),
    ensures
        line_texts(a) == line_texts(b),
        a.len() == b.len(),
        forall|i: int| 0 <= i < a.len() ==> a[i]@ == b[i]@,
{
    assert(line_texts(a).len() == a.len());
    assert(line_texts(b).len() == b.len());
    assert forall|i: int| 0 <= i < a.len() implies a[i]@ == b[i]@ by {
        assert(line_texts(a)[i] == a[i]@);
        assert(line_texts(b)[i] == b[i]@);
    }
}

/// A rendering always has thirteen lines: the header, a blank line and the
/// eleven fields, whatever the fields hold.
pub proof fn lemma_line_count(info: SystemInfo, r: Seq<String>)
    requires
        line_texts(r) == info.lines(),
    ensures
        r.len() == 13,
        info.lines().len() == 13,
        r[1]@.len() == 0,
{
    assert(line_texts(r).len() == r.len());
    assert(line_texts(r)[1] == r[1]@);
}


proof fn lemma_field_text(label: Seq<char>, value: Seq<char>)
    ensures
        segments_text(styled_field(label, value)) == field_line(label, value),
{
    let f = styled_field(label, value);
    reveal_with_fuel(segments_text, 4);
    assert(f.drop_last().drop_last().drop_last() =~= Seq::<(Style, Seq<char>)>::empty());
    assert(f.drop_last().drop_last() =~= seq![(Style::Label, label)]);
    assert(f.drop_last() =~= seq![(Style::Label, label), (Style::Plain, " "@)]);
    assert(Seq::<char>::empty() + label =~= label);
}

/// Styles only decorate: each styled line, its styles dropped, is the
/// corresponding plain line.
pub proof fn lemma_styles_only_decorate(info: SystemInfo)
    ensures
        info.styled().len() == info.lines().len(),
        forall|i: int| 0 <= i < info.lines().len() ==> segments_text(#[trigger] info.styled()[i]) == info.lines()[i],
{
    let st = info.styled();
    let ln = info.lines();
    let h = st[0];
    reveal_with_fuel(segments_text, 7);
    assert(h.drop_last().drop_last().drop_last().drop_last().drop_last().drop_last()
        =~= Seq::<(Style, Seq<char>)>::empty());
    assert(h.drop_last().drop_last().drop_last().drop_last().drop_last() =~= seq![(Style::Name, info.user@)]);
    assert(h.drop_last().drop_last().drop_last().drop_last() =~= seq![(Style::Name, info.user@), (Style::Plain, "@"@)]);
    assert(h.drop_last().drop_last().drop_last() =~= seq![(Style::Name, info.user@), (Style::Plain, "@"@), (Style::Name, info.hostname@)]);
    assert(h.drop_last().drop_last() =~= seq![(Style::Name, info.user@), (Style::Plain, "@"@), (Style::Name, info.hostname@), (Style::Plain, " ("@)]);
    assert(h.drop_last() =~= seq![(Style::Name, info.user@), (Style::Plain, "@"@), (Style::Name, info.hostname@), (Style::Plain, " ("@), (Style::Muted, info.datetime.text())]);
    assert(Seq::<char>::empty() + info.user@ =~= info.user@);
    assert(segments_text(st[0]) == ln[0]);
    assert(segments_text(st[1]) == ln[1]);
    lemma_field_text("OS:"@, info.os_info@);
    lemma_field_text("Uptime:"@, info.uptime@);
    lemma_field_text("Shell:"@, info.shell@);
    lemma_field_text("Displays:"@, info.displays@);
    lemma_field_text("WM:"@, info.window_manager@);
    lemma_field_text("Terminal:"@, info.terminal@);
    lemma_field_text("Font:"@, info.font@);
    lemma_field_text("CPU:"@, info.cpu@);
    lemma_field_text("GPU:"@, info.gpu@);
    lemma_field_text("Memory:"@, info.memory@);
    lemma_field_text("Storage:"@, info.storage@);
}

} // verus!
