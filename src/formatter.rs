use vstd::prelude::*;

use crate::ioreg::IoregInfo;
use crate::systemctl::{SystemctlInfo, SystemctlView};
use crate::text::{lemma_repeat_len, decimal, pad_left, push_decimal, push_repeat, push_str, repeat_char, string_of};
use crate::whoami::WhoAmI;

verus! {

/// The width that the physical core count is right-aligned to.
pub const CORES_WIDTH: usize = 6;

/// The pieces of text that stand at the start of the fact lines: the user
/// and host of the header, and the label of each fact.
pub struct FactLabels {
    pub user: String,
    pub host: String,
    pub os: String,
    pub host_model: String,
    pub kernel: String,
    pub uptime: String,
    pub cpu: String,
    pub gpu: String,
    pub memory: String,
}

/// The names joined with `sep` between each two.
pub open spec fn join(names: Seq<Seq<char>>, sep: Seq<char>) -> Seq<char>
    decreases names.len(),
{
    if names.len() == 0 {
        Seq::empty()
    } else if names.len() == 1 {
        names[0]
    } else {
        join(names.drop_last(), sep) + sep + names.last()
    }
}

/// The dashes under the header `user@host`: one for each of its characters.
pub open spec fn separator(user: Seq<char>, host: Seq<char>) -> Seq<char> {
    repeat_char('-', user.len() + host.len() + 1)
}

/// The ten fact lines, in order.
pub open spec fn fact_lines(
    user: Seq<char>,
    info: SystemctlView,
    gpus: Seq<Seq<char>>,
    l: FactLabels,
) -> Seq<Seq<char>> {
    seq![
        l.user@ + "@"@ + l.host@,
        separator(user, info.hostname),
        l.os@ + ": macOS "@ + info.macos_version + " "@ + info.macos_subversion + " "@
            + info.arch_type,
        l.host_model@ + ": "@ + info.hardware_model,
        l.kernel@ + ": "@ + info.kernel_version,
        l.uptime@ + ": "@ + info.uptime,
        l.cpu@ + ": "@ + info.cpu_name,
        pad_left(decimal(info.physical_cores as nat), CORES_WIDTH as nat) + " physical, "@
            + decimal(info.logical_cores as nat) + " logical cores"@,
        l.gpu@ + ": "@ + join(gpus, ", "@),
        l.memory@ + ": "@ + decimal(info.memory_amount as nat) + "GB"@,
    ]
}

impl FactLabels {
    /// The labels as bare text, with the header made of `user` and `host`.
    pub fn plain(user: &str, host: &str) -> (r: FactLabels)
        ensures
            r.user@ == user@,
            r.host@ == host@,
            r.os@ == "OS"@,
            r.host_model@ == "Host"@,
            r.kernel@ == "Kernel"@,
            r.uptime@ == "Uptime"@,
            r.cpu@ == "CPU"@,
            r.gpu@ == "GPU"@,
            r.memory@ == "Memory"@,
    {
        FactLabels {
            user: user.to_owned(),
            host: host.to_owned(),
            os: "OS".to_owned(),
            host_model: "Host".to_owned(),
            kernel: "Kernel".to_owned(),
            uptime: "Uptime".to_owned(),
            cpu: "CPU".to_owned(),
            gpu: "GPU".to_owned(),
            memory: "Memory".to_owned(),
        }
    }
}

/// Relies on colored's `bright_green` and `bold`, shown as text: the header
/// as the terminal is to show it.
#[verifier::external_body]
fn header_style(s: &str) -> (r: String) {
    colored::Colorize::bold(colored::Colorize::bright_green(s)).to_string()
}

/// Relies on colored's `bright_yellow` and `bold`, shown as text: a label as
/// the terminal is to show it.
#[verifier::external_body]
fn label_style(s: &str) -> (r: String) {
    colored::Colorize::bold(colored::Colorize::bright_yellow(s)).to_string()
}

proof fn lemma_repeat_add(c: char, a: nat, b: nat)
    ensures
        repeat_char(c, a) + repeat_char(c, b) == repeat_char(c, a + b),
    decreases b,
{
    if b == 0 {
        assert(repeat_char(c, a) + repeat_char(c, 0) =~= repeat_char(c, a));
    } else {
        lemma_repeat_add(c, a, (b - 1) as nat);
        assert(repeat_char(c, a) + repeat_char(c, b) =~= (repeat_char(c, a) + repeat_char(
            c,
            (b - 1) as nat,
        )).push(c));
    }
}

fn join_names(names: &Vec<String>, out: &mut Vec<char>)
    ensures
        final(out)@ == old(out)@ + join(names.deep_view(), ", "@),
{
    let ghost start = out@;
    let ghost d = names.deep_view();
    let mut i: usize = 0;
    while i < names.len()
        invariant
            i <= names@.len(),
            d == names.deep_view(),
            out@ == start + join(d.take(i as int), ", "@),
        decreases names@.len() - i,
    {
        proof {
            assert(d.take(i + 1).drop_last() =~= d.take(i as int));
        }
        if i > 0 {
            push_str(out, ", ");
        }
        push_str(out, names[i].as_str());
        i = i + 1;
        proof {
            if i == 1 {
                assert(d.take(1) =~= seq![d[0]]);
                assert(join(d.take(1), ", "@) == d[0]);
            }
            assert(out@ =~= start + join(d.take(i as int), ", "@));
        }
    }
    assert(d.take(i as int) =~= d);
}

/// Writes the ten fact lines about the user, the host and its GPUs, each
/// beginning with the matching piece of `labels`.
pub fn render_fact_lines(
    whoami: &WhoAmI,
    systemctl_info: &SystemctlInfo,
    ioreg_info: &IoregInfo,
    labels: &FactLabels,
) -> (r: Vec<String>)
    ensures
        r.deep_view() == fact_lines(whoami.0@, systemctl_info@, ioreg_info@, *labels),
{
    let ghost info = systemctl_info@;
    let mut lines: Vec<String> = Vec::new();

    let mut line: Vec<char> = Vec::new();
    push_str(&mut line, labels.user.as_str());
    push_str(&mut line, "@");
    push_str(&mut line, labels.host.as_str());
    lines.push(string_of(&line));

    let user_len = crate::text::char_count(whoami.0.as_str());
    let host_len = crate::text::char_count(systemctl_info.hostname());
    let mut line: Vec<char> = Vec::new();
    push_repeat(&mut line, '-', user_len);
    push_repeat(&mut line, '-', host_len);
    push_repeat(&mut line, '-', 1);
    proof {
        lemma_repeat_add('-', user_len as nat, host_len as nat);
        lemma_repeat_add('-', (user_len + host_len) as nat, 1);
        assert(line@ =~= separator(whoami.0@, info.hostname));
    }
    lines.push(string_of(&line));

    let mut line: Vec<char> = Vec::new();
    push_str(&mut line, labels.os.as_str());
    push_str(&mut line, ": macOS ");
    push_str(&mut line, systemctl_info.macos_version());
    push_str(&mut line, " ");
    push_str(&mut line, systemctl_info.macos_subversion());
    push_str(&mut line, " ");
    push_str(&mut line, systemctl_info.arch_type());
    lines.push(string_of(&line));

    let mut line: Vec<char> = Vec::new();
    push_str(&mut line, labels.host_model.as_str());
    push_str(&mut line, ": ");
    push_str(&mut line, systemctl_info.hardware_model());
    lines.push(string_of(&line));

    let mut line: Vec<char> = Vec::new();
    push_str(&mut line, labels.kernel.as_str());
    push_str(&mut line, ": ");
    push_str(&mut line, systemctl_info.kernel_version());
    lines.push(string_of(&line));

    let mut line: Vec<char> = Vec::new();
    push_str(&mut line, labels.uptime.as_str());
    push_str(&mut line, ": ");
    push_str(&mut line, systemctl_info.uptime());
    lines.push(string_of(&line));

    let mut line: Vec<char> = Vec::new();
    push_str(&mut line, labels.cpu.as_str());
    push_str(&mut line, ": ");
    push_str(&mut line, systemctl_info.cpu_name());
    lines.push(string_of(&line));

    let mut digits: Vec<char> = Vec::new();
    push_decimal(&mut digits, systemctl_info.physical_cores() as u64);
    let mut line: Vec<char> = Vec::new();
    if digits.len() < CORES_WIDTH {
        push_repeat(&mut line, ' ', CORES_WIDTH - digits.len());
    }
    line.append(&mut digits);
    assert(line@ =~= pad_left(decimal(info.physical_cores as nat), CORES_WIDTH as nat));
    push_str(&mut line, " physical, ");
    push_decimal(&mut line, systemctl_info.logical_cores() as u64);
    push_str(&mut line, " logical cores");
    lines.push(string_of(&line));

    let mut line: Vec<char> = Vec::new();
    push_str(&mut line, labels.gpu.as_str());
    push_str(&mut line, ": ");
    join_names(ioreg_info.gpu_names(), &mut line);
    lines.push(string_of(&line));

    let mut line: Vec<char> = Vec::new();
    push_str(&mut line, labels.memory.as_str());
    push_str(&mut line, ": ");
    push_decimal(&mut line, systemctl_info.memory_amount() as u64);
    push_str(&mut line, "GB");
    lines.push(string_of(&line));

    assert(lines.deep_view() =~= fact_lines(whoami.0@, info, ioreg_info@, *labels));
    lines
}

/// Writes the ten fact lines with the header in bold bright green and the
/// labels in bold bright yellow, where the terminal is to show colors.
pub fn format_system_data(
    whoami: &WhoAmI,
    systemctl_info: &SystemctlInfo,
    ioreg_info: &IoregInfo,
) -> (r: Vec<String>)
    ensures
        exists|l: FactLabels|
            r.deep_view() == #[trigger] fact_lines(
                whoami.0@,
                systemctl_info@,
                ioreg_info@,
                l,
            ),
        r@.len() == 10,
        r.deep_view()[1] == separator(whoami.0@, systemctl_info@.hostname),
        r.deep_view()[7] == pad_left(
            decimal(systemctl_info@.physical_cores as nat),
            CORES_WIDTH as nat,
        ) + " physical, "@ + decimal(systemctl_info@.logical_cores as nat) + " logical cores"@,
{
    let labels = FactLabels {
        user: header_style(whoami.0.as_str()),
        host: header_style(systemctl_info.hostname()),
        os: label_style("OS"),
        host_model: label_style("Host"),
        kernel: label_style("Kernel"),
        uptime: label_style("Uptime"),
        cpu: label_style("CPU"),
        gpu: label_style("GPU"),
        memory: label_style("Memory"),
    };
    let r = render_fact_lines(whoami, systemctl_info, ioreg_info, &labels);
    assert(r.deep_view() == fact_lines(whoami.0@, systemctl_info@, ioreg_info@, labels));
    r
}

/// The line under the header holds only dashes, as many as the header
/// `user@host` has characters.
pub proof fn lemma_separator_length(user: Seq<char>, host: Seq<char>)
    ensures
        separator(user, host).len() == user.len() + host.len() + 1,
        forall|i: int|
            0 <= i < separator(user, host).len() ==> #[trigger] separator(user, host)[i] == '-',
{
    lemma_repeat_len('-', user.len() + host.len() + 1);
}

} // verus!
