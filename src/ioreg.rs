use vstd::prelude::*;

verus! {

/// The text that comes before a GPU model name in the device registry.
pub open spec fn model_marker() -> Seq<char> {
    seq!['m', 'o', 'd', 'e', 'l', '"', ' ', '=', ' ', '<', '"']
}

/// How many characters at the start of `s` are not `"`.
pub open spec fn name_run(s: Seq<char>) -> nat
    decreases s.len(),
{
    if s.len() > 0 && s[0] != '"' {
        1 + name_run(s.skip(1))
    } else {
        0
    }
}

/// Whether a match of `model" = <"([^"]+)` starts at the beginning of `s`.
pub open spec fn match_starts(s: Seq<char>) -> bool {
    let m = model_marker();
    s.len() > m.len() && s.take(m.len() as int) == m && s[m.len() as int] != '"'
}

proof fn lemma_name_run_bound(s: Seq<char>)
    ensures
        name_run(s) <= s.len(),
    decreases s.len(),
{
    if s.len() > 0 && s[0] != '"' {
        lemma_name_run_bound(s.skip(1));
    }
}

/// The first group of every match of `model" = <"([^"]+)` in `s`, leftmost
/// first and without overlaps.
pub open spec fn model_names(s: Seq<char>) -> Seq<Seq<char>>
    decreases s.len(),
    via model_names_decreases
{
    if s.len() == 0 {
        Seq::empty()
    } else if match_starts(s) {
        let rest = s.skip(model_marker().len() as int);
        let k = name_run(rest);
        seq![rest.take(k as int)] + model_names(rest.skip(k as int))
    } else {
        model_names(s.skip(1))
    }
}

#[via_fn]
proof fn model_names_decreases(s: Seq<char>) {
    if s.len() != 0 && match_starts(s) {
        let rest = s.skip(model_marker().len() as int);
        lemma_name_run_bound(rest);
    }
}

/// Relies on regex's `Regex::captures_iter` for the pattern
/// `model" = <"([^"]+)`: the first group of each match, leftmost first and
/// without overlaps.
#[verifier::external_body]
fn model_captures(s: &str) -> (r: Vec<String>)
    ensures
        r.deep_view() == model_names(s@),
{
    regex::Regex::new(r#"model" = <"([^"]+)"#).unwrap().captures_iter(s).map(
        |c| c[1].to_owned(),
    ).collect()
}

/// The GPU model names that the device registry lists.
#[derive(Debug)]
pub struct IoregInfo {
    gpu_names: Vec<String>,
}

impl View for IoregInfo {
    type V = Seq<Seq<char>>;

    closed spec fn view(&self) -> Seq<Seq<char>> {
        self.gpu_names.deep_view()
    }
}

impl IoregInfo {
    pub fn gpu_names(&self) -> (r: &Vec<String>)
        ensures
            r.deep_view() == self@,
    {
        &self.gpu_names
    }
}

/// Reads the GPU model names from a dump of the device registry. No name
/// is no error.
pub fn parse_ioreg_info(raw: &str) -> (r: IoregInfo)
    ensures
        r@ == model_names(raw@),
{
    IoregInfo { gpu_names: model_captures(raw) }
}

} // verus!
