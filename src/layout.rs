use vstd::prelude::*;

use crate::text::{lemma_repeat_len, pad_right, push_repeat, push_str, string_of};

verus! {

/// The columns that the logo takes, the fact lines starting after them.
pub const ART_WIDTH: usize = 33;

/// The lines of the logo drawn beside the facts.
pub const ART_HEIGHT: usize = 17;

/// The color of a line of the logo.
#[derive(Debug, Clone, Copy, PartialEq, Eq, Structural)]
pub enum ArtColor {
    BrightGreen,
    BrightYellow,
    BrightRed,
    BrightMagenta,
    BrightBlue,
}

/// The color of the logo's line `line_no`, counted from zero.
pub open spec fn art_color_of(line_no: nat) -> ArtColor {
    if line_no <= 5 {
        ArtColor::BrightGreen
    } else if line_no <= 7 {
        ArtColor::BrightYellow
    } else if line_no <= 11 {
        ArtColor::BrightRed
    } else if line_no <= 13 {
        ArtColor::BrightMagenta
    } else {
        ArtColor::BrightBlue
    }
}

/// The color of the logo's line `line_no`, counted from zero.
pub fn get_ascii_art_color(line_no: usize) -> (r: ArtColor)
    requires
        line_no < ART_HEIGHT,
    ensures
        r == art_color_of(line_no as nat),
{
    if line_no <= 5 {
        ArtColor::BrightGreen
    } else if line_no <= 7 {
        ArtColor::BrightYellow
    } else if line_no <= 11 {
        ArtColor::BrightRed
    } else if line_no <= 13 {
        ArtColor::BrightMagenta
    } else {
        ArtColor::BrightBlue
    }
}

/// One row of the display: a line of the logo, padded to its column, and
/// the fact line beside it, empty where the facts have run out.
pub struct LayoutRow {
    pub art: String,
    pub facts: String,
}

/// The rows of the display: one for each line of the logo, fact lines
/// beyond the logo's height left out.
pub open spec fn layout_rows(art: Seq<Seq<char>>, facts: Seq<Seq<char>>) -> Seq<
    (Seq<char>, Seq<char>),
> {
    Seq::new(
        art.len(),
        |i: int|
            (
                pad_right(art[i], ART_WIDTH as nat),
                if i < facts.len() {
                    facts[i]
                } else {
                    Seq::empty()
                },
            ),
    )
}

/// Each row as the pair of its two columns.
pub open spec fn rows_view(rows: Seq<LayoutRow>) -> Seq<(Seq<char>, Seq<char>)> {
    rows.map_values(|r: LayoutRow| (r.art@, r.facts@))
}

/// Places the fact lines beside the lines of the logo.
pub fn compose_rows(art: &Vec<String>, facts: &Vec<String>) -> (r: Vec<LayoutRow>)
    ensures
        rows_view(r@) == layout_rows(art.deep_view(), facts.deep_view()),
{
    let ghost a = art.deep_view();
    let ghost f = facts.deep_view();
    let mut rows: Vec<LayoutRow> = Vec::new();
    let mut i: usize = 0;
    while i < art.len()
        invariant
            i <= art@.len(),
            rows@.len() == i,
            a == art.deep_view(),
            f == facts.deep_view(),
            rows_view(rows@) =~= layout_rows(a, f).take(i as int),
        decreases art@.len() - i,
    {
        let mut line: Vec<char> = Vec::new();
        push_str(&mut line, art[i].as_str());
        let n = line.len();
        if n < ART_WIDTH {
            push_repeat(&mut line, ' ', ART_WIDTH - n);
        }
        let fact_line: String = if i < facts.len() {
            facts[i].clone()
        } else {
            String::new()
        };
        assert(line@ =~= pad_right(a[i as int], ART_WIDTH as nat));
        assert(fact_line@ == layout_rows(a, f)[i as int].1);
        rows.push(LayoutRow { art: string_of(&line), facts: fact_line });
        i = i + 1;
        assert(rows_view(rows@) =~= layout_rows(a, f).take(i as int));
    }
    assert(layout_rows(a, f).take(i as int) =~= layout_rows(a, f));
    rows
}

/// The lines of the logo, top to bottom.
pub open spec fn logo() -> Seq<Seq<char>> {
    seq![
        "                    'c."@,
        "                 ,xNMM."@,
        "               .OMMMMo"@,
        "               OMMM0,"@,
        "     .;loddo:' loolloddol;."@,
        "   cKMMMMMMMMMMNWMMMMMMMMMM0:  "@,
        " .KMMMMMMMMMMMMMMMMMMMMMMMWd."@,
        " XMMMMMMMMMMMMMMMMMMMMMMMX."@,
        ";MMMMMMMMMMMMMMMMMMMMMMMM:"@,
        ":MMMMMMMMMMMMMMMMMMMMMMMM:"@,
        ".MMMMMMMMMMMMMMMMMMMMMMMMX."@,
        " kMMMMMMMMMMMMMMMMMMMMMMMMWd."@,
        " .XMMMMMMMMMMMMMMMMMMMMMMMMMMk"@,
        "  .XMMMMMMMMMMMMMMMMMMMMMMMMK."@,
        "    kMMMMMMMMMMMMMMMMMMMMMMd"@,
        "     ;KMMMMMMMWXXWMMMMMMMk."@,
        "       .cooc,.    .,coo:."@,
    ]
}

/// The lines of the logo.
pub fn ascii_art_lines() -> (r: Vec<String>)
    ensures
        r.deep_view() == logo(),
        r@.len() == ART_HEIGHT,
{
    let mut r: Vec<String> = Vec::new();
    r.push("                    'c.".to_owned());
    r.push("                 ,xNMM.".to_owned());
    r.push("               .OMMMMo".to_owned());
    r.push("               OMMM0,".to_owned());
    r.push("     .;loddo:' loolloddol;.".to_owned());
    r.push("   cKMMMMMMMMMMNWMMMMMMMMMM0:  ".to_owned());
    r.push(" .KMMMMMMMMMMMMMMMMMMMMMMMWd.".to_owned());
    r.push(" XMMMMMMMMMMMMMMMMMMMMMMMX.".to_owned());
    r.push(";MMMMMMMMMMMMMMMMMMMMMMMM:".to_owned());
    r.push(":MMMMMMMMMMMMMMMMMMMMMMMM:".to_owned());
    r.push(".MMMMMMMMMMMMMMMMMMMMMMMMX.".to_owned());
    r.push(" kMMMMMMMMMMMMMMMMMMMMMMMMWd.".to_owned());
    r.push(" .XMMMMMMMMMMMMMMMMMMMMMMMMMMk".to_owned());
    r.push("  .XMMMMMMMMMMMMMMMMMMMMMMMMK.".to_owned());
    r.push("    kMMMMMMMMMMMMMMMMMMMMMMd".to_owned());
    r.push("     ;KMMMMMMMWXXWMMMMMMMk.".to_owned());
    r.push("       .cooc,.    .,coo:.".to_owned());
    assert(r.deep_view() =~= logo());
    r
}

/// The display has one row for each line of the logo. Where there are no
/// more fact lines than logo lines, each fact line stands beside the logo
/// line of its index and the rows after the last fact line have an empty
/// fact column; fact lines beyond the logo's height are left out.
pub proof fn lemma_layout_shape(art: Seq<Seq<char>>, facts: Seq<Seq<char>>)
    ensures
        layout_rows(art, facts).len() == art.len(),
        forall|i: int|
            0 <= i < art.len() ==> (#[trigger] layout_rows(art, facts)[i]).0 == pad_right(
                art[i],
                ART_WIDTH as nat,
            ),
        forall|i: int|
            0 <= i < art.len() && i < facts.len() ==> (#[trigger] layout_rows(
                art,
                facts,
            )[i]).1 == facts[i],
        forall|i: int|
            facts.len() <= i < art.len() ==> (#[trigger] layout_rows(art, facts)[i]).1
                == Seq::<char>::empty(),
{
}

/// A padded logo line is the line followed by spaces, and is at least as
/// wide as the logo's column.
pub proof fn lemma_padded_width(s: Seq<char>)
    ensures
        pad_right(s, ART_WIDTH as nat).len() == if s.len() >= ART_WIDTH {
            s.len()
        } else {
            ART_WIDTH as nat
        },
        pad_right(s, ART_WIDTH as nat).take(s.len() as int) == s,
{
    if s.len() < ART_WIDTH {
        lemma_repeat_len(' ', (ART_WIDTH - s.len()) as nat);
        assert(pad_right(s, ART_WIDTH as nat).take(s.len() as int) =~= s);
    } else {
        assert(s.take(s.len() as int) =~= s);
    }
}

} // verus!
