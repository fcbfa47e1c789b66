//! The match engine: compiling the pattern, enumerating matches with their
//! capture groups, and rendering the report shown in the matches panel.

use vstd::prelude::*;
use vstd::string::*;

verus! {

/// One capture group of one match, as the engine reports it: the group's
/// name when the group is named, and its captured text when it participated
/// in the match.
pub type GroupView = (Option<Seq<char>>, Option<Seq<char>>);

/// What compiling a pattern source yields: `None` when the source is a valid
/// regular expression, `Some(msg)` with the compiler's rendered error message
/// when it is not.
pub uninterp spec fn compile_outcome(pattern: Seq<char>) -> Option<Seq<char>>;

/// The table of all non-overlapping matches of a valid pattern against a
/// subject, leftmost-first: one row per match, one entry per capture group in
/// declaration order, group 0 (the whole match) first.
pub uninterp spec fn capture_rows(pattern: Seq<char>, subject: Seq<char>) -> Seq<Seq<GroupView>>;

/// Whether a pattern source compiles as a regular expression.
pub open spec fn compiles(pattern: Seq<char>) -> bool {
    compile_outcome(pattern) is None
}

pub open spec fn group_view(g: (Option<String>, Option<String>)) -> GroupView {
    (
        match g.0 {
            Option::Some(n) => Option::Some(n@),
            Option::None => Option::<Seq<char>>::None,
        },
        match g.1 {
            Option::Some(t) => Option::Some(t@),
            Option::None => Option::<Seq<char>>::None,
        },
    )
}

pub open spec fn row_view(r: Vec<(Option<String>, Option<String>)>) -> Seq<GroupView> {
    r@.map_values(|g: (Option<String>, Option<String>)| group_view(g))
}

pub open spec fn table_view(t: Vec<Vec<(Option<String>, Option<String>)>>) -> Seq<Seq<GroupView>> {
    t@.map_values(|r: Vec<(Option<String>, Option<String>)>| row_view(r))
}

/// Relies on `regex::Regex::new`: it returns `Err` exactly on the pattern
/// sources that are not valid regular expressions (or exceed the default size
/// limit), and the error's rendered message is a function of the pattern
/// source alone.
#[verifier::external_body]
pub(crate) fn compile_report(pattern: &str) -> (r: Option<String>)
    ensures
        (match r {
            Option::None => compile_outcome(pattern@) is None,
            Option::Some(msg) => compile_outcome(pattern@) == Option::Some(msg@),
        }),
{
    match regex::Regex::new(pattern) {
        Ok(_) => None,
        Err(e) => Some(e.to_string()),
    }
}

/// Relies on `regex::Regex::captures_iter`, `Captures::iter` and
/// `Regex::capture_names`: the iterator yields every non-overlapping match
/// leftmost-first; each match's groups come in declaration order, aligned
/// with the pattern's capture names; both depend on the pattern source and
/// the subject alone.
#[verifier::external_body]
pub(crate) fn captures_table(pattern: &str, subject: &str) -> (r: Vec<
    Vec<(Option<String>, Option<String>)>,
>)
    requires
        compiles(pattern@),
    ensures
        table_view(r) == capture_rows(pattern@, subject@),
{
    let re = regex::Regex::new(pattern).unwrap();
    let names: Vec<Option<String>> =
        re.capture_names().map(|n| n.map(|s| s.to_string())).collect();
    let mut out = Vec::new();
    for caps in re.captures_iter(subject) {
        let texts = caps.iter().map(|m| m.map(|mm| mm.as_str().to_string()));
        out.push(names.iter().cloned().zip(texts).collect());
    }
    out
}

/// Relies on `String::push`: it appends the character to the end of the
/// string.
#[verifier::external_body]
pub(crate) fn push_char(s: &mut String, c: char)
    ensures
        final(s)@ == old(s)@.push(c),
{
    s.push(c);
}

/// The decimal digit characters.
pub open spec fn digit_char(d: nat) -> char
    recommends
        d < 10,
{
    if d == 0 {
        '0'
    } else if d == 1 {
        '1'
    } else if d == 2 {
        '2'
    } else if d == 3 {
        '3'
    } else if d == 4 {
        '4'
    } else if d == 5 {
        '5'
    } else if d == 6 {
        '6'
    } else if d == 7 {
        '7'
    } else if d == 8 {
        '8'
    } else {
        '9'
    }
}

/// The usual decimal rendering of a number, most significant digit first,
/// without leading zeros (a single `'0'` for zero).
pub open spec fn dec_seq(n: nat) -> Seq<char>
    decreases n,
{
    if n < 10 {
        seq![digit_char(n)]
    } else {
        dec_seq(n / 10).push(digit_char(n % 10))
    }
}

fn exec_digit_char(d: usize) -> (c: char)
    requires
        d < 10,
    ensures
        c == digit_char(d as nat),
{
    if d == 0 {
        '0'
    } else if d == 1 {
        '1'
    } else if d == 2 {
        '2'
    } else if d == 3 {
        '3'
    } else if d == 4 {
        '4'
    } else if d == 5 {
        '5'
    } else if d == 6 {
        '6'
    } else if d == 7 {
        '7'
    } else if d == 8 {
        '8'
    } else {
        '9'
    }
}

/// Renders a match index in decimal.
pub fn dec_string(n: usize) -> (r: String)
    ensures
        r@ == dec_seq(n as nat),
    decreases n,
{
    if n < 10 {
        let mut s = String::new();
        push_char(&mut s, exec_digit_char(n));
        proof {
            assert(s@ =~= dec_seq(n as nat));
        }
        s
    } else {
        let mut s = dec_string(n / 10);
        push_char(&mut s, exec_digit_char(n % 10));
        s
    }
}

/// The first `i` lines joined with a newline separator.
pub open spec fn joined_upto(lines: Seq<Seq<char>>, i: int) -> Seq<char>
    recommends
        i <= lines.len(),
    decreases i,
{
    if i <= 0 {
        Seq::empty()
    } else if i == 1 {
        lines[0]
    } else {
        joined_upto(lines, i - 1) + seq!['\n'] + lines[i - 1]
    }
}

/// The subject text the match engine sees: the body lines joined with a
/// newline separator.
pub open spec fn joined_lines(lines: Seq<Seq<char>>) -> Seq<char> {
    joined_upto(lines, lines.len() as int)
}

pub open spec fn lines_view(text: Seq<String>) -> Seq<Seq<char>> {
    text.map_values(|s: String| s@)
}

/// Joins the body lines with a newline separator.
pub fn join_lines(text: &Vec<String>) -> (r: String)
    ensures
        r@ == joined_lines(lines_view(text@)),
{
    let mut r = String::new();
    if text.len() == 0 {
        return r;
    }
    r.append(text[0].as_str());
    let mut i: usize = 1;
    while i < text.len()
        invariant
            1 <= i <= text@.len(),
            r@ == joined_upto(lines_view(text@), i as int),
        decreases text@.len() - i,
    {
        push_char(&mut r, '\n');
        r.append(text[i].as_str());
        proof {
            assert(r@ =~= joined_upto(lines_view(text@), i + 1));
        }
        i = i + 1;
    }
    r
}

/// The report line for one capture group: two spaces, the group's name (or
/// its index in decimal when it is unnamed), a colon and a space, the
/// captured text, and a newline. A group that did not participate in the
/// match is skipped and contributes nothing.
pub open spec fn group_line(idx: int, g: GroupView) -> Seq<char> {
    match g.1 {
        Option::Some(text) => seq![' ', ' '] + (match g.0 {
            Option::Some(name) => name,
            Option::None => dec_seq(idx as nat),
        }) + seq![':', ' '] + text + seq!['\n'],
        Option::None => Seq::empty(),
    }
}

/// The report lines of the first `i` capture groups of one match.
pub open spec fn group_lines_upto(row: Seq<GroupView>, i: int) -> Seq<char>
    recommends
        i <= row.len(),
    decreases i,
{
    if i <= 0 {
        Seq::empty()
    } else {
        group_lines_upto(row, i - 1) + group_line(i - 1, row[i - 1])
    }
}

/// The report block of one match: its index in decimal, a dot and a newline,
/// then one line per capture group.
pub open spec fn match_block(idx: int, row: Seq<GroupView>) -> Seq<char> {
    dec_seq(idx as nat) + seq!['.', '\n'] + group_lines_upto(row, row.len() as int)
}

/// The report blocks of the first `i` matches.
pub open spec fn report_upto(table: Seq<Seq<GroupView>>, i: int) -> Seq<char>
    recommends
        i <= table.len(),
    decreases i,
{
    if i <= 0 {
        Seq::empty()
    } else {
        report_upto(table, i - 1) + match_block(i - 1, table[i - 1])
    }
}

/// The whole rendered match report.
pub open spec fn rendered_report(table: Seq<Seq<GroupView>>) -> Seq<char> {
    report_upto(table, table.len() as int)
}

/// Renders the capture table as the text shown in the matches panel.
pub fn render_captures(table: &Vec<Vec<(Option<String>, Option<String>)>>) -> (r: String)
    ensures
        r@ == rendered_report(table_view(*table)),
{
    let mut r = String::new();
    let mut i: usize = 0;
    while i < table.len()
        invariant
            i <= table@.len(),
            r@ == report_upto(table_view(*table), i as int),
        decreases table@.len() - i,
    {
        let num = dec_string(i);
        r.append(num.as_str());
        push_char(&mut r, '.');
        push_char(&mut r, '\n');
        let row = &table[i];
        let ghost rv = row_view(*row);
        proof {
            assert(table_view(*table)[i as int] == rv);
        }
        let ghost before = r@;
        let mut j: usize = 0;
        while j < row.len()
            invariant
                j <= row@.len(),
                rv == row_view(*row),
                r@ == before + group_lines_upto(rv, j as int),
            decreases row@.len() - j,
        {
            let g = &row[j];
            proof {
                assert(rv[j as int] == group_view(*g));
            }
            match &g.1 {
                Option::Some(text) => {
                    push_char(&mut r, ' ');
                    push_char(&mut r, ' ');
                    match &g.0 {
                        Option::Some(name) => {
                            r.append(name.as_str());
                        },
                        Option::None => {
                            let d = dec_string(j);
                            r.append(d.as_str());
                        },
                    }
                    push_char(&mut r, ':');
                    push_char(&mut r, ' ');
                    r.append(text.as_str());
                    push_char(&mut r, '\n');
                },
                Option::None => {},
            }
            proof {
                assert(r@ =~= before + group_lines_upto(rv, j + 1));
            }
            j = j + 1;
        }
        proof {
            assert(r@ =~= report_upto(table_view(*table), i + 1));
        }
        i = i + 1;
    }
    r
}

} // verus!
