use crate::text::starts_with;
use vstd::prelude::*;
use vstd::string::*;

verus! {

/// The texts of a sequence of strings.
pub open spec fn views(v: Seq<String>) -> Seq<Seq<char>> {
    v.map_values(|s: String| s@)
}

/// `parts` with `sep` between each two of them.
pub open spec fn joined(parts: Seq<Seq<char>>, sep: Seq<char>) -> Seq<char>
    decreases parts.len(),
{
    if parts.len() == 0 {
        Seq::empty()
    } else if parts.len() == 1 {
        parts[0]
    } else {
        joined(parts.drop_last(), sep) + sep + parts.last()
    }
}

/// The pieces of `s` between semicolons, in order.
pub uninterp spec fn semicolon_pieces(s: Seq<char>) -> Seq<Seq<char>>;

/// The lines of `s`, without their line endings.
pub uninterp spec fn text_lines(s: Seq<char>) -> Seq<Seq<char>>;

/// `s` without leading and trailing whitespace.
pub uninterp spec fn trimmed(s: Seq<char>) -> Seq<char>;

/// Relies on `str::split` with a `char` pattern: the pieces between the
/// semicolons, which put back together with semicolons give `s` again.
#[verifier::external_body]
fn split_semicolons(s: &str) -> (r: Vec<String>)
    ensures
        views(r@) == semicolon_pieces(s@),
        joined(views(r@), seq![';']) == s@,
        forall|i: int| 0 <= i < r@.len() ==> !(#[trigger] r@[i]@).contains(';'),
{
    s.split(';').map(|p| p.to_string()).collect()
}

/// Relies on `str::lines`: the lines of `s`, split at `\n` with a `\r`
/// before it removed, and no empty line after a final line ending.
#[verifier::external_body]
fn split_lines(s: &str) -> (r: Vec<String>)
    ensures
        views(r@) == text_lines(s@),
{
    s.lines().map(|l| l.to_string()).collect()
}

/// Relies on `str::trim`: `s` without leading and trailing whitespace.
#[verifier::external_body]
fn trim_text(s: &str) -> (r: String)
    ensures
        r@ == trimmed(s@),
{
    s.trim().to_string()
}

/// A line that is neither blank nor a `--` comment.
pub open spec fn is_code_line(l: Seq<char>) -> bool {
    let t = trimmed(l);
    t.len() > 0 && !"--"@.is_prefix_of(t)
}

/// The code lines among `lines`, in order.
pub open spec fn code_lines(lines: Seq<Seq<char>>) -> Seq<Seq<char>>
    decreases lines.len(),
{
    if lines.len() == 0 {
        Seq::empty()
    } else if is_code_line(lines.last()) {
        code_lines(lines.drop_last()).push(lines.last())
    } else {
        code_lines(lines.drop_last())
    }
}

/// One statement: its code lines, joined by line breaks and trimmed.
pub open spec fn statement_text(piece: Seq<char>) -> Seq<char> {
    trimmed(joined(code_lines(text_lines(piece)), "\n"@))
}

/// The statements of the pieces, leaving out those that are empty.
pub open spec fn statements_of(pieces: Seq<Seq<char>>) -> Seq<Seq<char>>
    decreases pieces.len(),
{
    if pieces.len() == 0 {
        Seq::empty()
    } else if statement_text(pieces.last()).len() > 0 {
        statements_of(pieces.drop_last()).push(statement_text(pieces.last()))
    } else {
        statements_of(pieces.drop_last())
    }
}

fn is_code(line: &str) -> (r: bool)
    ensures
        r == is_code_line(line@),
{
    let t = trim_text(line);
    !t.as_str().is_empty() && !starts_with(t.as_str(), "--")
}

fn statement(piece: &str) -> (r: String)
    ensures
        r@ == statement_text(piece@),
{
    let lines = split_lines(piece);
    let ghost all = views(lines@);
    let mut body = String::new();
    let mut count: usize = 0;
    let mut i: usize = 0;
    while i < lines.len()
        invariant
            0 <= i <= lines@.len(),
            all == views(lines@),
            all == text_lines(piece@),
            body@ == joined(code_lines(all.take(i as int)), "\n"@),
            count == code_lines(all.take(i as int)).len(),
            count <= i,
        decreases lines@.len() - i,
    {
        let ghost before = code_lines(all.take(i as int));
        assert(all.take(i as int + 1).drop_last() =~= all.take(i as int));
        assert(all.take(i as int + 1).last() == lines@[i as int]@);
        if is_code(lines[i].as_str()) {
            proof {
                let after = before.push(lines@[i as int]@);
                assert(after.drop_last() =~= before);
            }
            if count > 0 {
                body.append("\n");
            }
            body.append(lines[i].as_str());
            count = count + 1;
        }
        i = i + 1;
    }
    assert(all.take(lines@.len() as int) =~= all);
    trim_text(body.as_str())
}

/// The statements of a migration file: the text between semicolons, without
/// blank lines and `--` comment lines, trimmed, and left out when nothing
/// remains.
pub fn sql_statements(sql: &str) -> (r: Vec<String>)
    ensures
        views(r@) == statements_of(semicolon_pieces(sql@)),
{
    let pieces = split_semicolons(sql);
    let ghost all = views(pieces@);
    let mut out: Vec<String> = Vec::new();
    let mut i: usize = 0;
    while i < pieces.len()
        invariant
            0 <= i <= pieces@.len(),
            all == views(pieces@),
            all == semicolon_pieces(sql@),
            views(out@) == statements_of(all.take(i as int)),
        decreases pieces@.len() - i,
    {
        let ghost before = statements_of(all.take(i as int));
        assert(all.take(i as int + 1).drop_last() =~= all.take(i as int));
        assert(all.take(i as int + 1).last() == pieces@[i as int]@);
        let s = statement(pieces[i].as_str());
        if !s.as_str().is_empty() {
            out.push(s);
            assert(views(out@) =~= before.push(statement_text(pieces@[i as int]@)));
        }
        i = i + 1;
    }
    assert(all.take(pieces@.len() as int) =~= all);
    out
}

} // verus!
