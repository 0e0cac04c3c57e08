//! The shell-configuration side of the editor: parsing the assignments that
//! already stand in the user's shell start-up file, normalizing a key before
//! it is written, looking a key up for the duplicate advisory, and formatting
//! the exact line a commit appends.

use vstd::prelude::*;
use vstd::string::StrSliceExecFns;
use vstd::string::StringExecFns;
use crate::split::{join_chars, join_str, split_chars, split_str};
use crate::text::{chars_eq, to_ascii_upper, trim_quote_chars, trim_quotes, upper_chars};

verus! {

/// The assignment a single line of the configuration file holds, if any: a
/// line is recognized when it starts with `export ` and the remainder has an
/// `=`; the name is what stands before the first `=`, the value everything
/// after it.
pub open spec fn config_line_entry(l: Seq<char>) -> Option<(Seq<char>, Seq<char>)> {
    if l.len() >= 7 && l.subrange(0, 7) == "export "@ {
        let rest = l.subrange(7, l.len() as int);
        let pieces = split_chars(rest, '=');
        if pieces.len() >= 2 {
            Some((pieces[0], join_chars(pieces.drop_first(), '=')))
        } else {
            None
        }
    } else {
        None
    }
}

/// The assignments a list of lines holds, in order, skipping every line
/// that is not recognized.
pub open spec fn entries_of(lines: Seq<Seq<char>>) -> Seq<(Seq<char>, Seq<char>)>
    decreases lines.len(),
{
    if lines.len() == 0 {
        Seq::<(Seq<char>, Seq<char>)>::empty()
    } else {
        let rest = entries_of(lines.drop_first());
        match config_line_entry(lines[0]) {
            Some(e) => seq![e] + rest,
            None => rest,
        }
    }
}

/// Adding one line at the end adds its assignment at the end, if it has one.
pub proof fn lemma_entries_of_push(lines: Seq<Seq<char>>, l: Seq<char>)
    ensures
        config_line_entry(l) is Some ==> entries_of(lines.push(l)) == entries_of(lines).push(
            config_line_entry(l)->Some_0,
        ),
        config_line_entry(l) is None ==> entries_of(lines.push(l)) == entries_of(lines),
    decreases lines.len(),
{
    let p = lines.push(l);
    if lines.len() == 0 {
        assert(p.len() == 1);
        assert(p[0] == l);
        assert(lines =~= Seq::<Seq<char>>::empty());
        assert(p.drop_first() =~= Seq::<Seq<char>>::empty());
        assert(entries_of(Seq::<Seq<char>>::empty()) =~= Seq::<(Seq<char>, Seq<char>)>::empty());
        if config_line_entry(l) is Some {
            assert(entries_of(p) =~= entries_of(lines).push(config_line_entry(l)->Some_0));
        } else {
            assert(entries_of(p) =~= entries_of(lines));
        }
    } else {
        assert(p[0] == lines[0]);
        assert(p.drop_first() =~= lines.drop_first().push(l));
        lemma_entries_of_push(lines.drop_first(), l);
        if config_line_entry(l) is Some {
            assert(entries_of(p) =~= entries_of(lines).push(config_line_entry(l)->Some_0));
        }
    }
}

/// Every assignment the configuration file holds, in file order.
pub open spec fn parse_config(contents: Seq<char>) -> Seq<(Seq<char>, Seq<char>)> {
    entries_of(split_chars(contents, '\n'))
}

/// The assignment one line holds, if the line is recognized.
fn parse_export_line(line: &str) -> (r: Option<(String, String)>)
    ensures
        r.deep_view() == config_line_entry(line@),
{
    let n = line.unicode_len();
    if n < 7 {
        return None;
    }
    let prefix = line.substring_char(0, 7);
    let is_export = chars_eq(prefix, "export ");
    if !is_export {
        return None;
    }
    let rest = line.substring_char(7, n);
    let pieces = split_str(rest, '=');
    proof {
        crate::split::lemma_split_len_pos(rest@, '=');
        assert(pieces.deep_view().len() == split_chars(rest@, '=').len());
    }
    if pieces.len() < 2 {
        return None;
    }
    let name = pieces[0].clone();
    let mut tail: Vec<String> = Vec::new();
    let mut k: usize = 1;
    proof {
        assert(tail.deep_view() =~= pieces.deep_view().subrange(1, 1));
    }
    while k < pieces.len()
        invariant
            1 <= k <= pieces.len(),
            tail.deep_view() == pieces.deep_view().subrange(1, k as int),
        decreases pieces.len() - k,
    {
        let ghost old_dv = tail.deep_view();
        tail.push(pieces[k].clone());
        proof {
            assert(tail.deep_view() =~= old_dv.push(pieces.deep_view()[k as int]));
            assert(tail.deep_view() =~= pieces.deep_view().subrange(1, k + 1));
        }
        k = k + 1;
    }
    let value = join_str(&tail, '=');
    proof {
        assert(pieces.deep_view().subrange(1, pieces.len() as int) =~= pieces.deep_view()
            .drop_first());
    }
    Some((name, value))
}

/// Parse the full contents of the shell configuration file into the list of
/// assignments it holds, used only for the duplicate-key advisory.
pub fn get_shell_vars(contents: &str) -> (r: Vec<(String, String)>)
    ensures
        r.deep_view() == parse_config(contents@),
{
    let lines = split_str(contents, '\n');
    let mut r: Vec<(String, String)> = Vec::new();
    let mut i: usize = 0;
    proof {
        assert(lines.deep_view().subrange(0, 0) =~= Seq::<Seq<char>>::empty());
        assert(r.deep_view() =~= entries_of(lines.deep_view().subrange(0, 0)));
    }
    while i < lines.len()
        invariant
            i <= lines.len(),
            lines.deep_view() == split_chars(contents@, '\n'),
            r.deep_view() == entries_of(lines.deep_view().subrange(0, i as int)),
        decreases lines.len() - i,
    {
        let ghost old_dv = r.deep_view();
        let ghost prefix = lines.deep_view().subrange(0, i as int);
        let ghost line_v = lines.deep_view()[i as int];
        match parse_export_line(lines[i].as_str()) {
            Some(entry) => {
                r.push(entry);
                proof {
                    assert(r.deep_view() =~= old_dv.push(config_line_entry(line_v)->Some_0));
                }
            },
            None => {},
        }
        proof {
            lemma_entries_of_push(prefix, line_v);
            assert(lines.deep_view().subrange(0, i + 1) =~= prefix.push(line_v));
        }
        i = i + 1;
    }
    proof {
        assert(lines.deep_view().subrange(0, lines.len() as int) =~= lines.deep_view());
    }
    r
}

/// Whether some assignment in `m` has exactly the name `k`.
pub open spec fn spec_contains_key(m: Seq<(Seq<char>, Seq<char>)>, k: Seq<char>) -> bool {
    exists|i: int| 0 <= i < m.len() && #[trigger] m[i].0 == k
}

/// Look a name up among the parsed assignments.
pub fn contains_key(m: &Vec<(String, String)>, k: &String) -> (r: bool)
    ensures
        r == spec_contains_key(m.deep_view(), k@),
{
    let mut i: usize = 0;
    while i < m.len()
        invariant
            i <= m.len(),
            forall|j: int| 0 <= j < i ==> #[trigger] m.deep_view()[j].0 != k@,
        decreases m.len() - i,
    {
        if m[i].0 == *k {
            proof {
                assert(m.deep_view()[i as int].0 == k@);
            }
            return true;
        }
        i = i + 1;
    }
    false
}

/// The normalized form of an environment key before it is written out:
/// upper-cased, with surrounding double quotes stripped.
pub open spec fn normalize_key(k: Seq<char>) -> Seq<char> {
    trim_quotes(upper_chars(k))
}

/// Normalize an environment key: upper-case it and strip surrounding double
/// quotes.
pub fn normalize_key_str(k: &str) -> (r: String)
    ensures
        r@ == normalize_key(k@),
{
    let upper = to_ascii_upper(k);
    trim_quote_chars(upper.as_str())
}

/// The text of an environment-variable assignment line.
pub open spec fn env_line_chars(key: Seq<char>, value: Seq<char>) -> Seq<char> {
    "export "@ + key + "=\""@ + value + "\"\n"@
}

/// Format the assignment line a committed environment edit appends.
pub fn format_env_line(key: &str, value: &str) -> (r: String)
    ensures
        r@ == env_line_chars(key@, value@),
{
    let mut r = String::from_str("export ");
    r.append(key);
    r.append("=\"");
    r.append(value);
    r.append("\"\n");
    r
}

/// Rejoin the ordered `PATH` components into one `PATH`-style string, with
/// the path-list separator between each two.
pub fn join_path_entries(v: &Vec<String>) -> (r: String)
    ensures
        r@ == join_chars(v.deep_view(), ':'),
{
    join_str(v, ':')
}

/// The text of a `PATH` extension line.
pub open spec fn path_line_chars(entry: Seq<char>) -> Seq<char> {
    "export PATH=$PATH:"@ + entry + "\n"@
}

/// Format the line a committed `PATH` edit appends.
pub fn format_path_line(entry: &str) -> (r: String)
    ensures
        r@ == path_line_chars(entry@),
{
    let mut r = String::from_str("export PATH=$PATH:");
    r.append(entry);
    r.append("\n");
    r
}

} // verus!
