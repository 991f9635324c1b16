//! Reads the per-user default printer from `lpoptions`.
//!
//! Format is line-oriented: `Default <dest>[/<instance>] [options...]`.
//! Only the destination name is read; the option list is ignored.

use vstd::prelude::*;
use crate::text::{begins_with, characters, index_from, matches_at, position_from, view_of};

verus! {

/// The characters with the Unicode `White_Space` property.
pub open spec fn is_white_space(c: char) -> bool {
    let n = c as u32;
    ||| 0x09 <= n <= 0x0D
    ||| n == 0x20
    ||| n == 0x85
    ||| n == 0xA0
    ||| n == 0x1680
    ||| 0x2000 <= n <= 0x200A
    ||| n == 0x2028
    ||| n == 0x2029
    ||| n == 0x202F
    ||| n == 0x205F
    ||| n == 0x3000
}

/// The position of the first character at or after `from` that is white space,
/// or that is not, as `white` says; or the length.
pub open spec fn run_end(s: Seq<char>, white: bool, from: int) -> int
    decreases s.len() - from,
{
    if from >= s.len() {
        s.len() as int
    } else if is_white_space(s[from]) != white {
        from
    } else {
        run_end(s, white, from + 1)
    }
}

/// The first run of characters that are not white space, empty where there is none.
pub open spec fn first_word(s: Seq<char>) -> Seq<char> {
    let start = run_end(s, true, 0);
    s.subrange(start, run_end(s, false, start))
}

/// The destination a line makes the default: the first word after `Default `,
/// up to its first slash, where that leaves anything.
pub open spec fn destination(line: Seq<char>) -> Option<Seq<char>> {
    if begins_with(line, "Default "@) {
        let word = first_word(line.skip("Default "@.len() as int));
        let dest = word.take(position_from(word, '/', 0));
        if dest.len() > 0 {
            Some(dest)
        } else {
            None
        }
    } else {
        None
    }
}

/// The text from `from` to `end`, where a newline ends it at `end` or the text
/// does. A carriage return before the newline belongs to it.
pub open spec fn line_at(s: Seq<char>, from: int, end: int) -> Seq<char> {
    if from < end < s.len() && s[end - 1] == '\r' {
        s.subrange(from, end - 1)
    } else {
        s.subrange(from, end)
    }
}

/// The lines of `s` from position `from` on.
pub open spec fn lines_from(s: Seq<char>, from: int) -> Seq<Seq<char>>
    decreases s.len() - from,
{
    if 0 <= from < s.len() {
        let end = position_from(s, '\n', from);
        if from <= end < s.len() {
            seq![line_at(s, from, end)] + lines_from(s, end + 1)
        } else {
            seq![line_at(s, from, end)]
        }
    } else {
        Seq::empty()
    }
}

/// The later of two choices, where it was made.
pub open spec fn later<T>(second: Option<T>, first: Option<T>) -> Option<T> {
    match second {
        Some(choice) => Some(choice),
        None => first,
    }
}

/// The destination that the last line to name one names.
pub open spec fn last_destination(lines: Seq<Seq<char>>) -> Option<Seq<char>>
    decreases lines.len(),
{
    if lines.len() == 0 {
        None
    } else {
        later(last_destination(lines.drop_first()), destination(lines[0]))
    }
}

/// The default destination an `lpoptions` file names.
pub open spec fn default_of(contents: Seq<char>) -> Option<Seq<char>> {
    last_destination(lines_from(contents, 0))
}

/// The default destination of a file, where it could be read.
pub open spec fn default_in(contents: Option<&str>) -> Option<Seq<char>> {
    match contents {
        Some(text) => default_of(text@),
        None => None,
    }
}

fn white_space(c: char) -> (r: bool)
    ensures
        r == is_white_space(c),
{
    let n: u32 = c as u32;
    (0x09 <= n && n <= 0x0D) || n == 0x20 || n == 0x85 || n == 0xA0 || n == 0x1680 || (0x2000 <= n
        && n <= 0x200A) || n == 0x2028 || n == 0x2029 || n == 0x202F || n == 0x205F || n == 0x3000
}

fn skip_run(s: &Vec<char>, white: bool, from: usize) -> (r: usize)
    requires
        from <= s.len(),
    ensures
        r == run_end(s@, white, from as int),
        from <= r <= s.len(),
{
    let mut i: usize = from;
    while i < s.len()
        invariant
            from <= i <= s.len(),
            run_end(s@, white, from as int) == run_end(s@, white, i as int),
        decreases s.len() - i,
    {
        if white_space(s[i]) != white {
            return i;
        }
        i += 1;
    }
    i
}

/// The destination one line makes the default.
fn line_destination(line: &str) -> (r: Option<String>)
    ensures
        view_of(r) == destination(line@),
{
    let text = characters(line);
    let prefix = characters("Default ");
    if !matches_at(&text, &prefix, 0) {
        return None;
    }
    let rest = line.substring_char(prefix.len(), text.len());
    assert(rest@ =~= line@.skip("Default "@.len() as int));
    let chars = characters(rest);
    let start: usize = skip_run(&chars, true, 0);
    let end: usize = skip_run(&chars, false, start);
    let word = rest.substring_char(start, end);
    let letters = characters(word);
    let slash: usize = index_from(&letters, '/', 0);
    if slash > 0 {
        Some(word.substring_char(0, slash).to_string())
    } else {
        None
    }
}

/// The default destination the contents of an `lpoptions` file name.
pub fn parse_default(contents: &str) -> (r: Option<String>)
    ensures
        view_of(r) == default_of(contents@),
{
    let text = characters(contents);
    let mut found: Option<String> = None;
    let mut from: usize = 0;
    while from < text.len()
        invariant
            text@ == contents@,
            from <= text.len(),
            default_of(contents@) == later(
                last_destination(lines_from(contents@, from as int)),
                view_of(found),
            ),
        decreases text.len() - from,
    {
        let end: usize = index_from(&text, '\n', from);
        let stop: usize = if from < end && end < text.len() && text[end - 1] == '\r' {
            end - 1
        } else {
            end
        };
        let line = contents.substring_char(from, stop);
        proof {
            let lines = lines_from(contents@, from as int);
            let next = if end < text.len() {
                end + 1
            } else {
                end as int
            };
            assert(lines =~= seq![line@] + lines_from(contents@, next));
            assert(lines.drop_first() =~= lines_from(contents@, next));
            assert(lines[0] == line@);
        }
        if let Some(dest) = line_destination(line) {
            found = Some(dest);
        }
        from = if end < text.len() {
            end + 1
        } else {
            end
        };
    }
    found
}

/// The default printer the contents of two files name, preferring the user's
/// over the system's. A file that could not be read has no contents.
pub fn default_printer_from(user: Option<&str>, system: Option<&str>) -> (r: Option<String>)
    ensures
        view_of(r) == later(default_in(user), default_in(system)),
{
    if let Some(contents) = user {
        if let Some(dest) = parse_default(contents) {
            return Some(dest);
        }
    }
    match system {
        Some(contents) => parse_default(contents),
        None => None,
    }
}

/// A file that makes a printer the default is read back as naming it, so long
/// as the name is not empty and holds neither white space nor a slash.
pub proof fn a_default_is_read_back(name: Seq<char>)
    requires
        name.len() > 0,
        forall|i: int|
            0 <= i < name.len() ==> !is_white_space(#[trigger] name[i]) && name[i] != '/',
    ensures
        default_of("Default "@ + name + seq!['\n']) == Some(name),
{
    reveal_strlit("Default ");
    let prefix = "Default "@;
    let line = prefix + name;
    let contents = line + seq!['\n'];
    assert(prefix.len() == 8);
    assert forall|i: int| 0 <= i < line.len() implies contents[i] != '\n' by {
        if i >= 8 {
            assert(contents[i] == name[i - 8]);
        }
    }
    lemma_position_found(contents, '\n', 0, line.len() as int);
    assert(contents[line.len() - 1] == name.last());
    assert(name.last() == name[name.len() - 1]);
    assert(line_at(contents, 0, line.len() as int) =~= line);
    assert(lines_from(contents, contents.len() as int) =~= Seq::empty());
    let lines = lines_from(contents, 0);
    reveal_with_fuel(lines_from, 2);
    reveal_with_fuel(last_destination, 2);
    assert(lines =~= seq![line]);
    assert(lines.drop_first() =~= Seq::empty());
    let rest = line.skip(8);
    assert(rest =~= name);
    assert(line.subrange(0, 8) =~= prefix);
    assert(run_end(name, true, 0) == 0);
    lemma_run_to_the_end(name, 0);
    assert(first_word(name) =~= name);
    lemma_position_found(name, '/', 0, name.len() as int);
    assert(name.take(name.len() as int) =~= name);
}

/// The first `c` from a position on is where one is found and none before, or
/// the end where there is none at all.
proof fn lemma_position_found(s: Seq<char>, c: char, from: int, at: int)
    requires
        0 <= from <= at <= s.len(),
        forall|i: int| from <= i < at ==> s[i] != c,
        at < s.len() ==> s[at] == c,
    ensures
        position_from(s, c, from) == at,
    decreases at - from,
{
    if from < at {
        lemma_position_found(s, c, from + 1, at);
    }
}

/// A text without white space is one run.
proof fn lemma_run_to_the_end(s: Seq<char>, from: int)
    requires
        0 <= from <= s.len(),
        forall|i: int| 0 <= i < s.len() ==> !is_white_space(#[trigger] s[i]),
    ensures
        run_end(s, false, from) == s.len(),
    decreases s.len() - from,
{
    if from < s.len() {
        lemma_run_to_the_end(s, from + 1);
    }
}

/// Of several lines that name a default the last one counts, and lines that
/// name none change nothing.
pub proof fn the_last_default_counts(lines: Seq<Seq<char>>, line: Seq<char>)
    ensures
        last_destination(lines.push(line)) == later(destination(line), last_destination(lines)),
    decreases lines.len(),
{
    let all = lines.push(line);
    reveal_with_fuel(last_destination, 2);
    if lines.len() == 0 {
        assert(all.drop_first() =~= Seq::empty());
        assert(all[0] == line);
    } else {
        the_last_default_counts(lines.drop_first(), line);
        assert(all.drop_first() =~= lines.drop_first().push(line));
        assert(all[0] == lines[0]);
    }
}

} // verus!
