//! Helpers shared by the scripts: picking a word out of a command's output,
//! and saying which files and commands a script will not find.

use crate::runner::{MissingPrerequisites, ScriptStep};
use crate::text::{
    contains, copy_range, from_chars, is_space, is_space_char, matches_at, occurs_at, to_chars,
};
use vstd::prelude::*;
use vstd::string::StringExecFns;

verus! {

/// Shows nothing: progress messages of the steps are not printed.
pub fn print_step_message(_msg: &str) {
}

/// A line without the carriage return that stood before its line feed.
pub open spec fn without_carriage_return(line: Seq<char>) -> Seq<char> {
    if line.len() > 0 && line.last() == '\r' {
        line.drop_last()
    } else {
        line
    }
}

/// The lines of `s` from position `start` on, when the line that begins at
/// `start` has been read up to `at`.
pub open spec fn lines_from(s: Seq<char>, at: int, start: int) -> Seq<Seq<char>>
    decreases s.len() - at,
{
    if at >= s.len() {
        if start < s.len() {
            seq![s.subrange(start, s.len() as int)]
        } else {
            Seq::empty()
        }
    } else if s[at] == '\n' {
        seq![without_carriage_return(s.subrange(start, at))] + lines_from(s, at + 1, at + 1)
    } else {
        lines_from(s, at + 1, start)
    }
}

/// The lines of `s`. A line ends at a line feed, or at a carriage return
/// followed by a line feed; neither belongs to the line. What follows the
/// last line feed is a line if it is not empty.
pub open spec fn lines(s: Seq<char>) -> Seq<Seq<char>> {
    lines_from(s, 0, 0)
}

/// The words of `s` from position `start` on, when the word that begins at
/// `start` has been read up to `at`.
pub open spec fn words_from(s: Seq<char>, at: int, start: int) -> Seq<Seq<char>>
    decreases s.len() - at,
{
    let word = if start < at && at <= s.len() {
        seq![s.subrange(start, at)]
    } else {
        Seq::empty()
    };
    if at >= s.len() {
        word
    } else if is_space(s[at]) {
        word + words_from(s, at + 1, at + 1)
    } else {
        words_from(s, at + 1, start)
    }
}

/// The words of `s`: its longest stretches without white space.
pub open spec fn words(s: Seq<char>) -> Seq<Seq<char>> {
    words_from(s, 0, 0)
}

/// The first of `rows` that contains `pat`.
pub open spec fn first_row_with(rows: Seq<Seq<char>>, pat: Seq<char>) -> Option<Seq<char>>
    decreases rows.len(),
{
    if rows.len() == 0 {
        None
    } else if contains(rows[0], pat) {
        Some(rows[0])
    } else {
        first_row_with(rows.drop_first(), pat)
    }
}

/// Why no word could be picked out of a command's output.
#[derive(Debug)]
pub enum GrepError {
    /// No line of the output contains the text looked for.
    RowNotFound,
    /// The first line that contains the text has too few words. It holds
    /// that line.
    ColumnMissing(String),
}

/// The word with index `column`, counted from zero, of the first line of
/// `output` that contains `row_contains`; or why there is none. Upper and
/// lower case are different letters.
pub open spec fn row_and_column(output: Seq<char>, row_contains: Seq<char>, column: int) -> Result<
    Seq<char>,
    Option<Seq<char>>,
> {
    match first_row_with(lines(output), row_contains) {
        None => Err(None),
        Some(line) => if 0 <= column < words(line).len() {
            Ok(words(line)[column])
        } else {
            Err(Some(line))
        },
    }
}

/// What `found` says is what `wanted` says: the same word, or the same
/// reason for none.
pub open spec fn same_finding(found: Result<String, GrepError>, wanted: Result<
    Seq<char>,
    Option<Seq<char>>,
>) -> bool {
    match wanted {
        Ok(word) => found matches Ok(text) && text@ == word,
        Err(None) => found matches Err(GrepError::RowNotFound),
        Err(Some(line)) => found matches Err(GrepError::ColumnMissing(text)) && text@ == line,
    }
}

/// The rows that `v` holds.
pub open spec fn rows_of(v: Seq<Vec<char>>) -> Seq<Seq<char>> {
    Seq::new(v.len(), |i: int| v[i]@)
}

/// The lines of `s`.
fn split_lines(s: &Vec<char>) -> (out: Vec<Vec<char>>)
    ensures
        rows_of(out@) == lines(s@),
{
    let mut out: Vec<Vec<char>> = Vec::new();
    let mut start: usize = 0;
    let mut at: usize = 0;
    assert(rows_of(out@) + lines_from(s@, 0, 0) =~= lines(s@));
    while at < s.len()
        invariant
            start <= at <= s.len(),
            rows_of(out@) + lines_from(s@, at as int, start as int) == lines(s@),
        decreases s.len() - at,
    {
        if s[at] == '\n' {
            let end = if start < at && s[at - 1] == '\r' {
                at - 1
            } else {
                at
            };
            let line = copy_range(s, start, end);
            proof {
                let raw = s@.subrange(start as int, at as int);
                assert(line@ =~= without_carriage_return(raw));
                assert(rows_of(out@.push(line)) =~= rows_of(out@) + seq![line@]);
                assert((rows_of(out@) + seq![line@]) + lines_from(s@, at + 1, at + 1) =~= rows_of(
                    out@,
                ) + lines_from(s@, at as int, start as int));
            }
            out.push(line);
            start = at + 1;
        }
        at += 1;
    }
    if start < s.len() {
        let line = copy_range(s, start, s.len());
        proof {
            assert(rows_of(out@.push(line)) =~= rows_of(out@) + seq![line@]);
        }
        out.push(line);
    } else {
        assert(rows_of(out@) + Seq::<Seq<char>>::empty() =~= rows_of(out@));
    }
    out
}

/// The words of `s`.
fn split_words(s: &Vec<char>) -> (out: Vec<Vec<char>>)
    ensures
        rows_of(out@) == words(s@),
{
    let mut out: Vec<Vec<char>> = Vec::new();
    let mut start: usize = 0;
    let mut at: usize = 0;
    assert(rows_of(out@) + words_from(s@, 0, 0) =~= words(s@));
    while at < s.len()
        invariant
            start <= at <= s.len(),
            rows_of(out@) + words_from(s@, at as int, start as int) == words(s@),
        decreases s.len() - at,
    {
        if is_space_char(s[at]) {
            if start < at {
                let word = copy_range(s, start, at);
                proof {
                    assert(rows_of(out@.push(word)) =~= rows_of(out@) + seq![word@]);
                    assert((rows_of(out@) + seq![word@]) + words_from(s@, at + 1, at + 1)
                        =~= rows_of(out@) + words_from(s@, at as int, start as int));
                }
                out.push(word);
            } else {
                assert(Seq::<Seq<char>>::empty() + words_from(s@, at + 1, at + 1) =~= words_from(
                    s@,
                    at + 1,
                    at + 1,
                ));
            }
            start = at + 1;
        }
        at += 1;
    }
    if start < at {
        let word = copy_range(s, start, at);
        proof {
            assert(rows_of(out@.push(word)) =~= rows_of(out@) + seq![word@]);
        }
        out.push(word);
    } else {
        assert(rows_of(out@) + Seq::<Seq<char>>::empty() =~= rows_of(out@));
    }
    out
}

/// Tells whether `pat` occurs in `s`.
fn includes(s: &Vec<char>, pat: &Vec<char>) -> (found: bool)
    ensures
        found == contains(s@, pat@),
{
    let mut at: usize = 0;
    while at < s.len()
        invariant
            at <= s.len(),
            forall|k: int| 0 <= k < at ==> !occurs_at(s@, pat@, k),
        decreases s.len() - at,
    {
        if matches_at(s, pat, at) {
            return true;
        }
        at += 1;
    }
    matches_at(s, pat, at)
}

/// Searches `output` for the first line that contains `row_contains`,
/// splits that line at white space, and returns the word with index
/// `column`, counted from zero.
pub fn find_row_and_column(output: &str, row_contains: &str, column: usize) -> (found: Result<
    String,
    GrepError,
>)
    ensures
        same_finding(found, row_and_column(output@, row_contains@, column as int)),
{
    let text = to_chars(output);
    let pattern = to_chars(row_contains);
    let rows = split_lines(&text);
    let mut i: usize = 0;
    assert(rows_of(rows@).subrange(0, rows.len() as int) =~= rows_of(rows@));
    while i < rows.len()
        invariant
            i <= rows.len(),
            text@ == output@,
            pattern@ == row_contains@,
            rows_of(rows@) == lines(text@),
            first_row_with(rows_of(rows@).subrange(i as int, rows.len() as int), pattern@)
                == first_row_with(lines(text@), pattern@),
        decreases rows.len() - i,
    {
        let ghost rest = rows_of(rows@).subrange(i as int, rows.len() as int);
        assert(rest[0] == rows@[i as int]@);
        assert(rest.drop_first() =~= rows_of(rows@).subrange(i + 1, rows.len() as int));
        if includes(&rows[i], &pattern) {
            let cells = split_words(&rows[i]);
            assert(rows_of(cells@).len() == cells.len());
            if column < cells.len() {
                assert(rows_of(cells@)[column as int] == cells@[column as int]@);
                return Ok(from_chars(&cells[column]));
            } else {
                return Err(GrepError::ColumnMissing(from_chars(&rows[i])));
            }
        }
        i += 1;
    }
    assert(rows_of(rows@).subrange(rows.len() as int, rows.len() as int) =~= Seq::<
        Seq<char>,
    >::empty());
    Err(GrepError::RowNotFound)
}

/// What was found at the path of a file that a script needs.
#[derive(Clone, Copy, Debug, PartialEq, Eq, Structural)]
pub enum FileStatus {
    /// Nothing is there.
    Missing,
    /// Something is there that is not a file.
    NotAFile,
    /// A file is there.
    File,
}

/// The complaint about a file that was found in the state `status`, if
/// there is one to make.
pub open spec fn file_complaint(path: Seq<char>, status: FileStatus) -> Option<Seq<char>> {
    match status {
        FileStatus::Missing => Some("'"@ + path + "' not found"@),
        FileStatus::NotAFile => Some("'"@ + path + "' exists but isn't a file"@),
        FileStatus::File => None,
    }
}

/// What `found` holds, with every path as its text.
pub open spec fn files_view(found: Seq<(String, FileStatus)>) -> Seq<(Seq<char>, FileStatus)> {
    Seq::new(found.len(), |i: int| (found[i].0@, found[i].1))
}

/// The complaints about the first `n` of the files in `found`, in their
/// order.
pub open spec fn file_complaints(found: Seq<(Seq<char>, FileStatus)>, n: int) -> Seq<Seq<char>>
    decreases n,
{
    if n <= 0 {
        Seq::empty()
    } else {
        match file_complaint(found[n - 1].0, found[n - 1].1) {
            Some(complaint) => file_complaints(found, n - 1).push(complaint),
            None => file_complaints(found, n - 1),
        }
    }
}

/// Says what is wrong with the files that a script needs: `found` holds
/// their paths, each with what was found there. Each file that is missing
/// or is no file gets one line, in the order of `found`; the result is empty
/// if all are there.
pub fn check_file_prerequisites(found: &Vec<(String, FileStatus)>) -> (errors: Vec<String>)
    ensures
        errors.deep_view() == file_complaints(files_view(found@), found.len() as int),
{
    let mut errors: Vec<String> = Vec::new();
    let mut i: usize = 0;
    assert(errors.deep_view() =~= Seq::<Seq<char>>::empty());
    while i < found.len()
        invariant
            i <= found.len(),
            errors.deep_view() == file_complaints(files_view(found@), i as int),
        decreases found.len() - i,
    {
        let ghost before = errors.deep_view();
        assert(files_view(found@)[i as int] == (found[i as int].0@, found[i as int].1));
        match found[i].1 {
            FileStatus::Missing => {
                let mut line = "'".to_owned();
                line.append(found[i].0.as_str());
                line.append("' not found");
                errors.push(line);
                assert(errors.deep_view() =~= before.push(line@));
            },
            FileStatus::NotAFile => {
                let mut line = "'".to_owned();
                line.append(found[i].0.as_str());
                line.append("' exists but isn't a file");
                errors.push(line);
                assert(errors.deep_view() =~= before.push(line@));
            },
            FileStatus::File => {},
        }
        i += 1;
    }
    errors
}

/// `a` comes before `b` in the order of a dictionary whose alphabet is that
/// of the code points.
pub open spec fn comes_before(a: Seq<char>, b: Seq<char>) -> bool
    decreases a.len(),
{
    if b.len() == 0 {
        false
    } else if a.len() == 0 {
        true
    } else if a[0] != b[0] {
        (a[0] as u32) < (b[0] as u32)
    } else {
        comes_before(a.drop_first(), b.drop_first())
    }
}

/// Each entry of `names` comes before all that follow it, so that none
/// occurs twice.
pub open spec fn strictly_rising(names: Seq<Seq<char>>) -> bool {
    forall|i: int, j: int| 0 <= i < j < names.len() ==> comes_before(names[i], names[j])
}

/// Nothing comes before itself.
pub proof fn lemma_comes_before_is_strict(a: Seq<char>)
    ensures
        !comes_before(a, a),
    decreases a.len(),
{
    if a.len() > 0 {
        lemma_comes_before_is_strict(a.drop_first());
    }
}

/// What comes before something that comes before a third comes before the
/// third.
pub proof fn lemma_comes_before_is_transitive(a: Seq<char>, b: Seq<char>, c: Seq<char>)
    requires
        comes_before(a, b),
        comes_before(b, c),
    ensures
        comes_before(a, c),
    decreases a.len(),
{
    if a.len() > 0 && a[0] == b[0] && b[0] == c[0] {
        lemma_comes_before_is_transitive(a.drop_first(), b.drop_first(), c.drop_first());
    }
}

/// How one name stands to another.
enum Order {
    Before,
    Same,
    After,
}

/// How the character `a` stands to the character `b`.
fn char_order(a: char, b: char) -> (order: Order)
    ensures
        match order {
            Order::Before => (a as u32) < (b as u32),
            Order::Same => a == b,
            Order::After => (b as u32) < (a as u32),
        },
{
    if a == b {
        Order::Same
    } else if (a as u32) < (b as u32) {
        Order::Before
    } else {
        Order::After
    }
}

/// How `a` stands to `b`.
fn order_of(a: &Vec<char>, b: &Vec<char>) -> (order: Order)
    ensures
        match order {
            Order::Before => comes_before(a@, b@),
            Order::Same => a@ == b@,
            Order::After => comes_before(b@, a@),
        },
{
    let mut i: usize = 0;
    assert(a@.subrange(0, a.len() as int) =~= a@);
    assert(b@.subrange(0, b.len() as int) =~= b@);
    while i < a.len() && i < b.len()
        invariant
            i <= a.len(),
            i <= b.len(),
            a@.subrange(0, i as int) == b@.subrange(0, i as int),
            comes_before(a@, b@) == comes_before(
                a@.subrange(i as int, a.len() as int),
                b@.subrange(i as int, b.len() as int),
            ),
            comes_before(b@, a@) == comes_before(
                b@.subrange(i as int, b.len() as int),
                a@.subrange(i as int, a.len() as int),
            ),
        decreases a.len() - i,
    {
        let ghost rest_a = a@.subrange(i as int, a.len() as int);
        let ghost rest_b = b@.subrange(i as int, b.len() as int);
        assert(rest_a[0] == a@[i as int] && rest_b[0] == b@[i as int]);
        match char_order(a[i], b[i]) {
            Order::Before => {
                return Order::Before;
            },
            Order::After => {
                return Order::After;
            },
            Order::Same => {},
        }
        proof {
            assert(rest_a.drop_first() =~= a@.subrange(i + 1, a.len() as int));
            assert(rest_b.drop_first() =~= b@.subrange(i + 1, b.len() as int));
            assert(a@.subrange(0, i + 1) =~= a@.subrange(0, i as int).push(a@[i as int]));
            assert(b@.subrange(0, i + 1) =~= b@.subrange(0, i as int).push(b@[i as int]));
        }
        i += 1;
    }
    if i < b.len() {
        Order::Before
    } else if i < a.len() {
        Order::After
    } else {
        assert(a@ =~= a@.subrange(0, i as int));
        assert(b@ =~= b@.subrange(0, i as int));
        Order::Same
    }
}

/// Puts `name` in its place among `names`, unless it is there already.
fn insert_in_order(names: &mut Vec<&'static str>, name: &'static str)
    requires
        strictly_rising(old(names).deep_view()),
    ensures
        strictly_rising(final(names).deep_view()),
        forall|c: Seq<char>|
            #[trigger] final(names).deep_view().contains(c) <==> (old(names).deep_view().contains(
                c,
            ) || c == name@),
{
    let ghost before = names.deep_view();
    let word = to_chars(name);
    let mut p: usize = 0;
    while p < names.len()
        invariant
            p <= names.len(),
            word@ == name@,
            names.deep_view() == before,
            before == old(names).deep_view(),
            strictly_rising(before),
            forall|i: int| 0 <= i < p ==> comes_before(before[i], name@),
        decreases names.len() - p,
    {
        let here = to_chars(names[p]);
        assert(before[p as int] == names[p as int]@);
        match order_of(&here, &word) {
            Order::Before => {
                p += 1;
            },
            Order::Same => {
                assert(before.contains(name@));
                return ;
            },
            Order::After => {
                names.insert(p, name);
                proof {
                    let after = names.deep_view();
                    assert(after =~= before.insert(p as int, name@));
                    assert forall|i: int, j: int| 0 <= i < j < after.len() implies comes_before(
                        after[i],
                        after[j],
                    ) by {
                        if j == p {
                        } else if i == p {
                            if j - 1 > p {
                                lemma_comes_before_is_transitive(
                                    name@,
                                    before[p as int],
                                    before[j - 1],
                                );
                            }
                        } else if i < p && j > p {
                            assert(comes_before(before[i], before[j - 1]));
                        } else if i < p {
                            assert(comes_before(before[i], before[j]));
                        } else {
                            assert(comes_before(before[i - 1], before[j - 1]));
                        }
                    }
                    lemma_insert_contains(before, p as int, name@);
                    assert forall|c: Seq<char>| after.contains(c) <==> (before.contains(c) || c
                        == name@) by {}
                }
                return ;
            },
        }
    }
    names.push(name);
    proof {
        let after = names.deep_view();
        assert(after =~= before.insert(p as int, name@));
        lemma_insert_contains(before, p as int, name@);
        assert forall|c: Seq<char>| after.contains(c) <==> (before.contains(c) || c
            == name@) by {}
    }
}

/// A sequence with one more entry holds what it held, and the new entry.
proof fn lemma_insert_contains(before: Seq<Seq<char>>, p: int, name: Seq<char>)
    requires
        0 <= p <= before.len(),
    ensures
        forall|c: Seq<char>|
            #[trigger] before.insert(p, name).contains(c) <==> (before.contains(c) || c == name),
{
    let after = before.insert(p, name);
    assert forall|c: Seq<char>| after.contains(c) <==> (before.contains(c) || c == name) by {
        if after.contains(c) {
            let k = choose|k: int| 0 <= k < after.len() && after[k] == c;
            if k < p {
                assert(before[k] == c);
            } else if k > p {
                assert(before[k - 1] == c);
            }
        }
        if before.contains(c) {
            let k = choose|k: int| 0 <= k < before.len() && before[k] == c;
            if k < p {
                assert(after[k] == c);
            } else {
                assert(after[k + 1] == c);
            }
        }
        if c == name {
            assert(after[p] == c);
        }
    }
}

/// Some step among the first `n` of `steps` expects to launch `command`.
pub open spec fn is_required<A>(steps: Seq<ScriptStep<A>>, n: int, command: Seq<char>) -> bool {
    exists|i: int|
        0 <= i < n && i < steps.len() && #[trigger] steps[i].commands_view().contains(command)
}

/// The commands that the steps expect to launch, each once, in the order of
/// a dictionary.
pub fn required_commands<A>(steps: &[ScriptStep<A>]) -> (commands: Vec<&'static str>)
    ensures
        strictly_rising(commands.deep_view()),
        forall|c: Seq<char>|
            #[trigger] commands.deep_view().contains(c) <==> is_required(
                steps@,
                steps.len() as int,
                c,
            ),
{
    let mut commands: Vec<&'static str> = Vec::new();
    let mut i: usize = 0;
    assert(commands.deep_view() =~= Seq::<Seq<char>>::empty());
    while i < steps.len()
        invariant
            i <= steps.len(),
            strictly_rising(commands.deep_view()),
            forall|c: Seq<char>|
                #[trigger] commands.deep_view().contains(c) <==> is_required(steps@, i as int, c),
        decreases steps.len() - i,
    {
        let wanted = steps[i].prereq_commands();
        let ghost all = steps@[i as int].commands_view();
        let ghost earlier = commands.deep_view();
        let mut j: usize = 0;
        while j < wanted.len()
            invariant
                j <= wanted.len(),
                i < steps.len(),
                wanted.deep_view() == all,
                all == steps@[i as int].commands_view(),
                strictly_rising(commands.deep_view()),
                forall|c: Seq<char>|
                    #[trigger] commands.deep_view().contains(c) <==> (earlier.contains(c)
                        || all.take(j as int).contains(c)),
            decreases wanted.len() - j,
        {
            let ghost held = commands.deep_view();
            assert(all[j as int] == wanted[j as int]@);
            insert_in_order(&mut commands, wanted[j]);
            proof {
                let seen = all.take(j as int);
                let more = all.take(j + 1);
                let now = commands.deep_view();
                assert(seen.insert(j as int, all[j as int]) =~= more);
                lemma_insert_contains(seen, j as int, all[j as int]);
                assert forall|c: Seq<char>| now.contains(c) <==> (earlier.contains(c)
                    || more.contains(c)) by {
                    assert(now.contains(c) <==> (held.contains(c) || c == all[j as int]));
                    assert(held.contains(c) <==> (earlier.contains(c) || seen.contains(c)));
                    assert(more.contains(c) <==> (seen.contains(c) || c == all[j as int]));
                }
            }
            j += 1;
        }
        proof {
            assert(all.take(wanted.len() as int) =~= all);
            assert forall|c: Seq<char>| commands.deep_view().contains(c) <==> is_required(
                steps@,
                i + 1,
                c,
            ) by {
                if is_required(steps@, i + 1, c) {
                    let k = choose|k: int|
                        0 <= k < i + 1 && k < steps.len()
                            && #[trigger] steps@[k].commands_view().contains(c);
                    if k < i {
                        assert(is_required(steps@, i as int, c));
                    }
                }
                if earlier.contains(c) {
                    assert(is_required(steps@, i as int, c));
                    let k = choose|k: int|
                        0 <= k < i && k < steps.len()
                            && #[trigger] steps@[k].commands_view().contains(c);
                    assert(steps@[k].commands_view().contains(c));
                }
                if all.contains(c) {
                    assert(steps@[i as int].commands_view().contains(c));
                }
            }
        }
        i += 1;
    }
    commands
}

/// The complaint about a command that was looked for and not found, with
/// the reason that the search gave.
pub open spec fn command_complaint(command: Seq<char>, reason: Seq<char>) -> Seq<char> {
    "binary or command '"@ + command + "' not found (is it on your PATH?): "@ + reason
}

/// What `found` holds, with every command and every reason as its text.
pub open spec fn commands_view(found: Seq<(&'static str, Option<String>)>) -> Seq<
    (Seq<char>, Option<Seq<char>>),
> {
    Seq::new(
        found.len(),
        |i: int|
            (
                found[i].0@,
                match found[i].1 {
                    Some(reason) => Some(reason@),
                    None => None,
                },
            ),
    )
}

/// The complaints about the first `n` of the commands in `found`, in their
/// order.
pub open spec fn command_complaints(found: Seq<(Seq<char>, Option<Seq<char>>)>, n: int) -> Seq<
    Seq<char>,
>
    decreases n,
{
    if n <= 0 {
        Seq::empty()
    } else {
        match found[n - 1].1 {
            Some(reason) => command_complaints(found, n - 1).push(
                command_complaint(found[n - 1].0, reason),
            ),
            None => command_complaints(found, n - 1),
        }
    }
}

/// Says which of the commands that a script launches were not found:
/// `found` holds the commands, each with the reason why it was not found,
/// or with `None` if it was. Each command that was not found gets one line,
/// in the order of `found`.
pub fn check_executable_prerequisites(found: &Vec<(&'static str, Option<String>)>) -> (errors:
    Vec<String>)
    ensures
        errors.deep_view() == command_complaints(commands_view(found@), found.len() as int),
{
    let mut errors: Vec<String> = Vec::new();
    let mut i: usize = 0;
    assert(errors.deep_view() =~= Seq::<Seq<char>>::empty());
    while i < found.len()
        invariant
            i <= found.len(),
            errors.deep_view() == command_complaints(commands_view(found@), i as int),
        decreases found.len() - i,
    {
        let ghost before = errors.deep_view();
        if let Some(reason) = &found[i].1 {
            assert(commands_view(found@)[i as int] == (found[i as int].0@, Some(reason@)));
            let mut line = "binary or command '".to_owned();
            line.append(found[i].0);
            line.append("' not found (is it on your PATH?): ");
            line.append(reason.as_str());
            errors.push(line);
            assert(errors.deep_view() =~= before.push(line@));
        } else {
            assert(commands_view(found@)[i as int].1 is None);
        }
        i += 1;
    }
    errors
}

/// Puts together what a script found missing: the complaints about its
/// required files and about its commands are errors, those about its
/// optional files are warnings.
pub fn check_prerequisites(
    required: &Vec<(String, FileStatus)>,
    optional: &Vec<(String, FileStatus)>,
    commands: &Vec<(&'static str, Option<String>)>,
) -> (missing: MissingPrerequisites)
    ensures
        missing.errors_view() == file_complaints(files_view(required@), required.len() as int)
            + command_complaints(commands_view(commands@), commands.len() as int),
        missing.warnings_view() == file_complaints(
            files_view(optional@),
            optional.len() as int,
        ),
{
    let mut errors = check_file_prerequisites(required);
    let warnings = check_file_prerequisites(optional);
    let mut more = check_executable_prerequisites(commands);
    let ghost files = errors.deep_view();
    let ghost executables = more.deep_view();
    errors.append(&mut more);
    assert(errors.deep_view() =~= files + executables);
    MissingPrerequisites::from_messages(errors, warnings)
}

} // verus!
