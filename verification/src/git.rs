//! What is computed from the version-control tool's answers: the list of
//! staged paths out of its output, and the outcome of a run.

use vstd::prelude::*;
use vstd::string::*;
use crate::text::{chars_of, string_of};
use crate::AppError;

verus! {

/// Where the first line of `s` ends: the position of its first newline, or
/// its length if it holds none.
pub open spec fn line_end(s: Seq<char>) -> int
    decreases s.len(),
{
    if s.len() == 0 || s.first() == '\n' {
        0
    } else {
        1 + line_end(s.drop_first())
    }
}

/// A line without the carriage return that stood before its newline.
pub open spec fn without_carriage_return(line: Seq<char>) -> Seq<char> {
    if line.len() > 0 && line.last() == '\r' {
        line.drop_last()
    } else {
        line
    }
}

/// The lines of `s`. A line ends with a newline, or with a carriage return
/// and a newline; neither belongs to the line. What follows the last newline
/// is a line too, unless it is empty.
pub open spec fn lines(s: Seq<char>) -> Seq<Seq<char>>
    decreases s.len(),
{
    let end = line_end(s);
    if s.len() == 0 {
        seq![]
    } else if 0 <= end < s.len() {
        seq![without_carriage_return(s.take(end))] + lines(s.skip(end + 1))
    } else {
        seq![s]
    }
}

/// The staged paths that the tool's output names: its lines that are not
/// empty, in order.
pub open spec fn staged_files(output: Seq<char>) -> Seq<Seq<char>> {
    lines(output).filter(|line: Seq<char>| line.len() > 0)
}

/// The first line ends within the string, at a newline if before the end,
/// and holds no newline itself.
proof fn lemma_line_end(s: Seq<char>)
    ensures
        0 <= line_end(s) <= s.len(),
        line_end(s) < s.len() ==> s[line_end(s)] == '\n',
        forall|i: int| 0 <= i < line_end(s) ==> s[i] != '\n',
    decreases s.len(),
{
    if s.len() == 0 || s.first() == '\n' {
    } else {
        let rest = s.drop_first();
        lemma_line_end(rest);
        assert forall|i: int| 0 <= i < line_end(s) implies s[i] != '\n' by {
            if i > 0 {
                assert(s[i] == rest[i - 1]);
            }
        }
    }
}

/// The first line ends at `k` when a newline stands at `k` and none before.
proof fn lemma_line_end_is(s: Seq<char>, k: int)
    requires
        0 <= k <= s.len(),
        k < s.len() ==> s[k] == '\n',
        forall|i: int| 0 <= i < k ==> s[i] != '\n',
    ensures
        line_end(s) == k,
{
    lemma_line_end(s);
    let e = line_end(s);
    if e < k {
        assert(s[e] == '\n');
    } else if k < e {
        assert(s[k] != '\n');
    }
}

/// No line holds a newline.
proof fn lemma_lines_hold_no_newline(s: Seq<char>)
    ensures
        forall|i: int|
            0 <= i < lines(s).len() ==> !(#[trigger] lines(s)[i]).contains('\n'),
    decreases s.len(),
{
    lemma_line_end(s);
    let end = line_end(s);
    if s.len() == 0 {
    } else if end < s.len() {
        let first = without_carriage_return(s.take(end));
        let rest = lines(s.skip(end + 1));
        lemma_lines_hold_no_newline(s.skip(end + 1));
        assert forall|i: int| 0 <= i < lines(s).len() implies !(#[trigger] lines(s)[i]).contains(
            '\n',
        ) by {
            if i == 0 {
                if first.contains('\n') {
                    let j = choose|j: int| 0 <= j < first.len() && first[j] == '\n';
                    assert(s[j] == '\n');
                }
            } else {
                assert(lines(s)[i] == rest[i - 1]);
            }
        }
    } else {
        assert(!s.contains('\n')) by {
            if s.contains('\n') {
                let j = choose|j: int| 0 <= j < s.len() && s[j] == '\n';
                assert(s[j] == '\n');
            }
        }
    }
}

/// Every staged path is a line of the output: it is not empty and holds no
/// newline.
pub proof fn lemma_staged_files_are_lines(output: Seq<char>, i: int)
    requires
        0 <= i < staged_files(output).len(),
    ensures
        staged_files(output)[i].len() > 0,
        !staged_files(output)[i].contains('\n'),
        lines(output).contains(staged_files(output)[i]),
{
    let keep = |line: Seq<char>| line.len() > 0;
    let path = staged_files(output)[i];
    lines(output).lemma_filter_pred(keep, i);
    assert(staged_files(output).contains(path));
    lines(output).lemma_filter_contains_rev(keep, path);
    lemma_lines_hold_no_newline(output);
}

/// Splits the output of the staged-files query into the paths it names.
pub fn parse_staged_files(output: &str) -> (files: Vec<String>)
    ensures
        files.deep_view() == staged_files(output@),
{
    let chars = chars_of(output);
    let n: usize = chars.len();
    let mut files: Vec<String> = Vec::new();
    let mut start: usize = 0;
    let ghost keep = |line: Seq<char>| line.len() > 0;
    proof {
        assert(chars@.skip(0) == chars@);
        assert(files.deep_view() =~= Seq::<Seq<char>>::empty());
    }
    while start < n
        invariant
            start <= n,
            n == chars@.len(),
            chars@ == output@,
            keep == |line: Seq<char>| line.len() > 0,
            staged_files(output@) == files.deep_view() + lines(chars@.skip(start as int)).filter(
                keep,
            ),
        decreases n - start,
    {
        let ghost rest = chars@.skip(start as int);
        let ghost before = files.deep_view();
        let mut end: usize = start;
        while end < n && chars[end] != '\n'
            invariant
                start <= end <= n,
                n == chars@.len(),
                forall|i: int| start <= i < end ==> chars@[i] != '\n',
            decreases n - end,
        {
            end += 1;
        }
        proof {
            lemma_line_end_is(rest, end - start);
        }
        let stop: usize = if end < n && end > start && chars[end - 1] == '\r' {
            end - 1
        } else {
            end
        };
        let line = string_of(&chars, start, stop);
        let next: usize = if end < n {
            end + 1
        } else {
            end
        };
        proof {
            let first = if end < n {
                without_carriage_return(rest.take(end - start))
            } else {
                rest
            };
            assert(rest.take(end - start) == chars@.subrange(start as int, end as int));
            assert(line@ == first);
            let tail = chars@.skip(next as int);
            if end < n {
                assert(rest.skip(end - start + 1) == tail);
            } else {
                assert(tail.len() == 0);
            }
            assert(lines(rest) == seq![first] + lines(tail));
            Seq::filter_distributes_over_add(seq![first], lines(tail), keep);
            reveal_with_fuel(Seq::filter, 2);
            assert(seq![first].drop_last() == Seq::<Seq<char>>::empty());
            assert(seq![first].filter(keep) == if first.len() > 0 {
                seq![first]
            } else {
                Seq::<Seq<char>>::empty()
            });
        }
        if !line.as_str().is_empty() {
            files.push(line);
            assert(files.deep_view() =~= before.push(line@));
        }
        start = next;
        assert(staged_files(output@) =~= files.deep_view() + lines(
            chars@.skip(start as int),
        ).filter(keep));
    }
    proof {
        assert(lines(chars@.skip(start as int)) == Seq::<Seq<char>>::empty());
        assert(files.deep_view() + Seq::<Seq<char>>::empty() =~= files.deep_view());
    }
    files
}

/// What a run of the tool amounts to: success when the tool reported
/// success, otherwise a failure that carries its diagnostic text unchanged.
pub fn tool_outcome(success: bool, diagnostic: String) -> (r: Result<(), AppError>)
    ensures
        success ==> r is Ok,
        !success ==> r == Err::<(), AppError>(AppError::Git(diagnostic)),
{
    if success {
        Ok(())
    } else {
        Err(AppError::Git(diagnostic))
    }
}

} // verus!
