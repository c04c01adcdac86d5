//! The formatter: two selections, a subject and an optional body become one
//! commit message.

use vstd::prelude::*;
use vstd::string::*;
use crate::commit_types::CommitType;
use crate::semver::SemverType;

verus! {

/// What stands before the subject: `{impact}-{category}: {glyph} `.
pub open spec fn prefix(impact: SemverType, category: CommitType) -> Seq<char> {
    impact.spec_name() + "-"@ + category.spec_name() + ": "@ + category.spec_emoji() + " "@
}

/// The first line of a message: the prefix and the subject.
pub open spec fn subject_line(
    impact: SemverType,
    category: CommitType,
    subject: Seq<char>,
) -> Seq<char> {
    prefix(impact, category) + subject
}

/// The commit message: the subject line alone when there is no body,
/// otherwise the subject line, one blank line and the body. Nothing follows.
pub open spec fn formatted(
    impact: SemverType,
    category: CommitType,
    subject: Seq<char>,
    body: Seq<char>,
) -> Seq<char> {
    if body.len() == 0 {
        subject_line(impact, category, subject)
    } else {
        subject_line(impact, category, subject) + "\n\n"@ + body
    }
}

/// Assembles the commit message. The subject is taken as it is given: the
/// caller is the one who refuses an empty subject.
pub fn format_message(impact: SemverType, category: CommitType, subject: &str, body: &str) -> (r:
    String)
    ensures
        r@ == formatted(impact, category, subject@, body@),
{
    let mut r = impact.to_string();
    r.append("-");
    r.append(category.name());
    r.append(": ");
    r.append(category.emoji());
    r.append(" ");
    r.append(subject);
    if !body.is_empty() {
        r.append("\n\n");
        r.append(body);
    }
    r
}

/// Without a body the message is exactly `{impact}-{category}: {glyph}
/// {subject}`: it ends with the subject, and no body section follows.
pub proof fn lemma_message_without_body(
    impact: SemverType,
    category: CommitType,
    subject: Seq<char>,
)
    ensures
        formatted(impact, category, subject, Seq::empty()) == impact.spec_name() + "-"@
            + category.spec_name() + ": "@ + category.spec_emoji() + " "@ + subject,
        formatted(impact, category, subject, Seq::empty()).len() == prefix(impact, category).len()
            + subject.len(),
        formatted(impact, category, subject, Seq::empty()).skip(
            prefix(impact, category).len() as int,
        ) == subject,
{
    let m = formatted(impact, category, subject, Seq::empty());
    assert(m.skip(prefix(impact, category).len() as int) =~= subject);
}

/// With a body, the message is the body-less message, then exactly two
/// newline characters, then the body unchanged, whatever newlines the body
/// holds itself.
pub proof fn lemma_message_with_body(
    impact: SemverType,
    category: CommitType,
    subject: Seq<char>,
    body: Seq<char>,
)
    requires
        body.len() > 0,
    ensures
        ({
            let head = formatted(impact, category, subject, Seq::empty());
            let m = formatted(impact, category, subject, body);
            &&& m.len() == head.len() + 2 + body.len()
            &&& m.subrange(0, head.len() as int) == head
            &&& m[head.len() as int] == '\n'
            &&& m[head.len() as int + 1] == '\n'
            &&& m.skip(head.len() as int + 2) == body
        }),
{
    reveal_strlit("\n\n");
    let head = formatted(impact, category, subject, Seq::empty());
    let m = formatted(impact, category, subject, body);
    assert(m.subrange(0, head.len() as int) =~= head);
    assert(m.skip(head.len() as int + 2) =~= body);
}

} // verus!
