use semantic_git_cz::commit_types::CommitType;
use semantic_git_cz::message::format_message;
use semantic_git_cz::semver::SemverType;

#[test]
fn message_without_body_is_one_line() {
    assert_eq!(
        format_message(SemverType::Patch, CommitType::Feat, "add user authentication", ""),
        "patch-feat: ✨ add user authentication"
    );
}

#[test]
fn message_with_body_has_one_blank_line() {
    assert_eq!(
        format_message(
            SemverType::Major,
            CommitType::Fix,
            "remove legacy API",
            "Drops the v1 endpoint.\nClients must migrate to v2."
        ),
        "major-fix: 🐛 remove legacy API\n\nDrops the v1 endpoint.\nClients must migrate to v2."
    );
}

#[test]
fn message_has_no_trailing_newline() {
    let plain = format_message(SemverType::Minor, CommitType::Docs, "describe the menu", "");
    assert!(!plain.ends_with('\n'));
    let full = format_message(SemverType::Minor, CommitType::Docs, "describe the menu", "Why.");
    assert!(full.ends_with("Why."));
}

#[test]
fn message_is_the_same_for_the_same_input() {
    let first = format_message(SemverType::Minor, CommitType::Perf, "cache lookups", "Twice as fast.");
    let second = format_message(SemverType::Minor, CommitType::Perf, "cache lookups", "Twice as fast.");
    assert_eq!(first, second);
}

#[test]
fn message_covers_every_pair_of_selections() {
    for impact in SemverType::all() {
        for category in CommitType::all() {
            let expected = format!(
                "{}-{}: {} {}",
                impact.to_string(),
                category.to_string(),
                category.emoji(),
                "subject"
            );
            assert_eq!(format_message(impact, category, "subject", ""), expected);
            let with_body = format!("{}\n\n{}", expected, "body\ntext");
            assert_eq!(format_message(impact, category, "subject", "body\ntext"), with_body);
        }
    }
}

#[test]
fn message_body_starts_right_after_two_newlines() {
    let head = format_message(SemverType::Patch, CommitType::Ci, "pin the runner", "");
    let full = format_message(SemverType::Patch, CommitType::Ci, "pin the runner", "\nkept as typed ");
    assert_eq!(&full[..head.len()], head);
    assert_eq!(&full[head.len()..head.len() + 2], "\n\n");
    assert_eq!(&full[head.len() + 2..], "\nkept as typed ");
}

#[test]
fn message_takes_the_subject_as_given() {
    assert_eq!(
        format_message(SemverType::Patch, CommitType::Refactor, "", ""),
        "patch-refactor: ♻️ "
    );
    assert_eq!(
        format_message(SemverType::Major, CommitType::Style, " spaced ", ""),
        "major-style: 💎  spaced "
    );
}
