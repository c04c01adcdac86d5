use semantic_git_cz::git::{tool_outcome, parse_staged_files};
use semantic_git_cz::AppError;

#[test]
fn test_staged_files_parsing() {
    let mock_output = "file1.rs\nfile2.rs\n\nfile3.rs\n";
    let files: Vec<String> = parse_staged_files(mock_output);

    assert_eq!(files.len(), 3);
    assert_eq!(files[0], "file1.rs");
    assert_eq!(files[1], "file2.rs");
    assert_eq!(files[2], "file3.rs");
}

#[test]
fn staged_files_of_empty_output_are_none() {
    assert!(parse_staged_files("").is_empty());
    assert!(parse_staged_files("\n").is_empty());
    assert!(parse_staged_files("\n\n\r\n").is_empty());
}

#[test]
fn staged_files_last_line_needs_no_newline() {
    assert_eq!(parse_staged_files("a.rs\nb.rs"), vec!["a.rs", "b.rs"]);
    assert_eq!(parse_staged_files("only.rs"), vec!["only.rs"]);
}

#[test]
fn staged_files_lose_the_carriage_return_before_a_newline_only() {
    assert_eq!(parse_staged_files("a.rs\r\nb.rs\r\n"), vec!["a.rs", "b.rs"]);
    assert_eq!(parse_staged_files("a.rs\r"), vec!["a.rs\r"]);
    assert_eq!(parse_staged_files("a\rb\n"), vec!["a\rb"]);
    assert_eq!(parse_staged_files("a\r\r\n"), vec!["a\r"]);
}

#[test]
fn staged_files_agree_with_the_standard_line_splitter() {
    let samples = [
        "",
        "\n",
        "x",
        "x\n",
        "x\r\n",
        "x\r",
        "\r",
        "\r\n",
        "src/main.rs\nsrc/lib.rs\n",
        "a\n\nb\n\n\nc",
        "päth/ünïcode ✨.rs\nother file.txt\n",
        " spaced \n\t\n",
    ];
    for sample in samples {
        let expected: Vec<String> = sample
            .lines()
            .filter(|line| !line.is_empty())
            .map(|s| s.to_string())
            .collect();
        assert_eq!(parse_staged_files(sample), expected, "for {:?}", sample);
    }
}

#[test]
fn tool_outcome_is_ok_on_success() {
    assert!(tool_outcome(true, String::new()).is_ok());
    assert!(tool_outcome(true, "warning: ignored".to_string()).is_ok());
}

#[test]
fn tool_outcome_carries_the_diagnostic_on_failure() {
    match tool_outcome(false, "nothing to commit".to_string()) {
        Err(AppError::Git(detail)) => assert_eq!(detail, "nothing to commit"),
        other => panic!("expected a Git error, got {:?}", other),
    }
}
