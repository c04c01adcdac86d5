use semantic_git_cz::prompts::{body_step, menu, reply, select_step, Selection, SELECT_PROMPT};
use semantic_git_cz::session::{Action, Directive, Event, Outcome, Session, Stage};
use semantic_git_cz::AppError;

/// A scripted stand-in for the console and the repository.
struct World {
    repository: bool,
    staged: bool,
    files: Vec<String>,
    lines: Vec<String>,
    next_line: usize,
    commit_fails_with: Option<String>,
    console: String,
    commits: Vec<String>,
}

impl World {
    fn new(lines: &[&str]) -> World {
        World {
            repository: true,
            staged: true,
            files: vec!["src/main.rs".to_string()],
            lines: lines.iter().map(|s| s.to_string()).collect(),
            next_line: 0,
            commit_fails_with: None,
            console: String::new(),
            commits: Vec::new(),
        }
    }

    fn read_line(&mut self) -> Option<String> {
        let line = self.lines.get(self.next_line).map(|s| format!("{}\n", s));
        self.next_line += 1;
        line
    }

    fn prompt(&mut self, label: &str) -> Result<String, AppError> {
        self.console.push_str(label);
        let line = self.read_line();
        reply(line.as_deref())
    }

    fn select(&mut self, label: &str, items: &Vec<String>, descriptions: &Vec<String>) -> Result<usize, AppError> {
        self.console.push_str(&menu(label, items, Some(descriptions)));
        loop {
            let answer = self.prompt(SELECT_PROMPT)?;
            match select_step(items.len(), &answer) {
                Selection::Chosen(index) => return Ok(index),
                Selection::Retry(line) => {
                    self.console.push_str(&line);
                    self.console.push('\n');
                }
            }
        }
    }

    fn prompt_multiline(&mut self, label: &str) -> String {
        self.console.push_str(label);
        self.console.push('\n');
        let mut body = String::new();
        loop {
            let line = self.read_line();
            if !body_step(&mut body, line.as_deref()) {
                return body;
            }
        }
    }

    fn perform(&mut self, action: Action) -> Result<Event, Result<Outcome, AppError>> {
        let event = match action {
            Action::CheckRepository => Event::Flag(self.repository),
            Action::CheckStaged => Event::Flag(self.staged),
            Action::ListStaged => Event::Files(self.files.clone()),
            Action::Select { label, items, descriptions } => {
                match self.select(&label, &items, &descriptions) {
                    Ok(index) => Event::Choice(index),
                    Err(error) => Event::Failed(error),
                }
            }
            Action::Prompt { label } => match self.prompt(&label) {
                Ok(text) => Event::Text(text),
                Err(error) => Event::Failed(error),
            },
            Action::PromptMultiline { label } => Event::Text(self.prompt_multiline(&label)),
            Action::Commit { message } => {
                self.commits.push(message);
                match self.commit_fails_with.take() {
                    Some(diagnostic) => Event::Failed(AppError::Git(diagnostic)),
                    None => Event::Committed,
                }
            }
            Action::Finish(outcome) => return Err(Ok(outcome)),
            Action::Abort(error) => return Err(Err(error)),
        };
        Ok(event)
    }

    fn run(&mut self) -> Result<Outcome, AppError> {
        let (mut session, mut directive) = Session::start();
        loop {
            let Directive { output, action } = directive;
            self.console.push_str(&output);
            match self.perform(action) {
                Ok(event) => {
                    directive = session.step(event).expect("the event answers the directive");
                }
                Err(result) => {
                    assert_eq!(session.stage(), Stage::Done);
                    return result;
                }
            }
        }
    }
}

#[test]
fn session_commits_after_yes() {
    let mut world = World::new(&["3", "2", "null pointer crash", "", "yes"]);
    let outcome = world.run();
    assert!(matches!(outcome, Ok(Outcome::Committed)));
    assert_eq!(world.commits, vec!["patch-fix: 🐛 null pointer crash"]);
    assert!(world.console.ends_with("\n✅ Commit created successfully!\n"));
}

#[test]
fn session_cancels_after_n() {
    let mut world = World::new(&["3", "2", "null pointer crash", "", "n"]);
    let outcome = world.run();
    assert!(matches!(outcome, Ok(Outcome::Cancelled)));
    assert!(world.commits.is_empty());
    assert!(world.console.ends_with("\n❌ Commit cancelled\n"));
}

#[test]
fn session_shows_the_whole_dialogue() {
    let mut world = World::new(&["0", "1", "9", "speed up parsing", "Uses one pass.", "No more copies.", "", "Y"]);
    world.files = vec!["src/text.rs".to_string(), "README.md".to_string()];
    let outcome = world.run();
    assert!(matches!(outcome, Ok(Outcome::Committed)));
    let expected = "\
Semantic Git-CZ - Create semantic commit messages

Staged files:
  - src/text.rs
  - README.md

Select the semantic version type:
  1. major - Breaking changes (incompatible API changes)
  2. minor - New features (backwards compatible)
  3. patch - Bug fixes (backwards compatible)
Select an option: Please enter a valid number between 1 and 3
Select an option: 
Select the commit type:
  1. feat - ✨ A new feature
  2. fix - 🐛 A bug fix
  3. docs - 📚 Documentation only changes
  4. style - 💎 Changes that do not affect the meaning of the code
  5. refactor - ♻️ A code change that neither fixes a bug nor adds a feature
  6. test - 🧪 Adding missing tests or correcting existing tests
  7. chore - 🔧 Changes to the build process or auxiliary tools
  8. ci - 🚀 Changes to CI configuration files and scripts
  9. perf - ⚡ A code change that improves performance
Select an option: 
Enter commit message (subject): 
Enter commit body (optional):

Commit message preview:
  major-perf: ⚡ speed up parsing

Uses one pass.
No more copies.

Confirm commit? (y/n): 
✅ Commit created successfully!
";
    assert_eq!(world.console, expected);
    assert_eq!(
        world.commits,
        vec!["major-perf: ⚡ speed up parsing\n\nUses one pass.\nNo more copies."]
    );
}

#[test]
fn session_stops_outside_a_repository_before_any_question() {
    let mut world = World::new(&["3", "2", "subject", "", "yes"]);
    world.repository = false;
    match world.run() {
        Err(AppError::Git(detail)) => assert_eq!(detail, "Not in a git repository"),
        other => panic!("expected a Git error, got {:?}", other),
    }
    assert_eq!(world.console, "");
    assert_eq!(world.next_line, 0);
    assert!(world.commits.is_empty());
}

#[test]
fn session_stops_without_staged_changes_before_any_question() {
    let mut world = World::new(&["3", "2", "subject", "", "yes"]);
    world.staged = false;
    match world.run() {
        Err(AppError::Git(detail)) => assert_eq!(detail, "No staged changes to commit"),
        other => panic!("expected a Git error, got {:?}", other),
    }
    assert_eq!(world.console, "");
    assert_eq!(world.next_line, 0);
    assert!(world.commits.is_empty());
}

#[test]
fn session_shows_nothing_extra_without_staged_paths() {
    let mut world = World::new(&["1", "1", "subject", "", "no"]);
    world.files = Vec::new();
    let outcome = world.run();
    assert!(matches!(outcome, Ok(Outcome::Cancelled)));
    assert!(world.console.starts_with(
        "Semantic Git-CZ - Create semantic commit messages\n\nSelect the semantic version type:\n"
    ));
    assert!(!world.console.contains("Staged files:"));
}

#[test]
fn session_refuses_an_empty_subject_without_asking_again() {
    let mut world = World::new(&["3", "2", "   ", "never read", "yes"]);
    match world.run() {
        Err(AppError::InvalidInput(detail)) => assert_eq!(detail, "Commit subject cannot be empty"),
        other => panic!("expected invalid input, got {:?}", other),
    }
    assert_eq!(world.next_line, 3);
    assert!(world.commits.is_empty());
    assert!(world.console.ends_with("Enter commit message (subject): "));
}

#[test]
fn session_refuses_the_empty_subject_itself() {
    let (mut session, _) = Session::start();
    session.step(Event::Flag(true)).unwrap();
    session.step(Event::Flag(true)).unwrap();
    session.step(Event::Files(Vec::new())).unwrap();
    session.step(Event::Choice(0)).unwrap();
    session.step(Event::Choice(0)).unwrap();
    let directive = session.step(Event::Text(String::new())).unwrap();
    assert_eq!(directive.output, "");
    match directive.action {
        Action::Abort(AppError::InvalidInput(detail)) => {
            assert_eq!(detail, "Commit subject cannot be empty")
        }
        other => panic!("expected invalid input, got {:?}", other),
    }
    assert_eq!(session.stage(), Stage::Done);
}

#[test]
fn session_takes_any_other_confirmation_as_no() {
    for answer in ["", "maybe", "yes please", "0", "ye"] {
        let mut world = World::new(&["2", "3", "document the menu", "", answer]);
        let outcome = world.run();
        assert!(matches!(outcome, Ok(Outcome::Cancelled)), "for {:?}", answer);
        assert!(world.commits.is_empty());
    }
}

#[test]
fn session_fails_when_the_input_ends_in_a_menu() {
    let mut world = World::new(&["7", "x"]);
    match world.run() {
        Err(AppError::Io(error)) => assert_eq!(error.kind(), std::io::ErrorKind::UnexpectedEof),
        other => panic!("expected an I/O error, got {:?}", other),
    }
    assert!(world.commits.is_empty());
    assert_eq!(world.console.matches("Please enter a valid number between 1 and 3").count(), 2);
}

#[test]
fn session_fails_when_the_input_ends_at_the_confirmation() {
    let mut world = World::new(&["3", "2", "subject", "body"]);
    match world.run() {
        Err(AppError::Io(_)) => {}
        other => panic!("expected an I/O error, got {:?}", other),
    }
    assert!(world.commits.is_empty());
    assert!(world.console.contains("Commit message preview:\n  patch-fix: 🐛 subject\n\nbody\n"));
}

#[test]
fn session_reports_a_failed_commit_with_the_diagnostic() {
    let mut world = World::new(&["3", "2", "subject", "", "yes"]);
    world.commit_fails_with = Some("fatal: unable to write".to_string());
    match world.run() {
        Err(AppError::Git(detail)) => assert_eq!(detail, "fatal: unable to write"),
        other => panic!("expected a Git error, got {:?}", other),
    }
    assert_eq!(world.commits.len(), 1);
    assert!(!world.console.contains("Commit created successfully"));
}

#[test]
fn session_starts_by_checking_the_repository() {
    let (session, directive) = Session::start();
    assert_eq!(session.stage(), Stage::Repository);
    assert_eq!(directive.output, "");
    assert!(matches!(directive.action, Action::CheckRepository));
}

#[test]
fn session_refuses_events_that_answer_nothing() {
    let (mut session, _) = Session::start();
    assert!(session.step(Event::Choice(0)).is_none());
    assert!(session.step(Event::Text("yes".to_string())).is_none());
    assert!(session.step(Event::Committed).is_none());
    assert!(session.step(Event::Files(Vec::new())).is_none());
    assert_eq!(session.stage(), Stage::Repository);
    assert!(session.step(Event::Flag(true)).is_some());
    assert_eq!(session.stage(), Stage::Staged);
}

#[test]
fn session_refuses_a_choice_outside_the_menu() {
    let (mut session, _) = Session::start();
    session.step(Event::Flag(true)).unwrap();
    session.step(Event::Flag(true)).unwrap();
    session.step(Event::Files(Vec::new())).unwrap();
    assert!(session.step(Event::Choice(3)).is_none());
    assert_eq!(session.stage(), Stage::Impact);
    session.step(Event::Choice(2)).unwrap();
    assert!(session.step(Event::Choice(9)).is_none());
    assert_eq!(session.stage(), Stage::Category);
    session.step(Event::Choice(8)).unwrap();
    assert_eq!(session.stage(), Stage::Subject);
}

#[test]
fn session_passes_its_stages_in_order() {
    let (mut session, _) = Session::start();
    let events = vec![
        (Event::Flag(true), Stage::Staged),
        (Event::Flag(true), Stage::Files),
        (Event::Files(vec!["a".to_string()]), Stage::Impact),
        (Event::Choice(1), Stage::Category),
        (Event::Choice(0), Stage::Subject),
        (Event::Text(reply(Some(" add search \n")).unwrap()), Stage::Body),
        (Event::Text(String::new()), Stage::Confirm),
        (Event::Text("y".to_string()), Stage::Commit),
        (Event::Committed, Stage::Done),
    ];
    for (event, stage) in events {
        assert!(session.step(event).is_some());
        assert_eq!(session.stage(), stage);
    }
    assert_eq!(session.message(), "minor-feat: ✨ add search");
    assert!(session.step(Event::Committed).is_none());
    assert!(session.step(Event::Failed(AppError::Git("late".to_string()))).is_none());
}

#[test]
fn session_ends_on_a_failure_at_any_stage() {
    let (mut session, _) = Session::start();
    session.step(Event::Flag(true)).unwrap();
    let directive = session
        .step(Event::Failed(AppError::Io(std::io::Error::new(
            std::io::ErrorKind::NotFound,
            "git not found",
        ))))
        .unwrap();
    assert_eq!(directive.output, "");
    match directive.action {
        Action::Abort(AppError::Io(error)) => assert_eq!(error.to_string(), "git not found"),
        other => panic!("expected an abort, got {:?}", other),
    }
    assert_eq!(session.stage(), Stage::Done);
    assert!(session.step(Event::Flag(true)).is_none());
}

#[test]
fn session_commits_the_message_it_previewed() {
    let (mut session, _) = Session::start();
    session.step(Event::Flag(true)).unwrap();
    session.step(Event::Flag(true)).unwrap();
    session.step(Event::Files(Vec::new())).unwrap();
    session.step(Event::Choice(0)).unwrap();
    session.step(Event::Choice(1)).unwrap();
    session.step(Event::Text("remove legacy API".to_string())).unwrap();
    let preview = session
        .step(Event::Text("Drops the v1 endpoint.\nClients must migrate to v2.".to_string()))
        .unwrap();
    assert_eq!(
        preview.output,
        "\nCommit message preview:\n  major-fix: 🐛 remove legacy API\n\nDrops the v1 endpoint.\nClients must migrate to v2.\n"
    );
    match preview.action {
        Action::Prompt { label } => assert_eq!(label, "\nConfirm commit? (y/n): "),
        other => panic!("expected a prompt, got {:?}", other),
    }
    let commit = session.step(Event::Text("YES".to_string())).unwrap();
    assert_eq!(commit.output, "");
    match commit.action {
        Action::Commit { message } => assert_eq!(
            message,
            "major-fix: 🐛 remove legacy API\n\nDrops the v1 endpoint.\nClients must migrate to v2."
        ),
        other => panic!("expected a commit, got {:?}", other),
    }
}
