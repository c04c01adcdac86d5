//! The session: which question comes next, what is shown on the way, and
//! when the commit is made. The session itself touches neither the console
//! nor the repository. It hands out one directive at a time and takes the
//! event that answers it.

use vstd::prelude::*;
use vstd::string::*;
use crate::commit_types::CommitType;
use crate::message::{format_message, formatted};
use crate::prompts::{affirmative, is_affirmative};
use crate::semver::SemverType;
use crate::{AppError, ErrorView};

verus! {

/// Where a session stands: the answer it is waiting for.
#[derive(Debug, Clone, Copy, PartialEq, Eq, Structural)]
pub enum Stage {
    /// Is this a working directory under version control?
    Repository,
    /// Is anything staged?
    Staged,
    /// Which paths are staged?
    Files,
    /// Which version impact?
    Impact,
    /// Which change category?
    Category,
    /// The subject line.
    Subject,
    /// The optional body.
    Body,
    /// Yes or no to the previewed message.
    Confirm,
    /// The result of the commit.
    Commit,
    /// Nothing: the session is over.
    Done,
}

/// How a session ends when nothing fails.
#[derive(Debug, Clone, Copy, PartialEq, Eq, Structural)]
pub enum Outcome {
    /// The commit was made.
    Committed,
    /// The user declined, and no commit was attempted.
    Cancelled,
}

/// What happened outside, in answer to the last directive.
#[derive(Debug)]
pub enum Event {
    /// The answer to a yes/no query about the repository.
    Flag(bool),
    /// The staged paths.
    Files(Vec<String>),
    /// The entry selected from a menu, counted from zero.
    Choice(usize),
    /// The reply to a prompt, trimmed as it was read, or the body.
    Text(String),
    /// The commit was made.
    Committed,
    /// The directive could not be carried out.
    Failed(AppError),
}

/// What to do next outside.
#[derive(Debug)]
pub enum Action {
    /// Ask whether the working directory is under version control.
    CheckRepository,
    /// Ask whether any change is staged.
    CheckStaged,
    /// Ask for the staged paths.
    ListStaged,
    /// Show a menu and let the user select one item.
    Select { label: String, items: Vec<String>, descriptions: Vec<String> },
    /// Ask for one line.
    Prompt { label: String },
    /// Ask for lines until an empty one.
    PromptMultiline { label: String },
    /// Commit with this message.
    Commit { message: String },
    /// Stop: the session has run to its end.
    Finish(Outcome),
    /// Stop: the session has failed.
    Abort(AppError),
}

/// One step for the caller: write `output` to the console as it is, then
/// perform `action`.
#[derive(Debug)]
pub struct Directive {
    pub output: String,
    pub action: Action,
}

/// The progress of one interactive session.
#[derive(Debug)]
pub struct Session {
    stage: Stage,
    impact: SemverType,
    category: CommitType,
    subject: String,
    body: String,
}

/// An event as specifications see it.
pub enum EventView {
    Flag(bool),
    Files(Seq<Seq<char>>),
    Choice(nat),
    Text(Seq<char>),
    Committed,
    Failed(ErrorView),
}

/// An action as specifications see it.
pub enum ActionView {
    CheckRepository,
    CheckStaged,
    ListStaged,
    Select { label: Seq<char>, items: Seq<Seq<char>>, descriptions: Seq<Seq<char>> },
    Prompt { label: Seq<char> },
    PromptMultiline { label: Seq<char> },
    Commit { message: Seq<char> },
    Finish(Outcome),
    Abort(ErrorView),
}

/// A directive as specifications see it.
pub struct DirectiveView {
    pub output: Seq<char>,
    pub action: ActionView,
}

/// A session as specifications see it. The selections and texts mean
/// something from the stage on that follows their question.
pub struct SessionView {
    pub stage: Stage,
    pub impact: SemverType,
    pub category: CommitType,
    pub subject: Seq<char>,
    pub body: Seq<char>,
}

impl View for Event {
    type V = EventView;

    open spec fn view(&self) -> EventView {
        match *self {
            Event::Flag(answer) => EventView::Flag(answer),
            Event::Files(files) => EventView::Files(files.deep_view()),
            Event::Choice(index) => EventView::Choice(index as nat),
            Event::Text(text) => EventView::Text(text@),
            Event::Committed => EventView::Committed,
            Event::Failed(error) => EventView::Failed(error@),
        }
    }
}

impl View for Action {
    type V = ActionView;

    open spec fn view(&self) -> ActionView {
        match *self {
            Action::CheckRepository => ActionView::CheckRepository,
            Action::CheckStaged => ActionView::CheckStaged,
            Action::ListStaged => ActionView::ListStaged,
            Action::Select { label, items, descriptions } => ActionView::Select {
                label: label@,
                items: items.deep_view(),
                descriptions: descriptions.deep_view(),
            },
            Action::Prompt { label } => ActionView::Prompt { label: label@ },
            Action::PromptMultiline { label } => ActionView::PromptMultiline { label: label@ },
            Action::Commit { message } => ActionView::Commit { message: message@ },
            Action::Finish(outcome) => ActionView::Finish(outcome),
            Action::Abort(error) => ActionView::Abort(error@),
        }
    }
}

impl View for Directive {
    type V = DirectiveView;

    open spec fn view(&self) -> DirectiveView {
        DirectiveView { output: self.output@, action: self.action@ }
    }
}

impl View for Session {
    type V = SessionView;

    closed spec fn view(&self) -> SessionView {
        SessionView {
            stage: self.stage,
            impact: self.impact,
            category: self.category,
            subject: self.subject@,
            body: self.body@,
        }
    }
}

/// A directive that shows nothing.
pub open spec fn silent(action: ActionView) -> DirectiveView {
    DirectiveView { output: Seq::empty(), action }
}

/// The lines that list the first `upto` staged paths.
pub open spec fn file_lines(files: Seq<Seq<char>>, upto: int) -> Seq<char>
    decreases upto,
{
    if upto <= 0 {
        Seq::empty()
    } else {
        file_lines(files, upto - 1) + "  - "@ + files[upto - 1] + "\n"@
    }
}

/// What is shown of the staged paths: nothing when there are none, else
/// the paths under a heading, and a blank line after them.
pub open spec fn staged_text(files: Seq<Seq<char>>) -> Seq<char> {
    if files.len() == 0 {
        Seq::empty()
    } else {
        "Staged files:\n"@ + file_lines(files, files.len() as int) + "\n"@
    }
}

/// The menu of version impacts: its label, items and descriptions.
pub open spec fn impact_menu() -> ActionView {
    ActionView::Select {
        label: "Select the semantic version type:"@,
        items: Seq::new(3, |i: int| SemverType::spec_all()[i].spec_name()),
        descriptions: Seq::new(3, |i: int| SemverType::spec_all()[i].spec_description()),
    }
}

/// The description of a category in its menu: the glyph, a space and the
/// plain description.
pub open spec fn category_description(category: CommitType) -> Seq<char> {
    category.spec_emoji() + " "@ + category.spec_description()
}

/// The menu of change categories: its label, items and descriptions.
pub open spec fn category_menu() -> ActionView {
    ActionView::Select {
        label: "\nSelect the commit type:"@,
        items: Seq::new(9, |i: int| CommitType::spec_all()[i].spec_name()),
        descriptions: Seq::new(9, |i: int| category_description(CommitType::spec_all()[i])),
    }
}

/// What is shown before the confirmation: the message under a heading.
pub open spec fn preview_text(message: Seq<char>) -> Seq<char> {
    "\nCommit message preview:\n  "@ + message + "\n"@
}

/// The message that a session commits, from what it has collected.
pub open spec fn message_of(s: SessionView) -> Seq<char> {
    formatted(s.impact, s.category, s.subject, s.body)
}

/// A session that has failed with a complaint of the version-control kind.
pub open spec fn refused(s: SessionView, complaint: Seq<char>) -> (SessionView, DirectiveView) {
    (SessionView { stage: Stage::Done, ..s }, silent(ActionView::Abort(ErrorView::Git(complaint))))
}

/// The transition of a session: the state and directive that follow when
/// `e` answers the directive that `s` is waiting on, or `None` when `e` is no
/// answer to it.
pub open spec fn next(s: SessionView, e: EventView) -> Option<(SessionView, DirectiveView)> {
    match (s.stage, e) {
        (Stage::Done, _) => None,
        (_, EventView::Failed(error)) => Some(
            (SessionView { stage: Stage::Done, ..s }, silent(ActionView::Abort(error))),
        ),
        (Stage::Repository, EventView::Flag(inside)) => if inside {
            Some((SessionView { stage: Stage::Staged, ..s }, silent(ActionView::CheckStaged)))
        } else {
            Some(refused(s, "Not in a git repository"@))
        },
        (Stage::Staged, EventView::Flag(any)) => if any {
            Some(
                (
                    SessionView { stage: Stage::Files, ..s },
                    DirectiveView {
                        output: "Semantic Git-CZ - Create semantic commit messages\n\n"@,
                        action: ActionView::ListStaged,
                    },
                ),
            )
        } else {
            Some(refused(s, "No staged changes to commit"@))
        },
        (Stage::Files, EventView::Files(files)) => Some(
            (
                SessionView { stage: Stage::Impact, ..s },
                DirectiveView { output: staged_text(files), action: impact_menu() },
            ),
        ),
        (Stage::Impact, EventView::Choice(index)) => if index < 3 {
            Some(
                (
                    SessionView {
                        stage: Stage::Category,
                        impact: SemverType::spec_all()[index as int],
                        ..s
                    },
                    silent(category_menu()),
                ),
            )
        } else {
            None
        },
        (Stage::Category, EventView::Choice(index)) => if index < 9 {
            Some(
                (
                    SessionView {
                        stage: Stage::Subject,
                        category: CommitType::spec_all()[index as int],
                        ..s
                    },
                    DirectiveView {
                        output: "\n"@,
                        action: ActionView::Prompt { label: "Enter commit message (subject): "@ },
                    },
                ),
            )
        } else {
            None
        },
        (Stage::Subject, EventView::Text(text)) => if text.len() == 0 {
            Some(
                (
                    SessionView { stage: Stage::Done, ..s },
                    silent(
                        ActionView::Abort(
                            ErrorView::InvalidInput("Commit subject cannot be empty"@),
                        ),
                    ),
                ),
            )
        } else {
            Some(
                (
                    SessionView { stage: Stage::Body, subject: text, ..s },
                    DirectiveView {
                        output: "\n"@,
                        action: ActionView::PromptMultiline {
                            label: "Enter commit body (optional):"@,
                        },
                    },
                ),
            )
        },
        (Stage::Body, EventView::Text(text)) => {
            let after = SessionView { stage: Stage::Confirm, body: text, ..s };
            Some(
                (
                    after,
                    DirectiveView {
                        output: preview_text(message_of(after)),
                        action: ActionView::Prompt { label: "\nConfirm commit? (y/n): "@ },
                    },
                ),
            )
        },
        (Stage::Confirm, EventView::Text(text)) => if affirmative(text) {
            Some(
                (
                    SessionView { stage: Stage::Commit, ..s },
                    silent(ActionView::Commit { message: message_of(s) }),
                ),
            )
        } else {
            Some(
                (
                    SessionView { stage: Stage::Done, ..s },
                    DirectiveView {
                        output: "\n❌ Commit cancelled\n"@,
                        action: ActionView::Finish(Outcome::Cancelled),
                    },
                ),
            )
        },
        (Stage::Commit, EventView::Committed) => Some(
            (
                SessionView { stage: Stage::Done, ..s },
                DirectiveView {
                    output: "\n✅ Commit created successfully!\n"@,
                    action: ActionView::Finish(Outcome::Committed),
                },
            ),
        ),
        _ => None,
    }
}

/// The state in which every session starts: it waits to hear whether the
/// working directory is under version control, and has collected nothing.
pub open spec fn initial() -> SessionView {
    SessionView {
        stage: Stage::Repository,
        impact: SemverType::Major,
        category: CommitType::Feat,
        subject: Seq::empty(),
        body: Seq::empty(),
    }
}

/// How far a session has come: stages are passed in this order only.
pub open spec fn rank(stage: Stage) -> nat {
    match stage {
        Stage::Repository => 0,
        Stage::Staged => 1,
        Stage::Files => 2,
        Stage::Impact => 3,
        Stage::Category => 4,
        Stage::Subject => 5,
        Stage::Body => 6,
        Stage::Confirm => 7,
        Stage::Commit => 8,
        Stage::Done => 9,
    }
}

/// Whether a session's texts fit its stage: once the subject has been
/// taken, it is not empty.
pub open spec fn consistent(s: SessionView) -> bool {
    6 <= rank(s.stage) <= 8 ==> s.subject.len() > 0
}

/// Whether an action puts a question to the user.
pub open spec fn asks_user(action: ActionView) -> bool {
    action is Select || action is Prompt || action is PromptMultiline
}

/// Every accepted event moves the session forward, so a session takes at
/// most nine events, and one that is over takes none. A session that was
/// consistent stays so.
pub proof fn lemma_steps_advance(s: SessionView, e: EventView)
    ensures
        next(s, e) matches Some((after, _)) ==> rank(after.stage) > rank(s.stage),
        s.stage == Stage::Done ==> next(s, e) is None,
        consistent(s) && next(s, e) is Some ==> consistent(next(s, e).unwrap().0),
{
}

/// The commit is the point of no return and is reached in one way only: the
/// session was waiting for the confirmation, the reply said yes, and the
/// message is the one that was previewed, formatted from the answers
/// collected.
pub proof fn lemma_commit_needs_confirmation(s: SessionView, e: EventView)
    ensures
        next(s, e) is Some && next(s, e).unwrap().1.action is Commit ==> {
            &&& s.stage == Stage::Confirm
            &&& e is Text
            &&& affirmative(e->Text_0)
            &&& next(s, e).unwrap().0 == (SessionView { stage: Stage::Commit, ..s })
            &&& next(s, e).unwrap().1 == silent(
                ActionView::Commit { message: formatted(s.impact, s.category, s.subject, s.body) },
            )
        },
        s.stage == Stage::Confirm && e is Text && !affirmative(e->Text_0) ==> next(s, e)
            == Some(
            (
                SessionView { stage: Stage::Done, ..s },
                DirectiveView {
                    output: "\n❌ Commit cancelled\n"@,
                    action: ActionView::Finish(Outcome::Cancelled),
                },
            ),
        ),
{
}

/// A failure ends the session at once, whatever it was waiting for: the
/// error is handed on unchanged, nothing is shown, and no later event is
/// accepted, so no commit follows.
pub proof fn lemma_failure_ends(s: SessionView, error: ErrorView, later: EventView)
    requires
        s.stage != Stage::Done,
    ensures
        next(s, EventView::Failed(error)) == Some(
            (SessionView { stage: Stage::Done, ..s }, silent(ActionView::Abort(error))),
        ),
        next(SessionView { stage: Stage::Done, ..s }, later) is None,
{
}

/// Both checks come before any question: while the session waits for the
/// answer of a check, no step puts a question to the user, and a check that
/// fails ends the session with a complaint and without output.
pub proof fn lemma_checks_come_first(s: SessionView, e: EventView)
    requires
        s.stage == Stage::Repository || s.stage == Stage::Staged,
    ensures
        next(s, e) matches Some((_, directive)) ==> !asks_user(directive.action),
        e == EventView::Flag(false) ==> {
            &&& next(s, e) is Some
            &&& next(s, e).unwrap().0.stage == Stage::Done
            &&& next(s, e).unwrap().1.action is Abort
            &&& next(s, e).unwrap().1.action->Abort_0 is Git
            &&& next(s, e).unwrap().1.output.len() == 0
        },
{
}

/// An empty subject ends the session as invalid input: there is no second
/// try, and no question follows.
pub proof fn lemma_empty_subject_aborts(s: SessionView, text: Seq<char>)
    requires
        s.stage == Stage::Subject,
        text.len() == 0,
    ensures
        next(s, EventView::Text(text)) == Some(
            (
                SessionView { stage: Stage::Done, ..s },
                silent(
                    ActionView::Abort(ErrorView::InvalidInput("Commit subject cannot be empty"@)),
                ),
            ),
        ),
{
}

fn silently(action: Action) -> (r: Directive)
    ensures
        r@ == silent(action@),
{
    Directive { output: String::new(), action }
}

fn staged_listing(files: &Vec<String>) -> (r: String)
    ensures
        r@ == staged_text(files.deep_view()),
{
    let n: usize = files.len();
    if n == 0 {
        return String::new();
    }
    let mut r = String::from_str("Staged files:\n");
    let ghost head = r@;
    let mut i: usize = 0;
    while i < n
        invariant
            i <= n,
            n == files@.len(),
            r@ == head + file_lines(files.deep_view(), i as int),
        decreases n - i,
    {
        let ghost before = r@;
        r.append("  - ");
        r.append(files[i].as_str());
        r.append("\n");
        proof {
            assert(files.deep_view()[i as int] == files@[i as int]@);
            assert(r@ =~= head + file_lines(files.deep_view(), i as int + 1));
        }
        i += 1;
    }
    r.append("\n");
    r
}

fn impact_selection() -> (r: Action)
    ensures
        r@ == impact_menu(),
{
    let all = SemverType::all();
    let mut items: Vec<String> = Vec::new();
    let mut descriptions: Vec<String> = Vec::new();
    let mut i: usize = 0;
    while i < 3
        invariant
            i <= 3,
            all@ == SemverType::spec_all(),
            items@.len() == i,
            descriptions@.len() == i,
            forall|k: int| 0 <= k < i ==> (#[trigger] items@[k])@ == all@[k].spec_name(),
            forall|k: int|
                0 <= k < i ==> (#[trigger] descriptions@[k])@ == all@[k].spec_description(),
        decreases 3 - i,
    {
        items.push(all[i].to_string());
        descriptions.push(String::from_str(all[i].description()));
        i += 1;
    }
    let r = Action::Select {
        label: String::from_str("Select the semantic version type:"),
        items,
        descriptions,
    };
    proof {
        assert(r@->Select_items =~= impact_menu()->Select_items);
        assert(r@->Select_descriptions =~= impact_menu()->Select_descriptions);
    }
    r
}

fn category_selection() -> (r: Action)
    ensures
        r@ == category_menu(),
{
    let all = CommitType::all();
    let mut items: Vec<String> = Vec::new();
    let mut descriptions: Vec<String> = Vec::new();
    let mut i: usize = 0;
    while i < 9
        invariant
            i <= 9,
            all@ == CommitType::spec_all(),
            items@.len() == i,
            descriptions@.len() == i,
            forall|k: int| 0 <= k < i ==> (#[trigger] items@[k])@ == all@[k].spec_name(),
            forall|k: int|
                0 <= k < i ==> (#[trigger] descriptions@[k])@ == category_description(all@[k]),
        decreases 9 - i,
    {
        items.push(all[i].to_string());
        let mut description = String::from_str(all[i].emoji());
        description.append(" ");
        description.append(all[i].description());
        descriptions.push(description);
        i += 1;
    }
    let r = Action::Select {
        label: String::from_str("\nSelect the commit type:"),
        items,
        descriptions,
    };
    proof {
        assert(r@->Select_items =~= category_menu()->Select_items);
        assert(r@->Select_descriptions =~= category_menu()->Select_descriptions);
    }
    r
}

fn preview(message: &str) -> (r: String)
    ensures
        r@ == preview_text(message@),
{
    let mut r = String::from_str("\nCommit message preview:\n  ");
    r.append(message);
    r.append("\n");
    r
}

impl Session {
    /// Opens a session. The first thing to find out is whether the working
    /// directory is under version control.
    pub fn start() -> (r: (Session, Directive))
        ensures
            r.0@ == initial(),
            r.1@ == silent(ActionView::CheckRepository),
    {
        let session = Session {
            stage: Stage::Repository,
            impact: SemverType::Major,
            category: CommitType::Feat,
            subject: String::new(),
            body: String::new(),
        };
        (session, silently(Action::CheckRepository))
    }

    /// The answer that the session is waiting for.
    pub fn stage(&self) -> (r: Stage)
        ensures
            r == self@.stage,
    {
        self.stage
    }

    fn close(&mut self, directive: Directive) -> (r: Option<Directive>)
        ensures
            final(self)@ == (SessionView { stage: Stage::Done, ..old(self)@ }),
            r == Some(directive),
    {
        self.stage = Stage::Done;
        Some(directive)
    }

    fn refuse(&mut self, complaint: &str) -> (r: Option<Directive>)
        ensures
            r matches Some(directive) && (final(self)@, directive@) == refused(
                old(self)@,
                complaint@,
            ),
    {
        let error = AppError::Git(String::from_str(complaint));
        self.close(silently(Action::Abort(error)))
    }

    /// Takes the event that answers the last directive and hands out the
    /// next one. An event that is no answer to it is refused with `None` and
    /// changes nothing; so is every event once the session is over.
    pub fn step(&mut self, event: Event) -> (r: Option<Directive>)
        ensures
            match next(old(self)@, event@) {
                Some((session, directive)) => final(self)@ == session && r is Some
                    && r.unwrap()@ == directive,
                None => final(self)@ == old(self)@ && r is None,
            },
    {
        if self.stage == Stage::Done {
            return None;
        }
        match event {
            Event::Failed(error) => self.close(silently(Action::Abort(error))),
            Event::Flag(answer) => match self.stage {
                Stage::Repository => if answer {
                    self.stage = Stage::Staged;
                    Some(silently(Action::CheckStaged))
                } else {
                    self.refuse("Not in a git repository")
                },
                Stage::Staged => if answer {
                    self.stage = Stage::Files;
                    Some(
                        Directive {
                            output: String::from_str(
                                "Semantic Git-CZ - Create semantic commit messages\n\n",
                            ),
                            action: Action::ListStaged,
                        },
                    )
                } else {
                    self.refuse("No staged changes to commit")
                },
                _ => None,
            },
            Event::Files(files) => match self.stage {
                Stage::Files => {
                    self.stage = Stage::Impact;
                    Some(Directive { output: staged_listing(&files), action: impact_selection() })
                },
                _ => None,
            },
            Event::Choice(index) => match self.stage {
                Stage::Impact => if index < 3 {
                    let all = SemverType::all();
                    self.impact = all[index];
                    self.stage = Stage::Category;
                    Some(silently(category_selection()))
                } else {
                    None
                },
                Stage::Category => if index < 9 {
                    let all = CommitType::all();
                    self.category = all[index];
                    self.stage = Stage::Subject;
                    Some(
                        Directive {
                            output: String::from_str("\n"),
                            action: Action::Prompt {
                                label: String::from_str("Enter commit message (subject): "),
                            },
                        },
                    )
                } else {
                    None
                },
                _ => None,
            },
            Event::Text(text) => match self.stage {
                Stage::Subject => {
                    if text.as_str().is_empty() {
                        let error = AppError::InvalidInput(
                            String::from_str("Commit subject cannot be empty"),
                        );
                        self.close(silently(Action::Abort(error)))
                    } else {
                        self.subject = text;
                        self.stage = Stage::Body;
                        Some(
                            Directive {
                                output: String::from_str("\n"),
                                action: Action::PromptMultiline {
                                    label: String::from_str("Enter commit body (optional):"),
                                },
                            },
                        )
                    }
                },
                Stage::Body => {
                    self.body = text;
                    self.stage = Stage::Confirm;
                    let message = self.message();
                    Some(
                        Directive {
                            output: preview(message.as_str()),
                            action: Action::Prompt {
                                label: String::from_str("\nConfirm commit? (y/n): "),
                            },
                        },
                    )
                },
                Stage::Confirm => if is_affirmative(text.as_str()) {
                    self.stage = Stage::Commit;
                    Some(silently(Action::Commit { message: self.message() }))
                } else {
                    self.close(
                        Directive {
                            output: String::from_str("\n❌ Commit cancelled\n"),
                            action: Action::Finish(Outcome::Cancelled),
                        },
                    )
                },
                _ => None,
            },
            Event::Committed => match self.stage {
                Stage::Commit => self.close(
                    Directive {
                        output: String::from_str("\n✅ Commit created successfully!\n"),
                        action: Action::Finish(Outcome::Committed),
                    },
                ),
                _ => None,
            },
        }
    }

    /// The commit message that the collected answers amount to.
    pub fn message(&self) -> (r: String)
        ensures
            r@ == message_of(self@),
    {
        format_message(self.impact, self.category, self.subject.as_str(), self.body.as_str())
    }
}

} // verus!
