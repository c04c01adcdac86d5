//! The change-category axis of a commit message.

use vstd::prelude::*;
use vstd::string::*;

verus! {

/// What a commit is for, after the conventional-commits taxonomy.
#[derive(Debug, Clone, Copy, PartialEq, Eq, Structural)]
pub enum CommitType {
    /// A new feature.
    Feat,
    /// A bug fix.
    Fix,
    /// Documentation.
    Docs,
    /// Code style.
    Style,
    /// Refactoring.
    Refactor,
    /// Tests.
    Test,
    /// Maintenance.
    Chore,
    /// Continuous integration.
    Ci,
    /// Performance.
    Perf,
}

impl CommitType {
    /// The lowercase word that stands for this category in a commit message.
    pub open spec fn spec_name(self) -> Seq<char> {
        match self {
            CommitType::Feat => "feat"@,
            CommitType::Fix => "fix"@,
            CommitType::Docs => "docs"@,
            CommitType::Style => "style"@,
            CommitType::Refactor => "refactor"@,
            CommitType::Test => "test"@,
            CommitType::Chore => "chore"@,
            CommitType::Ci => "ci"@,
            CommitType::Perf => "perf"@,
        }
    }

    /// The glyph that marks this category.
    pub open spec fn spec_emoji(self) -> Seq<char> {
        match self {
            CommitType::Feat => "✨"@,
            CommitType::Fix => "🐛"@,
            CommitType::Docs => "📚"@,
            CommitType::Style => "💎"@,
            CommitType::Refactor => "♻️"@,
            CommitType::Test => "🧪"@,
            CommitType::Chore => "🔧"@,
            CommitType::Ci => "🚀"@,
            CommitType::Perf => "⚡"@,
        }
    }

    /// The one-line explanation of this category.
    pub open spec fn spec_description(self) -> Seq<char> {
        match self {
            CommitType::Feat => "A new feature"@,
            CommitType::Fix => "A bug fix"@,
            CommitType::Docs => "Documentation only changes"@,
            CommitType::Style => "Changes that do not affect the meaning of the code"@,
            CommitType::Refactor => "A code change that neither fixes a bug nor adds a feature"@,
            CommitType::Test => "Adding missing tests or correcting existing tests"@,
            CommitType::Chore => "Changes to the build process or auxiliary tools"@,
            CommitType::Ci => "Changes to CI configuration files and scripts"@,
            CommitType::Perf => "A code change that improves performance"@,
        }
    }

    /// The categories in menu order.
    pub open spec fn spec_all() -> Seq<CommitType> {
        seq![
            CommitType::Feat,
            CommitType::Fix,
            CommitType::Docs,
            CommitType::Style,
            CommitType::Refactor,
            CommitType::Test,
            CommitType::Chore,
            CommitType::Ci,
            CommitType::Perf,
        ]
    }

    /// The categories in menu order: the first is offered as number 1.
    pub fn all() -> (r: Vec<CommitType>)
        ensures
            r@ == Self::spec_all(),
    {
        let r = vec![
            CommitType::Feat,
            CommitType::Fix,
            CommitType::Docs,
            CommitType::Style,
            CommitType::Refactor,
            CommitType::Test,
            CommitType::Chore,
            CommitType::Ci,
            CommitType::Perf,
        ];
        assert(r@ =~= Self::spec_all());
        r
    }

    /// The symbolic name as a borrowed literal.
    pub fn name(&self) -> (r: &'static str)
        ensures
            r@ == self.spec_name(),
    {
        match self {
            CommitType::Feat => "feat",
            CommitType::Fix => "fix",
            CommitType::Docs => "docs",
            CommitType::Style => "style",
            CommitType::Refactor => "refactor",
            CommitType::Test => "test",
            CommitType::Chore => "chore",
            CommitType::Ci => "ci",
            CommitType::Perf => "perf",
        }
    }

    /// The symbolic name, as it is written into a commit message.
    pub fn to_string(&self) -> (r: String)
        ensures
            r@ == self.spec_name(),
    {
        String::from_str(self.name())
    }

    /// The glyph that marks this category in a commit message.
    pub fn emoji(&self) -> (r: &'static str)
        ensures
            r@ == self.spec_emoji(),
    {
        match self {
            CommitType::Feat => "✨",
            CommitType::Fix => "🐛",
            CommitType::Docs => "📚",
            CommitType::Style => "💎",
            CommitType::Refactor => "♻️",
            CommitType::Test => "🧪",
            CommitType::Chore => "🔧",
            CommitType::Ci => "🚀",
            CommitType::Perf => "⚡",
        }
    }

    /// The explanation shown in the menu.
    pub fn description(&self) -> (r: &'static str)
        ensures
            r@ == self.spec_description(),
    {
        match self {
            CommitType::Feat => "A new feature",
            CommitType::Fix => "A bug fix",
            CommitType::Docs => "Documentation only changes",
            CommitType::Style => "Changes that do not affect the meaning of the code",
            CommitType::Refactor => "A code change that neither fixes a bug nor adds a feature",
            CommitType::Test => "Adding missing tests or correcting existing tests",
            CommitType::Chore => "Changes to the build process or auxiliary tools",
            CommitType::Ci => "Changes to CI configuration files and scripts",
            CommitType::Perf => "A code change that improves performance",
        }
    }
}

/// No category has an empty glyph, and different categories have different
/// glyphs: they differ already in their first character.
pub proof fn lemma_glyphs_distinct(a: CommitType, b: CommitType)
    ensures
        a.spec_emoji().len() > 0,
        a != b ==> a.spec_emoji()[0] != b.spec_emoji()[0],
        a != b ==> a.spec_emoji() != b.spec_emoji(),
{
    reveal_strlit("✨");
    reveal_strlit("🐛");
    reveal_strlit("📚");
    reveal_strlit("💎");
    reveal_strlit("♻️");
    reveal_strlit("🧪");
    reveal_strlit("🔧");
    reveal_strlit("🚀");
    reveal_strlit("⚡");
}

/// Different categories have different symbolic names.
pub proof fn lemma_names_distinct(a: CommitType, b: CommitType)
    ensures
        a.spec_name().len() > 0,
        a != b ==> a.spec_name() != b.spec_name(),
{
    reveal_strlit("feat");
    reveal_strlit("fix");
    reveal_strlit("docs");
    reveal_strlit("style");
    reveal_strlit("refactor");
    reveal_strlit("test");
    reveal_strlit("chore");
    reveal_strlit("ci");
    reveal_strlit("perf");
    if a != b && a.spec_name() == b.spec_name() {
        assert(a.spec_name().len() == b.spec_name().len());
        assert(a.spec_name()[0] == b.spec_name()[0]);
        assert(a.spec_name()[1] == b.spec_name()[1]);
    }
}

/// Every category stands exactly once in the menu order.
pub proof fn lemma_all_categories(a: CommitType)
    ensures
        CommitType::spec_all().len() == 9,
        exists|i: int| 0 <= i < 9 && CommitType::spec_all()[i] == a,
        forall|i: int, j: int|
            0 <= i < j < 9 ==> CommitType::spec_all()[i] != CommitType::spec_all()[j],
{
    let all = CommitType::spec_all();
    match a {
        CommitType::Feat => assert(all[0] == a),
        CommitType::Fix => assert(all[1] == a),
        CommitType::Docs => assert(all[2] == a),
        CommitType::Style => assert(all[3] == a),
        CommitType::Refactor => assert(all[4] == a),
        CommitType::Test => assert(all[5] == a),
        CommitType::Chore => assert(all[6] == a),
        CommitType::Ci => assert(all[7] == a),
        CommitType::Perf => assert(all[8] == a),
    }
}

} // verus!
