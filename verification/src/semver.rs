//! The version-impact axis of a commit message.

use vstd::prelude::*;
use vstd::string::*;

verus! {

/// How a change affects compatibility, in semantic-versioning terms.
#[derive(Debug, Clone, Copy, PartialEq, Eq, Structural)]
pub enum SemverType {
    /// A breaking change.
    Major,
    /// An addition that keeps compatibility.
    Minor,
    /// A fix that keeps compatibility.
    Patch,
}

impl SemverType {
    /// The lowercase word that stands for this level in a commit message.
    pub open spec fn spec_name(self) -> Seq<char> {
        match self {
            SemverType::Major => "major"@,
            SemverType::Minor => "minor"@,
            SemverType::Patch => "patch"@,
        }
    }

    /// The one-line explanation shown next to this level in a menu.
    pub open spec fn spec_description(self) -> Seq<char> {
        match self {
            SemverType::Major => "Breaking changes (incompatible API changes)"@,
            SemverType::Minor => "New features (backwards compatible)"@,
            SemverType::Patch => "Bug fixes (backwards compatible)"@,
        }
    }

    /// The levels in menu order.
    pub open spec fn spec_all() -> Seq<SemverType> {
        seq![SemverType::Major, SemverType::Minor, SemverType::Patch]
    }

    /// The levels in menu order: the first is offered as number 1.
    pub fn all() -> (r: Vec<SemverType>)
        ensures
            r@ == Self::spec_all(),
    {
        let r = vec![SemverType::Major, SemverType::Minor, SemverType::Patch];
        assert(r@ =~= Self::spec_all());
        r
    }

    /// The symbolic name as a borrowed literal.
    pub fn name(&self) -> (r: &'static str)
        ensures
            r@ == self.spec_name(),
    {
        match self {
            SemverType::Major => "major",
            SemverType::Minor => "minor",
            SemverType::Patch => "patch",
        }
    }

    /// The symbolic name, as it is written into a commit message.
    pub fn to_string(&self) -> (r: String)
        ensures
            r@ == self.spec_name(),
    {
        String::from_str(self.name())
    }

    /// The explanation shown in the menu.
    pub fn description(&self) -> (r: &'static str)
        ensures
            r@ == self.spec_description(),
    {
        match self {
            SemverType::Major => "Breaking changes (incompatible API changes)",
            SemverType::Minor => "New features (backwards compatible)",
            SemverType::Patch => "Bug fixes (backwards compatible)",
        }
    }
}

/// Every level is named by one of the three words `major`, `minor` and
/// `patch`, and different levels have different names.
pub proof fn lemma_names_distinct(a: SemverType, b: SemverType)
    ensures
        a.spec_name() == "major"@ || a.spec_name() == "minor"@ || a.spec_name() == "patch"@,
        a != b ==> a.spec_name() != b.spec_name(),
{
    reveal_strlit("major");
    reveal_strlit("minor");
    reveal_strlit("patch");
    assert("major"@[1] == 'a' && "minor"@[1] == 'i' && "patch"@[0] == 'p');
    assert("major"@[0] == 'm' && "minor"@[0] == 'm');
}

/// Every level stands exactly once in the menu order.
pub proof fn lemma_all_levels(a: SemverType)
    ensures
        SemverType::spec_all().len() == 3,
        exists|i: int| 0 <= i < 3 && SemverType::spec_all()[i] == a,
        forall|i: int, j: int|
            0 <= i < j < 3 ==> SemverType::spec_all()[i] != SemverType::spec_all()[j],
{
    let all = SemverType::spec_all();
    match a {
        SemverType::Major => assert(all[0] == a),
        SemverType::Minor => assert(all[1] == a),
        SemverType::Patch => assert(all[2] == a),
    }
}

} // verus!
