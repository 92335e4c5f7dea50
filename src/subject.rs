use vstd::prelude::*;

verus! {

/// The category of a Conventional Commit.
#[derive(Clone, Copy, Debug, PartialEq, Eq, Structural)]
pub enum Type {
    Archive,
    Build,
    Change,
    Chore,
    Ci,
    Dev,
    Deps,
    Docs,
    Deprecate,
    Feat,
    Fix,
    I18n,
    Issue,
    Improvement,
    Other,
    Perf,
    Refactor,
    Repo,
    Security,
    Style,
    Test,
}

/// A subtree operation recorded in a commit subject.
#[derive(Clone, Debug, PartialEq, Eq)]
pub enum SubtreeOperation {
    Import { subtree: String, git_ref: String },
    Split { subtree: String, git_ref: String },
    Update { subtree: String, git_ref: String },
}

/// The mathematical value of a [`SubtreeOperation`].
pub enum SubtreeOperationV {
    Import { subtree: Seq<char>, git_ref: Seq<char> },
    Split { subtree: Seq<char>, git_ref: Seq<char> },
    Update { subtree: Seq<char>, git_ref: Seq<char> },
}

/// A classified commit subject.
#[derive(Clone, Debug, PartialEq, Eq)]
pub enum Subject {
    /// A Conventional Commit, or a shorthand recognised as one.
    ConventionalCommit {
        breaking_change: bool,
        category: Type,
        scope: Option<String>,
        description: String,
    },
    /// A fixup commit.
    Fixup(String),
    /// A merged pull request.
    PullRequest { id: String, description: String },
    /// A release of a version.
    Release { version: String, scope: Option<String>, description: String },
    /// Something removed.
    Remove(String),
    /// Something renamed or moved.
    Rename(String),
    /// A revert commit.
    Revert(String),
    /// A commit made by subtree tooling.
    SubtreeCommit { operation: SubtreeOperation, description: String },
    /// Any other commit.
    Simple(String),
}

/// The mathematical value of a [`Subject`].
pub enum SubjectV {
    ConventionalCommit {
        breaking_change: bool,
        category: Type,
        scope: Option<Seq<char>>,
        description: Seq<char>,
    },
    Fixup(Seq<char>),
    PullRequest { id: Seq<char>, description: Seq<char> },
    Release { version: Seq<char>, scope: Option<Seq<char>>, description: Seq<char> },
    Remove(Seq<char>),
    Rename(Seq<char>),
    Revert(Seq<char>),
    SubtreeCommit { operation: SubtreeOperationV, description: Seq<char> },
    Simple(Seq<char>),
}

/// The view of an optional string.
pub open spec fn opt_view(o: Option<String>) -> Option<Seq<char>> {
    match o {
        Some(t) => Some(t@),
        None => None,
    }
}

impl View for SubtreeOperation {
    type V = SubtreeOperationV;

    open spec fn view(&self) -> SubtreeOperationV {
        match self {
            SubtreeOperation::Import { subtree, git_ref } => SubtreeOperationV::Import {
                subtree: subtree@,
                git_ref: git_ref@,
            },
            SubtreeOperation::Split { subtree, git_ref } => SubtreeOperationV::Split {
                subtree: subtree@,
                git_ref: git_ref@,
            },
            SubtreeOperation::Update { subtree, git_ref } => SubtreeOperationV::Update {
                subtree: subtree@,
                git_ref: git_ref@,
            },
        }
    }
}

impl SubtreeOperationV {
    /// The path of the subtree operated on.
    pub open spec fn subtree(self) -> Seq<char> {
        match self {
            SubtreeOperationV::Import { subtree, .. } => subtree,
            SubtreeOperationV::Split { subtree, .. } => subtree,
            SubtreeOperationV::Update { subtree, .. } => subtree,
        }
    }
}

impl View for Subject {
    type V = SubjectV;

    open spec fn view(&self) -> SubjectV {
        match self {
            Subject::ConventionalCommit { breaking_change, category, scope, description } =>
                SubjectV::ConventionalCommit {
                    breaking_change: *breaking_change,
                    category: *category,
                    scope: opt_view(*scope),
                    description: description@,
                },
            Subject::Fixup(t) => SubjectV::Fixup(t@),
            Subject::PullRequest { id, description } => SubjectV::PullRequest {
                id: id@,
                description: description@,
            },
            Subject::Release { version, scope, description } => SubjectV::Release {
                version: version@,
                scope: opt_view(*scope),
                description: description@,
            },
            Subject::Remove(t) => SubjectV::Remove(t@),
            Subject::Rename(t) => SubjectV::Rename(t@),
            Subject::Revert(t) => SubjectV::Revert(t@),
            Subject::SubtreeCommit { operation, description } => SubjectV::SubtreeCommit {
                operation: operation@,
                description: description@,
            },
            Subject::Simple(t) => SubjectV::Simple(t@),
        }
    }
}

/// The glyph shown for a category of a commit that breaks nothing.
pub open spec fn category_icon(c: Type) -> Seq<char> {
    match c {
        Type::Archive => "\u{f53b} "@,
        Type::Build => "\u{1f528}"@,
        Type::Change => "\u{e370} "@,
        Type::Improvement => "\u{e370} "@,
        Type::Chore => "\u{1f6a7}"@,
        Type::Ci => "\u{f085} "@,
        Type::Deprecate => "\u{f48e} "@,
        Type::Dev => "\u{1f6a9}"@,
        Type::Deps => "\u{f487} "@,
        Type::Docs => "\u{270e} "@,
        Type::Feat => "\u{1f381}"@,
        Type::Issue => "\u{f145} "@,
        Type::Fix => "\u{f188} "@,
        Type::I18n => "\u{fac9}"@,
        Type::Other => "  "@,
        Type::Perf => "\u{f9c4} "@,
        Type::Refactor => "\u{f021} "@,
        Type::Repo => "\u{f401} "@,
        Type::Security => "\u{f490} "@,
        Type::Style => "\u{2665} "@,
        Type::Test => "\u{f45e} "@,
    }
}

impl SubjectV {
    /// The text shown for the subject.
    pub open spec fn description(self) -> Seq<char> {
        match self {
            SubjectV::ConventionalCommit { description, .. } => description,
            SubjectV::Fixup(t) => t,
            SubjectV::PullRequest { description, .. } => description,
            SubjectV::Release { description, .. } => description,
            SubjectV::Remove(t) => t,
            SubjectV::Rename(t) => t,
            SubjectV::Revert(t) => t,
            SubjectV::SubtreeCommit { description, .. } => description,
            SubjectV::Simple(t) => t,
        }
    }

    /// The scope: that of a Conventional Commit or a release, or the path of
    /// a subtree; no other kind of subject has one.
    pub open spec fn scope(self) -> Option<Seq<char>> {
        match self {
            SubjectV::ConventionalCommit { scope, .. } => scope,
            SubjectV::Release { scope, .. } => scope,
            SubjectV::SubtreeCommit { operation, .. } => Some(operation.subtree()),
            _ => None,
        }
    }

    /// The glyph shown for the subject; a breaking change always shows the
    /// warning sign, whatever its category.
    pub open spec fn icon(self) -> Seq<char> {
        match self {
            SubjectV::Fixup(_) => "\u{f0e3} "@,
            SubjectV::ConventionalCommit { breaking_change, category, .. } => {
                if breaking_change {
                    "\u{26a0} "@
                } else {
                    category_icon(category)
                }
            },
            SubjectV::SubtreeCommit { operation, .. } => match operation {
                SubtreeOperationV::Import { .. } => "\u{2b88} "@,
                SubtreeOperationV::Split { .. } => "\u{f403} "@,
                SubtreeOperationV::Update { .. } => "\u{f419} "@,
            },
            SubjectV::Simple(_) => "  "@,
            SubjectV::Release { .. } => "\u{f412} "@,
            SubjectV::Remove(_) => "\u{f48e} "@,
            SubjectV::Rename(_) => "\u{f044} "@,
            SubjectV::Revert(_) => "\u{f0e2} "@,
            SubjectV::PullRequest { .. } => "\u{f407} "@,
        }
    }
}

fn category_glyph(c: &Type) -> (r: &'static str)
    ensures
        r@ == category_icon(*c),
{
    match c {
        Type::Archive => "\u{f53b} ",
        Type::Build => "\u{1f528}",
        Type::Change => "\u{e370} ",
        Type::Improvement => "\u{e370} ",
        Type::Chore => "\u{1f6a7}",
        Type::Ci => "\u{f085} ",
        Type::Deprecate => "\u{f48e} ",
        Type::Dev => "\u{1f6a9}",
        Type::Deps => "\u{f487} ",
        Type::Docs => "\u{270e} ",
        Type::Feat => "\u{1f381}",
        Type::Issue => "\u{f145} ",
        Type::Fix => "\u{f188} ",
        Type::I18n => "\u{fac9}",
        Type::Other => "  ",
        Type::Perf => "\u{f9c4} ",
        Type::Refactor => "\u{f021} ",
        Type::Repo => "\u{f401} ",
        Type::Security => "\u{f490} ",
        Type::Style => "\u{2665} ",
        Type::Test => "\u{f45e} ",
    }
}

impl Subject {
    /// A glyph that represents the subject.
    pub fn icon(&self) -> (r: &'static str)
        ensures
            r@ == self@.icon(),
    {
        match self {
            Subject::Fixup(_) => "\u{f0e3} ",
            Subject::ConventionalCommit { breaking_change, category, .. } => {
                if *breaking_change {
                    "\u{26a0} "
                } else {
                    category_glyph(category)
                }
            },
            Subject::SubtreeCommit { operation, .. } => match operation {
                SubtreeOperation::Import { .. } => "\u{2b88} ",
                SubtreeOperation::Split { .. } => "\u{f403} ",
                SubtreeOperation::Update { .. } => "\u{f419} ",
            },
            Subject::Simple(_) => "  ",
            Subject::Release { .. } => "\u{f412} ",
            Subject::Remove(_) => "\u{f48e} ",
            Subject::Rename(_) => "\u{f044} ",
            Subject::Revert(_) => "\u{f0e2} ",
            Subject::PullRequest { .. } => "\u{f407} ",
        }
    }

    /// The text shown for the subject.
    pub fn description(&self) -> (r: &str)
        ensures
            r@ == self@.description(),
    {
        match self {
            Subject::ConventionalCommit { description, .. } => description.as_str(),
            Subject::Fixup(t) => t.as_str(),
            Subject::PullRequest { description, .. } => description.as_str(),
            Subject::Release { description, .. } => description.as_str(),
            Subject::SubtreeCommit { description, .. } => description.as_str(),
            Subject::Remove(t) => t.as_str(),
            Subject::Rename(t) => t.as_str(),
            Subject::Revert(t) => t.as_str(),
            Subject::Simple(t) => t.as_str(),
        }
    }

    /// The scope of a Conventional Commit or a release, or the path of a
    /// subtree; `None` for every other subject.
    pub fn scope(&self) -> (r: Option<&String>)
        ensures
            r matches Some(t) ==> self@.scope() == Some(t@),
            r is None ==> self@.scope() is None,
    {
        match self {
            Subject::ConventionalCommit { scope, .. } => match scope {
                Some(t) => Some(t),
                None => None,
            },
            Subject::Release { scope, .. } => match scope {
                Some(t) => Some(t),
                None => None,
            },
            Subject::SubtreeCommit { operation, .. } => match operation {
                SubtreeOperation::Import { subtree, .. } => Some(subtree),
                SubtreeOperation::Split { subtree, .. } => Some(subtree),
                SubtreeOperation::Update { subtree, .. } => Some(subtree),
            },
            _ => None,
        }
    }
}

/// The accessors read a subject and change nothing: `description`, `scope`
/// and `icon` are functions of the subject's value, so asking a subject (or
/// an equal one) again gives the same answers.
pub proof fn lemma_accessors_stable(a: Subject, b: Subject)
    requires
        a@ == b@,
    ensures
        a@.description() == b@.description(),
        a@.scope() == b@.scope(),
        a@.icon() == b@.icon(),
{
}

} // verus!
