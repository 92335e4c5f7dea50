use vstd::prelude::*;
use vstd::string::*;

use crate::outside::{caps_view, captures, lower_of, lowercase, regex_captures};
use crate::subject::{opt_view, Subject, SubjectV, SubtreeOperation, SubtreeOperationV, Type};
use crate::text::{
    ends_with_bang, has_bang_suffix, has_prefix, is_prefix, same_text, strip_bang, without_bang,
};

verus! {

/// A release of a named component: `Release foo@v1.2`.
pub const RELEASE_SCOPED: &'static str = r"(?i)^(?:Release|Bump) :?(.+)@v?([0-9.]+)\b.*";

/// A release: `Release v1.2`.
pub const RELEASE: &'static str = r"(?i)^(?:Release|Bump)\s.*?v?([0-9.]+).*";

/// A pull request merged on Azure DevOps.
pub const PR_AZURE: &'static str = r"^Merged PR (\d+): (.*)$";

/// A pull request merged from a remote-tracking branch or on GitHub.
pub const PR_MERGE: &'static str =
    r"^Merge (?:remote-tracking branch '.+/pr/(\d+)'|pull request #(\d+) from .+)$";

/// A pull request merged on Bitbucket.
pub const PR_BITBUCKET: &'static str = r"^Merge pull request #(\d+) in .+ from .+$";

/// A pull request merged by bors.
pub const PR_BORS: &'static str = r"^Merge #(\d+)";

/// A subtree brought up to a new reference.
pub const SUBTREE_UPDATE: &'static str = r"^Update :?(.+) to (.+)";

/// A subtree imported from a repository.
pub const SUBTREE_IMPORT: &'static str = r"^:?(.+) Import .+⸪(.+)";

/// A subtree split off into a commit.
pub const SUBTREE_SPLIT: &'static str = r"^Split '(.+)/' into commit '(.+)'";

/// The shorthand for a feature.
pub const ADD: &'static str = r"(?i)^add:?\s*";

/// The shorthand for a fix.
pub const FIX: &'static str = r"(?i)^(bug)?fix(ing|ed)?(\(.+\))?[/:\s]+";

/// The Conventional Commits grammar: type, optional scope, description.
pub const CONVENTIONAL: &'static str =
    r"(?i)^(SECURITY FIX!?|BREAKING CHANGE!?|\w+!?)(\(.+\)!?)?[/:\s]+(.+)";

/// Group `i` of `c`, where it exists and took part in the match.
pub open spec fn opt_group(c: Seq<Option<Seq<char>>>, i: int) -> Option<Seq<char>> {
    if 0 <= i < c.len() {
        c[i]
    } else {
        None
    }
}

/// The text of group `i` of `c`; empty where the group is missing.
pub open spec fn group(c: Seq<Option<Seq<char>>>, i: int) -> Seq<char> {
    match opt_group(c, i) {
        Some(t) => t,
        None => Seq::empty(),
    }
}

/// The category that a lower-case type token names.
pub open spec fn category_of(t: Seq<char>) -> Type {
    if t == "archive"@ {
        Type::Archive
    } else if t == "build"@ {
        Type::Build
    } else if t == "breaking change"@ || t == "change"@ {
        Type::Change
    } else if t == "chore"@ {
        Type::Chore
    } else if t == "ci"@ {
        Type::Ci
    } else if t == "deprecate"@ {
        Type::Deprecate
    } else if t == "deps"@ {
        Type::Deps
    } else if t == "dev"@ {
        Type::Dev
    } else if t == "docs"@ {
        Type::Docs
    } else if t == "add"@ || t == "feat"@ || t == "feature"@ {
        Type::Feat
    } else if t == "bugfix"@ || t == "fix"@ || t == "hotfix"@ {
        Type::Fix
    } else if t == "security"@ || t == "security fix"@ {
        Type::Security
    } else if t == "i18n"@ {
        Type::I18n
    } else if t == "gi"@ || t == "issue"@ || t == "done"@ {
        Type::Issue
    } else if t == "improvement"@ {
        Type::Improvement
    } else if t == "perf"@ {
        Type::Perf
    } else if t == "internal"@ || t == "refactor"@ {
        Type::Refactor
    } else if t == "repo"@ {
        Type::Repo
    } else if t == "style"@ {
        Type::Style
    } else if t == "test"@ || t == "tests"@ {
        Type::Test
    } else {
        Type::Other
    }
}

/// The scope token with its trailing `!` and its parentheses taken off;
/// `None` where nothing is left.
pub open spec fn scope_of(token: Seq<char>) -> Option<Seq<char>> {
    let t = strip_bang(token);
    let inner = if t.len() >= 3 {
        t.subrange(1, t.len() - 1)
    } else {
        t
    };
    if inner.len() == 0 {
        None
    } else {
        Some(inner)
    }
}

/// A Conventional Commit from the groups of the grammar (group 1 is the
/// type, group 2 the scope, group 3 the description) and `lower_type`, the
/// type in lower case without its trailing `!`. A commit of category `Other`
/// keeps the whole match as its description, and a breaking change has `! `
/// put before it.
pub open spec fn conventional(c: Seq<Option<Seq<char>>>, lower_type: Seq<char>) -> SubjectV {
    let breaking = ends_with_bang(group(c, 1)) || ends_with_bang(group(c, 2)) || lower_type
        == "breaking change"@;
    let category = category_of(lower_type);
    let text = if category == Type::Other {
        group(c, 0)
    } else {
        group(c, 3)
    };
    SubjectV::ConventionalCommit {
        breaking_change: breaking,
        category,
        scope: scope_of(group(c, 2)),
        description: if breaking {
            "! "@ + text
        } else {
            text
        },
    }
}

/// A merged pull request whose number is group 1, else group 2; a plain
/// subject where neither took part in the match.
pub open spec fn merged_pr(c: Seq<Option<Seq<char>>>, s: Seq<char>) -> SubjectV {
    if opt_group(c, 1) is Some {
        SubjectV::PullRequest { id: group(c, 1), description: s }
    } else if opt_group(c, 2) is Some {
        SubjectV::PullRequest { id: group(c, 2), description: s }
    } else {
        SubjectV::Simple(s)
    }
}

/// A shorthand that makes a Conventional Commit of `category` from the whole
/// subject.
pub open spec fn shorthand(category: Type, s: Seq<char>) -> SubjectV {
    SubjectV::ConventionalCommit {
        breaking_change: false,
        category,
        scope: None,
        description: s,
    }
}

/// The classification of the subject `s`: the first rule that applies wins.
pub open spec fn classified(s: Seq<char>) -> SubjectV {
    let low = lower_of(s);
    if regex_captures(RELEASE_SCOPED@, s) is Some {
        let c = regex_captures(RELEASE_SCOPED@, s).unwrap();
        SubjectV::Release { version: group(c, 2), scope: Some(group(c, 1)), description: s }
    } else if regex_captures(RELEASE@, s) is Some {
        let c = regex_captures(RELEASE@, s).unwrap();
        SubjectV::Release { version: group(c, 1), scope: None, description: s }
    } else if regex_captures(PR_AZURE@, s) is Some {
        let c = regex_captures(PR_AZURE@, s).unwrap();
        SubjectV::PullRequest {
            id: group(c, 1),
            description: group(c, 2) + " (#"@ + group(c, 1) + ")"@,
        }
    } else if regex_captures(PR_MERGE@, s) is Some {
        merged_pr(regex_captures(PR_MERGE@, s).unwrap(), s)
    } else if regex_captures(PR_BITBUCKET@, s) is Some {
        merged_pr(regex_captures(PR_BITBUCKET@, s).unwrap(), s)
    } else if regex_captures(PR_BORS@, s) is Some {
        merged_pr(regex_captures(PR_BORS@, s).unwrap(), s)
    } else if is_prefix("fixup!"@, s) {
        SubjectV::Fixup(s)
    } else if regex_captures(SUBTREE_UPDATE@, s) is Some {
        let c = regex_captures(SUBTREE_UPDATE@, s).unwrap();
        SubjectV::SubtreeCommit {
            operation: SubtreeOperationV::Update { subtree: group(c, 1), git_ref: group(c, 2) },
            description: s,
        }
    } else if regex_captures(SUBTREE_IMPORT@, s) is Some {
        let c = regex_captures(SUBTREE_IMPORT@, s).unwrap();
        SubjectV::SubtreeCommit {
            operation: SubtreeOperationV::Import { subtree: group(c, 1), git_ref: group(c, 2) },
            description: s,
        }
    } else if regex_captures(SUBTREE_SPLIT@, s) is Some {
        let c = regex_captures(SUBTREE_SPLIT@, s).unwrap();
        SubjectV::SubtreeCommit {
            operation: SubtreeOperationV::Split { subtree: group(c, 1), git_ref: group(c, 2) },
            description: s,
        }
    } else if is_prefix("remove "@, low) {
        SubjectV::Remove(s)
    } else if is_prefix("rename "@, low) || is_prefix("move "@, low) {
        SubjectV::Rename(s)
    } else if is_prefix("revert "@, low) {
        SubjectV::Revert(s)
    } else if regex_captures(ADD@, s) is Some {
        shorthand(Type::Feat, s)
    } else if regex_captures(FIX@, s) is Some {
        shorthand(Type::Fix, s)
    } else if is_prefix("deprecate "@, low) {
        shorthand(Type::Deprecate, s)
    } else if regex_captures(CONVENTIONAL@, s) is Some {
        let c = regex_captures(CONVENTIONAL@, s).unwrap();
        conventional(c, lower_of(strip_bang(group(c, 1))))
    } else {
        SubjectV::Simple(s)
    }
}

fn group_at(c: &Vec<Option<String>>, i: usize) -> (r: Option<String>)
    ensures
        opt_view(r) == opt_group(caps_view(c@), i as int),
{
    if i < c.len() {
        match &c[i] {
            Some(t) => Some(t.clone()),
            None => None,
        }
    } else {
        None
    }
}

fn group_text(c: &Vec<Option<String>>, i: usize) -> (r: String)
    ensures
        r@ == group(caps_view(c@), i as int),
{
    match group_at(c, i) {
        Some(t) => t,
        None => String::new(),
    }
}

/// The category that the lower-case type token `t` names.
pub fn category_of_text(t: &str) -> (r: Type)
    ensures
        r == category_of(t@),
{
    if same_text(t, "archive") {
        Type::Archive
    } else if same_text(t, "build") {
        Type::Build
    } else if same_text(t, "breaking change") || same_text(t, "change") {
        Type::Change
    } else if same_text(t, "chore") {
        Type::Chore
    } else if same_text(t, "ci") {
        Type::Ci
    } else if same_text(t, "deprecate") {
        Type::Deprecate
    } else if same_text(t, "deps") {
        Type::Deps
    } else if same_text(t, "dev") {
        Type::Dev
    } else if same_text(t, "docs") {
        Type::Docs
    } else if same_text(t, "add") || same_text(t, "feat") || same_text(t, "feature") {
        Type::Feat
    } else if same_text(t, "bugfix") || same_text(t, "fix") || same_text(t, "hotfix") {
        Type::Fix
    } else if same_text(t, "security") || same_text(t, "security fix") {
        Type::Security
    } else if same_text(t, "i18n") {
        Type::I18n
    } else if same_text(t, "gi") || same_text(t, "issue") || same_text(t, "done") {
        Type::Issue
    } else if same_text(t, "improvement") {
        Type::Improvement
    } else if same_text(t, "perf") {
        Type::Perf
    } else if same_text(t, "internal") || same_text(t, "refactor") {
        Type::Refactor
    } else if same_text(t, "repo") {
        Type::Repo
    } else if same_text(t, "style") {
        Type::Style
    } else if same_text(t, "test") || same_text(t, "tests") {
        Type::Test
    } else {
        Type::Other
    }
}

/// The scope within a scope token: see [`scope_of`].
fn scope_from_token(token: &str) -> (r: Option<String>)
    ensures
        opt_view(r) == scope_of(token@),
{
    let t = without_bang(token);
    let n = t.as_str().unicode_len();
    let inner = if n >= 3 {
        String::from_str(t.as_str().substring_char(1, n - 1))
    } else {
        t
    };
    if inner.as_str().unicode_len() == 0 {
        None
    } else {
        Some(inner)
    }
}

impl Subject {
    /// A Conventional Commit from the groups of [`CONVENTIONAL`] and
    /// `lower_type`, the type (group 1) in lower case without its trailing
    /// `!`: see [`conventional`].
    pub fn parse_conventional_commit(groups: &Vec<Option<String>>, lower_type: &str) -> (r: Subject)
        ensures
            r@ == conventional(caps_view(groups@), lower_type@),
    {
        let kind = group_text(groups, 1);
        let scope_token = group_text(groups, 2);
        let breaking_change = has_bang_suffix(kind.as_str()) || has_bang_suffix(
            scope_token.as_str(),
        ) || same_text(lower_type, "breaking change");
        let category = category_of_text(lower_type);
        let text = if category == Type::Other {
            group_text(groups, 0)
        } else {
            group_text(groups, 3)
        };
        let description = if breaking_change {
            let mut marked = String::from_str("! ");
            marked.append(text.as_str());
            marked
        } else {
            text
        };
        Subject::ConventionalCommit {
            breaking_change,
            category,
            scope: scope_from_token(scope_token.as_str()),
            description,
        }
    }

    /// A merged pull request from the groups of one of the merge patterns:
    /// its number is group 1, else group 2; where neither took part in the
    /// match, the subject stays `Simple`.
    pub fn parse_pr(groups: &Vec<Option<String>>, subject: &str) -> (r: Subject)
        ensures
            r@ == merged_pr(caps_view(groups@), subject@),
    {
        let id = match group_at(groups, 1) {
            Some(n) => n,
            None => match group_at(groups, 2) {
                Some(n) => n,
                None => {
                    return Subject::Simple(String::from_str(subject));
                },
            },
        };
        Subject::PullRequest { id, description: String::from_str(subject) }
    }
}

/// A shorthand Conventional Commit of `category` made of the whole subject.
fn from_shorthand(category: Type, subject: &str) -> (r: Subject)
    ensures
        r@ == shorthand(category, subject@),
{
    Subject::ConventionalCommit {
        breaking_change: false,
        category,
        scope: None,
        description: String::from_str(subject),
    }
}

/// Classifies a commit subject. Every subject is classified: one that no
/// rule fits is `Simple`.
pub fn classify(subject: &str) -> (r: Subject)
    ensures
        r@ == classified(subject@),
{
    let whole = String::from_str(subject);
    if let Some(c) = captures(RELEASE_SCOPED, subject) {
        let version = group_text(&c, 2);
        let scope = group_text(&c, 1);
        Subject::Release { version, scope: Some(scope), description: whole }
    } else if let Some(c) = captures(RELEASE, subject) {
        let version = group_text(&c, 1);
        Subject::Release { version, scope: None, description: whole }
    } else if let Some(c) = captures(PR_AZURE, subject) {
        let id = group_text(&c, 1);
        let mut description = group_text(&c, 2);
        description.append(" (#");
        description.append(id.as_str());
        description.append(")");
        Subject::PullRequest { id, description }
    } else if let Some(c) = captures(PR_MERGE, subject) {
        Subject::parse_pr(&c, subject)
    } else if let Some(c) = captures(PR_BITBUCKET, subject) {
        Subject::parse_pr(&c, subject)
    } else if let Some(c) = captures(PR_BORS, subject) {
        Subject::parse_pr(&c, subject)
    } else if has_prefix(subject, "fixup!") {
        Subject::Fixup(whole)
    } else if let Some(c) = captures(SUBTREE_UPDATE, subject) {
        let operation = SubtreeOperation::Update {
            subtree: group_text(&c, 1),
            git_ref: group_text(&c, 2),
        };
        Subject::SubtreeCommit { operation, description: whole }
    } else if let Some(c) = captures(SUBTREE_IMPORT, subject) {
        let operation = SubtreeOperation::Import {
            subtree: group_text(&c, 1),
            git_ref: group_text(&c, 2),
        };
        Subject::SubtreeCommit { operation, description: whole }
    } else if let Some(c) = captures(SUBTREE_SPLIT, subject) {
        let operation = SubtreeOperation::Split {
            subtree: group_text(&c, 1),
            git_ref: group_text(&c, 2),
        };
        Subject::SubtreeCommit { operation, description: whole }
    } else {
        let low = lowercase(subject);
        if has_prefix(low.as_str(), "remove ") {
            Subject::Remove(whole)
        } else if has_prefix(low.as_str(), "rename ") || has_prefix(low.as_str(), "move ") {
            Subject::Rename(whole)
        } else if has_prefix(low.as_str(), "revert ") {
            Subject::Revert(whole)
        } else if captures(ADD, subject).is_some() {
            from_shorthand(Type::Feat, subject)
        } else if captures(FIX, subject).is_some() {
            from_shorthand(Type::Fix, subject)
        } else if has_prefix(low.as_str(), "deprecate ") {
            from_shorthand(Type::Deprecate, subject)
        } else if let Some(c) = captures(CONVENTIONAL, subject) {
            let kind = group_text(&c, 1);
            let lower_type = lowercase(without_bang(kind.as_str()).as_str());
            Subject::parse_conventional_commit(&c, lower_type.as_str())
        } else {
            Subject::Simple(whole)
        }
    }
}

impl<'a> From<&'a str> for Subject {
    /// Classifies a commit subject: see [`classify`].
    fn from(subject: &'a str) -> (r: Subject)
        ensures
            r@ == classified(subject@),
    {
        classify(subject)
    }
}

impl<'a> vstd::std_specs::convert::FromSpecImpl<&'a str> for Subject {
    /// `from` is stated over the view of its result, in its own `ensures`,
    /// rather than as one value of `Subject`.
    open spec fn obeys_from_spec() -> bool {
        false
    }

    open spec fn from_spec(v: &'a str) -> Subject {
        choose|r: Subject| r@ == classified(v@)
    }
}

/// A subject that a release pattern matches is a release even where the
/// Conventional Commits grammar matches it too: the release rules come first.
pub proof fn lemma_release_before_grammar(s: Seq<char>)
    requires
        regex_captures(RELEASE_SCOPED@, s) is Some || regex_captures(RELEASE@, s) is Some,
        regex_captures(CONVENTIONAL@, s) is Some,
    ensures
        classified(s) is Release,
        classified(s).description() == s,
{
}

} // verus!
