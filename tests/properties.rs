use subject_classifier::{category_of_text, classify, Subject, SubtreeOperation, Type};

fn conventional(breaking: bool, category: Type, scope: Option<&str>, text: &str) -> Subject {
    Subject::ConventionalCommit {
        breaking_change: breaking,
        category,
        scope: scope.map(|s| s.to_owned()),
        description: text.to_owned(),
    }
}

#[test]
fn empty_subject_is_simple() {
    assert_eq!(Subject::from(""), Subject::Simple(String::new()));
    assert_eq!(Subject::from("").description(), "");
    assert_eq!(Subject::from("").scope(), None);
}

#[test]
fn non_ascii_subjects_are_classified() {
    assert_eq!(Subject::from("日本語"), Subject::Simple("日本語".to_owned()));
    assert_eq!(
        Subject::from("Ünïcode: grüße"),
        conventional(false, Type::Other, None, "Ünïcode: grüße")
    );
}

#[test]
fn classify_agrees_with_from() {
    for text in ["feat: x", "Release v1.0", "Merge #12", "anything", ""] {
        assert_eq!(classify(text), Subject::from(text));
    }
}

#[test]
fn release_wins_over_grammar() {
    let text = "Release v3.0: big";
    assert_eq!(
        Subject::from(text),
        Subject::Release {
            version: "3.0".to_owned(),
            scope: None,
            description: text.to_owned()
        }
    );
    let text = "bump :core@3.4";
    assert_eq!(
        Subject::from(text),
        Subject::Release {
            version: "3.4".to_owned(),
            scope: Some("core".to_owned()),
            description: text.to_owned()
        }
    );
}

#[test]
fn type_token_alone_is_simple() {
    assert_eq!(Subject::from("feat"), Subject::Simple("feat".to_owned()));
}

#[test]
fn bors_merge() {
    let text = "Merge #4711";
    assert_eq!(
        Subject::from(text),
        Subject::PullRequest {
            id: "4711".to_owned(),
            description: text.to_owned()
        }
    );
}

#[test]
fn github_merge() {
    let text = "Merge pull request #42 from user/branch";
    assert_eq!(
        Subject::from(text),
        Subject::PullRequest {
            id: "42".to_owned(),
            description: text.to_owned()
        }
    );
}

#[test]
fn pull_request_without_number_stays_simple() {
    let groups = vec![Some("Merge".to_owned()), None, None];
    assert_eq!(
        Subject::parse_pr(&groups, "Merge"),
        Subject::Simple("Merge".to_owned())
    );
    let groups = vec![Some("Merge x".to_owned()), None, Some("9".to_owned())];
    assert_eq!(
        Subject::parse_pr(&groups, "Merge x"),
        Subject::PullRequest {
            id: "9".to_owned(),
            description: "Merge x".to_owned()
        }
    );
}

#[test]
fn fixup_commit() {
    let text = "fixup! feat: thing";
    assert_eq!(Subject::from(text), Subject::Fixup(text.to_owned()));
    assert_eq!(Subject::from(text).icon(), "\u{f0e3} ");
}

#[test]
fn lexical_prefixes_ignore_case() {
    let text = "REMOVE the old parser";
    assert_eq!(Subject::from(text), Subject::Remove(text.to_owned()));
    let text = "Move docs to wiki";
    assert_eq!(Subject::from(text), Subject::Rename(text.to_owned()));
    let text = "revert \"feat: x\"";
    assert_eq!(Subject::from(text), Subject::Revert(text.to_owned()));
}

#[test]
fn shorthands() {
    let text = "Add support for tags";
    assert_eq!(Subject::from(text), conventional(false, Type::Feat, None, text));
    let text = "Fixed crash on start";
    assert_eq!(Subject::from(text), conventional(false, Type::Fix, None, text));
    let text = "bugfix(ui): wrong colour";
    assert_eq!(Subject::from(text), conventional(false, Type::Fix, None, text));
}

#[test]
fn breaking_marker_on_scope_and_other() {
    assert_eq!(
        Subject::from("feat(api)!: drop v1"),
        conventional(true, Type::Feat, Some("api"), "! drop v1")
    );
    assert_eq!(
        Subject::from("wip!: half done"),
        conventional(true, Type::Other, None, "! wip!: half done")
    );
}

#[test]
fn parse_conventional_commit_on_given_groups() {
    let groups = vec![
        Some("Docs(Book)!: x".to_owned()),
        Some("Docs".to_owned()),
        Some("(Book)!".to_owned()),
        Some("x".to_owned()),
    ];
    assert_eq!(
        Subject::parse_conventional_commit(&groups, "docs"),
        conventional(true, Type::Docs, Some("Book"), "! x")
    );
    let groups = vec![
        Some("Thing: x".to_owned()),
        Some("Thing".to_owned()),
        None,
        Some("x".to_owned()),
    ];
    assert_eq!(
        Subject::parse_conventional_commit(&groups, "thing"),
        conventional(false, Type::Other, None, "Thing: x")
    );
}

#[test]
fn category_table() {
    let table = [
        ("archive", Type::Archive),
        ("build", Type::Build),
        ("breaking change", Type::Change),
        ("change", Type::Change),
        ("chore", Type::Chore),
        ("ci", Type::Ci),
        ("deprecate", Type::Deprecate),
        ("deps", Type::Deps),
        ("dev", Type::Dev),
        ("docs", Type::Docs),
        ("add", Type::Feat),
        ("feat", Type::Feat),
        ("feature", Type::Feat),
        ("bugfix", Type::Fix),
        ("fix", Type::Fix),
        ("hotfix", Type::Fix),
        ("security", Type::Security),
        ("security fix", Type::Security),
        ("i18n", Type::I18n),
        ("gi", Type::Issue),
        ("issue", Type::Issue),
        ("done", Type::Issue),
        ("improvement", Type::Improvement),
        ("perf", Type::Perf),
        ("internal", Type::Refactor),
        ("refactor", Type::Refactor),
        ("repo", Type::Repo),
        ("style", Type::Style),
        ("test", Type::Test),
        ("tests", Type::Test),
        ("Feat", Type::Other),
        ("makefile", Type::Other),
        ("", Type::Other),
    ];
    for (token, category) in table {
        assert_eq!(category_of_text(token), category, "{}", token);
    }
}

#[test]
fn upper_case_type_is_lowered() {
    assert_eq!(
        Subject::from("PERF: faster"),
        conventional(false, Type::Perf, None, "faster")
    );
}

#[test]
fn accessors_per_variant() {
    let release = Subject::from("Release foo@v2.11.0");
    assert_eq!(release.scope(), Some(&"foo".to_owned()));
    assert_eq!(release.icon(), "\u{f412} ");
    assert_eq!(release.description(), "Release foo@v2.11.0");

    let split = Subject::from("Split 'rust/' into commit 'abc'");
    assert_eq!(split.scope(), Some(&"rust".to_owned()));
    assert_eq!(split.icon(), "\u{f403} ");

    let update = Subject::from("Update :lib to 1234");
    assert_eq!(update.scope(), Some(&"lib".to_owned()));
    assert_eq!(update.icon(), "\u{f419} ");

    let pr = Subject::from("Merged PR 1: x");
    assert_eq!(pr.scope(), None);
    assert_eq!(pr.icon(), "\u{f407} ");
    assert_eq!(pr.description(), "x (#1)");

    let simple = Subject::from("just words");
    assert_eq!(simple.scope(), None);
    assert_eq!(simple.icon(), "  ");

    assert_eq!(Subject::from("Remove x").icon(), "\u{f48e} ");
    assert_eq!(Subject::from("Rename x").icon(), "\u{f044} ");
    assert_eq!(Subject::from("Revert x").icon(), "\u{f0e2} ");
    assert_eq!(Subject::from("build: x").icon(), "\u{1f528}");
    assert_eq!(Subject::from("docs: x").icon(), "\u{270e} ");
    assert_eq!(Subject::from("feat: x").icon(), "\u{1f381}");
    assert_eq!(Subject::from("feat!: x").icon(), "\u{26a0} ");
    assert_eq!(Subject::from("style: x").icon(), "\u{2665} ");
    assert_eq!(Subject::from("x: y").icon(), "  ");
}

#[test]
fn import_subtree_accessors() {
    let text = ":a/b Import GH:github.com/x/y\u{2e2a}v1";
    let result = Subject::from(text);
    assert_eq!(
        result,
        Subject::SubtreeCommit {
            operation: SubtreeOperation::Import {
                subtree: "a/b".to_owned(),
                git_ref: "v1".to_owned()
            },
            description: text.to_owned()
        }
    );
    assert_eq!(result.icon(), "\u{2b88} ");
    assert_eq!(result.scope(), Some(&"a/b".to_owned()));
}

#[test]
fn accessors_are_stable() {
    for text in [
        "build(repo): Always use local file-expert",
        "Release foo@v2.11.0",
        "Update :qubes-builder to 5e5301b8eac",
        "plain",
    ] {
        let result = Subject::from(text);
        assert_eq!(result.description(), result.description());
        assert_eq!(result.scope(), result.scope());
        assert_eq!(result.icon(), result.icon());
        assert_eq!(result, Subject::from(text));
    }
}
