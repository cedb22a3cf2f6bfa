use git_source::git_url::GitUrl;
use git_source::ident::ident;
use git_source::reference::GitReference;
use git_source::reference::GitRevision;
use git_source::reference::SourceId;
use git_source::source::needs_fetch;
use git_source::source::Action;
use git_source::source::Binding;
use git_source::source::GitSource;
use git_source::source::Outcome;
use git_source::source::Phase;
use git_source::source::UpdateError;

fn repository() -> GitUrl {
    GitUrl::parse("https://github.com/carlhuda/cargo").unwrap()
}

fn branch(name: &str) -> GitReference {
    GitReference::Branch(name.to_string())
}

fn rev(id: &str) -> GitRevision {
    GitRevision { id: id.to_string() }
}

fn on_branch(name: &str) -> GitSource {
    GitSource::new(&SourceId::for_git(&repository(), branch(name)))
}

fn pinned_to(id: &str) -> GitSource {
    let source_id = SourceId::for_git(&repository(), branch("main"));
    GitSource::new(&source_id.with_precise(Some(id.to_string())))
}

/// Runs the source through the outcomes and returns what it asked for.
fn run(source: &mut GitSource, outcomes: Vec<Outcome>) -> Vec<Action> {
    let mut actions = vec![source.update()];
    for outcome in outcomes {
        assert!(source.expects(&outcome));
        actions.push(source.advance(outcome));
    }
    actions
}

#[test]
fn reference_is_shown_with_its_kind() {
    assert_eq!(branch("next").to_ref_string(), Some("branch=next".to_string()));
    assert_eq!(branch("master").to_ref_string(), None);
    assert_eq!(
        GitReference::Tag("v1.0".to_string()).to_ref_string(),
        Some("tag=v1.0".to_string())
    );
    assert_eq!(
        GitReference::Rev("abc123".to_string()).to_ref_string(),
        Some("rev=abc123".to_string())
    );
    assert_eq!(GitReference::Tag("master".to_string()).to_ref_string(), Some("tag=master".to_string()));
    assert_eq!(branch("next").as_str(), "next");
    assert_eq!(GitReference::Rev("abc123".to_string()).as_str(), "abc123");
}

#[test]
fn source_id_keeps_what_it_is_given() {
    let id = SourceId::for_git(&repository(), branch("main"));
    assert!(id.is_git());
    assert_eq!(id.url(), &repository());
    assert_eq!(id.git_reference(), Some(&branch("main")));
    assert_eq!(id.precise(), None);
    assert_eq!(id.reference(), branch("main"));
    let pinned = id.with_precise(Some("abc123".to_string()));
    assert_eq!(pinned.precise(), Some("abc123"));
    assert_eq!(pinned.git_reference(), Some(&branch("main")));
    assert_eq!(pinned.reference(), GitReference::Rev("abc123".to_string()));
    assert_eq!(pinned.with_precise(None), id);
    let other = SourceId { url: repository(), reference: None, precise: None };
    assert!(!other.is_git());
    assert_eq!(other.git_reference(), None);
}

#[test]
fn new_source_is_idle_and_unbound() {
    let source = on_branch("main");
    assert!(source.is_idle());
    assert!(!source.is_updated());
    assert_eq!(source.phase(), &Phase::Idle);
    assert_eq!(source.binding(), &Binding::Uninitialized);
    assert_eq!(source.url(), &repository());
    assert_eq!(source.reference(), &branch("main"));
    assert_eq!(source.ident(), ident(&repository()));
    assert_eq!(source.ident(), "cargo-0eed735c8ffd7c88");
    assert_eq!(source.source_id(), &SourceId::for_git(&repository(), branch("main")));
}

#[test]
fn new_source_resolves_by_the_pinned_revision() {
    let source = pinned_to("abc123");
    assert_eq!(source.reference(), &GitReference::Rev("abc123".to_string()));
    assert_eq!(source.source_id().git_reference(), Some(&branch("main")));
}

#[test]
fn paths_are_keyed_by_identity_and_reference() {
    let source = on_branch("next");
    assert_eq!(source.db_path(), vec!["db".to_string(), "cargo-0eed735c8ffd7c88".to_string()]);
    assert_eq!(
        source.checkout_path(),
        vec!["checkouts".to_string(), "cargo-0eed735c8ffd7c88".to_string(), "next".to_string()]
    );
    // The checkout is named after the reference asked for, pinned or not.
    let pinned = pinned_to("abc123");
    assert_eq!(
        pinned.checkout_path(),
        vec!["checkouts".to_string(), "cargo-0eed735c8ffd7c88".to_string(), "main".to_string()]
    );
}

#[test]
fn description_shows_url_and_reference() {
    assert_eq!(
        on_branch("next").describe(),
        "git repo at https://github.com/carlhuda/cargo (branch=next)"
    );
    assert_eq!(on_branch("master").describe(), "git repo at https://github.com/carlhuda/cargo");
    assert_eq!(
        pinned_to("abc123").describe(),
        "git repo at https://github.com/carlhuda/cargo (rev=abc123)"
    );
    assert_eq!(
        on_branch("next").status_message(),
        "git repository `https://github.com/carlhuda/cargo`"
    );
}

#[test]
fn fetch_is_needed_unless_pinned_and_resolved() {
    assert!(!needs_fetch(true, true));
    assert!(needs_fetch(true, false));
    assert!(needs_fetch(false, true));
    assert!(needs_fetch(false, false));
}

#[test]
fn branch_source_fetches_on_every_update() {
    let mut source = on_branch("main");
    for fresh in ["r1", "r2"] {
        let actions = run(
            &mut source,
            vec![
                Outcome::Completed,
                Outcome::Revision(rev("stale")),
                Outcome::Completed,
                Outcome::Completed,
                Outcome::Revision(rev(fresh)),
                Outcome::Completed,
                Outcome::Completed,
            ],
        );
        assert_eq!(
            actions,
            vec![
                Action::AcquireLock,
                Action::ResolveLocal,
                Action::Announce,
                Action::Fetch,
                Action::Resolve,
                Action::Copy { rev: rev(fresh) },
                Action::Scan,
                Action::Finish,
            ]
        );
        assert!(source.is_idle());
        assert_eq!(source.binding(), &Binding::Updated { rev: rev(fresh) });
    }
}

#[test]
fn branch_source_fetches_without_a_database() {
    let mut source = on_branch("main");
    let actions = run(&mut source, vec![Outcome::Completed, Outcome::Failed]);
    assert_eq!(actions, vec![Action::AcquireLock, Action::ResolveLocal, Action::Announce]);
    assert_eq!(source.phase(), &Phase::Announcing);
}

#[test]
fn pinned_source_reuses_the_database() {
    let mut source = pinned_to("abc123");
    for _ in 0..2 {
        let actions = run(
            &mut source,
            vec![
                Outcome::Completed,
                Outcome::Revision(rev("abc123")),
                Outcome::Completed,
                Outcome::Completed,
                Outcome::Completed,
            ],
        );
        assert_eq!(
            actions,
            vec![
                Action::AcquireLock,
                Action::ResolveLocal,
                Action::OpenDatabase,
                Action::Copy { rev: rev("abc123") },
                Action::Scan,
                Action::Finish,
            ]
        );
        assert!(source.is_idle());
        assert_eq!(source.binding(), &Binding::Updated { rev: rev("abc123") });
        assert_eq!(source.fingerprint(&"any package"), "abc123");
    }
}

#[test]
fn pinned_source_fetches_what_the_database_lacks() {
    let mut source = pinned_to("abc123");
    let actions = run(
        &mut source,
        vec![
            Outcome::Completed,
            Outcome::Failed,
            Outcome::Completed,
            Outcome::Completed,
            Outcome::Revision(rev("abc123")),
            Outcome::Completed,
            Outcome::Completed,
        ],
    );
    assert_eq!(
        actions,
        vec![
            Action::AcquireLock,
            Action::ResolveLocal,
            Action::Announce,
            Action::Fetch,
            Action::Resolve,
            Action::Copy { rev: rev("abc123") },
            Action::Scan,
            Action::Finish,
        ]
    );
    assert_eq!(source.binding(), &Binding::Updated { rev: rev("abc123") });
}

#[test]
fn update_without_lock_does_nothing() {
    let mut source = on_branch("main");
    let actions = run(&mut source, vec![Outcome::Failed]);
    assert_eq!(actions, vec![Action::AcquireLock, Action::Abort(UpdateError::LockUnavailable)]);
    assert!(source.is_idle());
    assert!(!source.is_updated());
}

#[test]
fn update_ends_where_a_step_fails() {
    let mut source = on_branch("main");
    let actions = run(&mut source, vec![Outcome::Completed, Outcome::Failed, Outcome::Failed]);
    assert_eq!(actions.last(), Some(&Action::Abort(UpdateError::ReportFailure)));
    assert!(source.is_idle() && !source.is_updated());

    let actions = run(
        &mut source,
        vec![Outcome::Completed, Outcome::Failed, Outcome::Completed, Outcome::Failed],
    );
    assert_eq!(actions.last(), Some(&Action::Abort(UpdateError::RemoteAccessFailure)));
    assert!(source.is_idle() && !source.is_updated());

    let actions = run(
        &mut source,
        vec![
            Outcome::Completed,
            Outcome::Revision(rev("stale")),
            Outcome::Completed,
            Outcome::Completed,
            Outcome::Failed,
        ],
    );
    assert_eq!(actions.last(), Some(&Action::Abort(UpdateError::ResolutionFailure)));
    assert!(source.is_idle() && !source.is_updated());

    let actions = run(
        &mut source,
        vec![
            Outcome::Completed,
            Outcome::Failed,
            Outcome::Completed,
            Outcome::Completed,
            Outcome::Revision(rev("r1")),
            Outcome::Failed,
        ],
    );
    assert_eq!(actions.last(), Some(&Action::Abort(UpdateError::CheckoutFailure)));
    assert!(source.is_idle() && !source.is_updated());

    let mut pinned = pinned_to("abc123");
    let actions = run(
        &mut pinned,
        vec![Outcome::Completed, Outcome::Revision(rev("abc123")), Outcome::Failed],
    );
    assert_eq!(actions.last(), Some(&Action::Abort(UpdateError::DatabaseFailure)));
    assert!(pinned.is_idle() && !pinned.is_updated());
}

#[test]
fn reader_failure_leaves_the_source_unbound() {
    let mut source = on_branch("main");
    let actions = run(
        &mut source,
        vec![
            Outcome::Completed,
            Outcome::Failed,
            Outcome::Completed,
            Outcome::Completed,
            Outcome::Revision(rev("r1")),
            Outcome::Completed,
            Outcome::Failed,
        ],
    );
    assert_eq!(actions.last(), Some(&Action::Abort(UpdateError::ReaderFailure)));
    assert!(source.is_idle());
    assert!(!source.is_updated());
    assert_eq!(source.binding(), &Binding::Uninitialized);
    assert_eq!(source.read_packages(), None);
}

#[test]
fn reader_failure_keeps_the_earlier_binding() {
    let mut source = on_branch("main");
    let fetch_of = |id: &str, scan: Outcome| {
        vec![
            Outcome::Completed,
            Outcome::Failed,
            Outcome::Completed,
            Outcome::Completed,
            Outcome::Revision(rev(id)),
            Outcome::Completed,
            scan,
        ]
    };
    run(&mut source, fetch_of("r1", Outcome::Completed));
    assert_eq!(source.binding(), &Binding::Updated { rev: rev("r1") });
    let actions = run(&mut source, fetch_of("r2", Outcome::Failed));
    assert_eq!(actions.last(), Some(&Action::Abort(UpdateError::ReaderFailure)));
    assert_eq!(source.binding(), &Binding::Updated { rev: rev("r1") });
    assert_eq!(source.fingerprint(&"package"), "r1");
}

#[test]
fn scan_is_of_the_checkout_with_the_new_revision() {
    let mut source = on_branch("next");
    assert!(!source.is_scanning());
    run(
        &mut source,
        vec![
            Outcome::Completed,
            Outcome::Failed,
            Outcome::Completed,
            Outcome::Completed,
            Outcome::Revision(rev("r1")),
            Outcome::Completed,
        ],
    );
    assert!(source.is_scanning());
    assert!(!source.is_updated());
    assert_eq!(source.phase(), &Phase::Scanning { rev: rev("r1") });
    let target = source.scan_target();
    assert_eq!(
        target.path,
        vec!["checkouts".to_string(), "cargo-0eed735c8ffd7c88".to_string(), "next".to_string()]
    );
    let expected = SourceId::for_git(&repository(), branch("next")).with_precise(Some("r1".to_string()));
    assert_eq!(target.source_id, expected);
    assert_eq!(source.advance(Outcome::Completed), Action::Finish);
    assert!(!source.is_scanning());
    assert_eq!(source.reader(), target);
}

#[test]
fn failed_update_keeps_the_earlier_checkout() {
    let mut source = pinned_to("abc123");
    run(
        &mut source,
        vec![
            Outcome::Completed,
            Outcome::Revision(rev("abc123")),
            Outcome::Completed,
            Outcome::Completed,
            Outcome::Completed,
        ],
    );
    let actions = run(&mut source, vec![Outcome::Failed]);
    assert_eq!(actions.last(), Some(&Action::Abort(UpdateError::LockUnavailable)));
    assert_eq!(source.binding(), &Binding::Updated { rev: rev("abc123") });
    assert_eq!(source.fingerprint(&7u8), "abc123");
}

#[test]
fn outcomes_are_expected_by_phase() {
    let mut source = on_branch("main");
    assert!(!source.expects(&Outcome::Completed));
    assert!(!source.expects(&Outcome::Failed));
    assert!(!source.expects(&Outcome::Revision(rev("r"))));
    source.update();
    assert!(source.expects(&Outcome::Completed));
    assert!(source.expects(&Outcome::Failed));
    assert!(!source.expects(&Outcome::Revision(rev("r"))));
    source.advance(Outcome::Completed);
    assert_eq!(source.phase(), &Phase::ResolvingLocal);
    assert!(!source.expects(&Outcome::Completed));
    assert!(source.expects(&Outcome::Failed));
    assert!(source.expects(&Outcome::Revision(rev("r"))));
}

#[test]
fn phases_follow_the_actions() {
    let mut source = pinned_to("abc123");
    source.update();
    assert_eq!(source.phase(), &Phase::Locking);
    source.advance(Outcome::Completed);
    assert_eq!(source.phase(), &Phase::ResolvingLocal);
    source.advance(Outcome::Revision(rev("abc123")));
    assert_eq!(source.phase(), &Phase::Opening { rev: rev("abc123") });
    source.advance(Outcome::Completed);
    assert_eq!(source.phase(), &Phase::Copying { rev: rev("abc123") });
    assert!(!source.is_updated());
    source.advance(Outcome::Completed);
    assert_eq!(source.phase(), &Phase::Scanning { rev: rev("abc123") });
    assert!(!source.is_updated());
    source.advance(Outcome::Completed);
    assert_eq!(source.phase(), &Phase::Idle);
    assert!(source.is_updated());
}

#[test]
fn reader_is_bound_to_checkout_and_pinned_source() {
    let mut source = on_branch("next");
    assert_eq!(source.read_packages(), None);
    run(
        &mut source,
        vec![
            Outcome::Completed,
            Outcome::Failed,
            Outcome::Completed,
            Outcome::Completed,
            Outcome::Revision(rev("r1")),
            Outcome::Completed,
            Outcome::Completed,
        ],
    );
    let checkout = source.reader();
    assert_eq!(
        checkout.path,
        vec!["checkouts".to_string(), "cargo-0eed735c8ffd7c88".to_string(), "next".to_string()]
    );
    let expected = SourceId::for_git(&repository(), branch("next")).with_precise(Some("r1".to_string()));
    assert_eq!(checkout.source_id, expected);
    assert_eq!(source.read_packages(), Some(checkout));
}

#[test]
fn fingerprint_is_the_revision_whatever_the_package() {
    let mut source = on_branch("main");
    run(
        &mut source,
        vec![
            Outcome::Completed,
            Outcome::Failed,
            Outcome::Completed,
            Outcome::Completed,
            Outcome::Revision(rev("0123abcd")),
            Outcome::Completed,
            Outcome::Completed,
        ],
    );
    assert_eq!(source.fingerprint(&"one"), "0123abcd");
    assert_eq!(source.fingerprint(&"another"), "0123abcd");
    assert_eq!(source.fingerprint(&42u32), "0123abcd");
    assert_eq!(rev("0123abcd").to_string(), "0123abcd");
}
