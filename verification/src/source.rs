//! A source of packages in a git repository, and the steps by which its
//! cached copy is brought up to date.
//!
//! A [`GitSource`] does no work on the repository itself. It says what is to
//! be done next, is told how that went, and keeps the state in between. The
//! lock on the cache is taken first and given back with the last action of an
//! update, whichever that is.

use crate::git_url::GitUrl;
use crate::ident::ident;
use crate::ident::ident_of;
use crate::reference::GitReference;
use crate::reference::GitRevision;
use crate::reference::SourceId;
use vstd::prelude::*;
use vstd::string::StringExecFns;

verus! {

/// Why an update ended without a checkout to read from.
#[derive(Debug, Clone, Copy, PartialEq, Eq, Structural)]
pub enum UpdateError {
    /// The lock on the cache could not be taken.
    LockUnavailable,
    /// The progress of the update could not be reported.
    ReportFailure,
    /// The remote repository could not be fetched.
    RemoteAccessFailure,
    /// The reference names nothing in the repository, even after a fetch.
    ResolutionFailure,
    /// The database in the cache could not be opened.
    DatabaseFailure,
    /// The revision could not be copied to the checkout.
    CheckoutFailure,
    /// The package reader could not read the checkout.
    ReaderFailure,
}

/// What is to be done next.
#[derive(Debug, PartialEq, Eq)]
pub enum Action {
    /// Take the lock on the cache.
    AcquireLock,
    /// Resolve the reference against the database in the cache, without
    /// reaching for the remote repository.
    ResolveLocal,
    /// Report that the repository is being updated.
    Announce,
    /// Fetch the remote repository into the database.
    Fetch,
    /// Resolve the reference against the database just fetched.
    Resolve,
    /// Open the database in the cache.
    OpenDatabase,
    /// Replace the checkout by the tree of this revision.
    Copy { rev: GitRevision },
    /// Let a package reader look for packages in the checkout.
    Scan,
    /// Give the lock back: the update is done.
    Finish,
    /// Give the lock back: the update failed.
    Abort(UpdateError),
}

/// How the last action went.
#[derive(Debug, PartialEq, Eq)]
pub enum Outcome {
    /// It was done.
    Completed,
    /// The reference was resolved to this revision.
    Revision(GitRevision),
    /// It failed.
    Failed,
}

/// Where an update stands: which action's outcome is awaited.
#[derive(Debug, PartialEq, Eq)]
pub enum Phase {
    /// No update is under way.
    Idle,
    Locking,
    ResolvingLocal,
    Announcing,
    Fetching,
    Resolving,
    Opening { rev: GitRevision },
    Copying { rev: GitRevision },
    Scanning { rev: GitRevision },
}

/// Whether there is a checkout to read packages from.
#[derive(Debug, PartialEq, Eq)]
pub enum Binding {
    /// No update has succeeded.
    Uninitialized,
    /// The checkout holds this revision, and the package reader is bound to
    /// it.
    Updated { rev: GitRevision },
}

/// What the package reader is bound to: the checkout, as the names that lead
/// to it from the root of the cache, and the source with its revision pinned.
#[derive(Debug, PartialEq, Eq)]
pub struct Checkout {
    pub path: Vec<String>,
    pub source_id: SourceId,
}

/// The characters of each string.
pub open spec fn names(path: Seq<String>) -> Seq<Seq<char>> {
    path.map_values(|name: String| name@)
}

/// Whether the remote repository has to be fetched: always, unless a revision
/// is pinned and the database in the cache already resolves it.
pub open spec fn must_fetch(resolved_locally: bool, pinned: bool) -> bool {
    !resolved_locally || !pinned
}

/// Whether the remote repository has to be fetched.
pub fn needs_fetch(resolved_locally: bool, pinned: bool) -> (r: bool)
    ensures
        r == must_fetch(resolved_locally, pinned),
{
    !resolved_locally || !pinned
}

/// The state of a source.
pub struct SourceState {
    /// The source as it was asked for.
    pub source_id: SourceId,
    /// The reference by which it is resolved.
    pub reference: GitReference,
    /// The identity of its repository.
    pub ident: Seq<char>,
    pub phase: Phase,
    pub binding: Binding,
}

impl SourceState {
    /// The state of a new source: idle, with no checkout.
    pub open spec fn initial(source_id: SourceId) -> SourceState {
        SourceState {
            source_id,
            reference: source_id.resolved_reference(),
            ident: ident_of(source_id.url@),
            phase: Phase::Idle,
            binding: Binding::Uninitialized,
        }
    }

    /// A revision is pinned.
    pub open spec fn pinned(self) -> bool {
        self.source_id.precise.is_some()
    }

    /// The state after an update was begun.
    pub open spec fn started(self) -> SourceState {
        SourceState { phase: Phase::Locking, ..self }
    }

    /// The state with another phase.
    pub open spec fn at(self, phase: Phase) -> SourceState {
        SourceState { phase, ..self }
    }

    /// `outcome` is one that the awaited action can have.
    pub open spec fn expects(self, outcome: Outcome) -> bool {
        match self.phase {
            Phase::Idle => false,
            Phase::ResolvingLocal | Phase::Resolving => !(outcome is Completed),
            _ => !(outcome is Revision),
        }
    }

    /// The state after `outcome`, and what is to be done then.
    pub open spec fn next(self, outcome: Outcome) -> (SourceState, Action) {
        match (self.phase, outcome) {
            (Phase::Locking, Outcome::Completed) => (
                self.at(Phase::ResolvingLocal),
                Action::ResolveLocal,
            ),
            (Phase::Locking, _) => (
                self.at(Phase::Idle),
                Action::Abort(UpdateError::LockUnavailable),
            ),
            (Phase::ResolvingLocal, Outcome::Revision(rev)) => if must_fetch(true, self.pinned()) {
                (self.at(Phase::Announcing), Action::Announce)
            } else {
                (self.at(Phase::Opening { rev }), Action::OpenDatabase)
            },
            (Phase::ResolvingLocal, _) => (self.at(Phase::Announcing), Action::Announce),
            (Phase::Announcing, Outcome::Completed) => (self.at(Phase::Fetching), Action::Fetch),
            (Phase::Announcing, _) => (
                self.at(Phase::Idle),
                Action::Abort(UpdateError::ReportFailure),
            ),
            (Phase::Fetching, Outcome::Completed) => (self.at(Phase::Resolving), Action::Resolve),
            (Phase::Fetching, _) => (
                self.at(Phase::Idle),
                Action::Abort(UpdateError::RemoteAccessFailure),
            ),
            (Phase::Resolving, Outcome::Revision(rev)) => (
                self.at(Phase::Copying { rev }),
                Action::Copy { rev },
            ),
            (Phase::Resolving, _) => (
                self.at(Phase::Idle),
                Action::Abort(UpdateError::ResolutionFailure),
            ),
            (Phase::Opening { rev }, Outcome::Completed) => (
                self.at(Phase::Copying { rev }),
                Action::Copy { rev },
            ),
            (Phase::Opening { rev }, _) => (
                self.at(Phase::Idle),
                Action::Abort(UpdateError::DatabaseFailure),
            ),
            (Phase::Copying { rev }, Outcome::Completed) => (
                self.at(Phase::Scanning { rev }),
                Action::Scan,
            ),
            (Phase::Copying { rev }, _) => (
                self.at(Phase::Idle),
                Action::Abort(UpdateError::CheckoutFailure),
            ),
            (Phase::Scanning { rev }, Outcome::Completed) => (
                SourceState { phase: Phase::Idle, binding: Binding::Updated { rev }, ..self },
                Action::Finish,
            ),
            (Phase::Scanning { rev }, _) => (
                self.at(Phase::Idle),
                Action::Abort(UpdateError::ReaderFailure),
            ),
            (Phase::Idle, _) => (self, Action::Finish),
        }
    }

    /// The names that lead from the root of the cache to the database.
    pub open spec fn db_path(self) -> Seq<Seq<char>> {
        seq!["db"@, self.ident]
    }

    /// The names that lead from the root of the cache to the checkout: one
    /// checkout for each reference that is asked for.
    pub open spec fn checkout_path(self) -> Seq<Seq<char>>
        recommends
            self.source_id.reference.is_some(),
    {
        seq!["checkouts"@, self.ident, self.source_id.reference.unwrap().name()]
    }

    /// The source with `rev` pinned.
    pub open spec fn pinned_to(self, rev: GitRevision) -> SourceId {
        SourceId { precise: Some(rev.id), ..self.source_id }
    }

    /// `checkout` is the checkout of this source, read as holding `rev`.
    pub open spec fn checkout_of(self, rev: GitRevision, checkout: Checkout) -> bool {
        names(checkout.path@) == self.checkout_path() && checkout.source_id == self.pinned_to(rev)
    }

    /// `checkout` is what the package reader of this source is bound to.
    pub open spec fn binds(self, checkout: Checkout) -> bool
        recommends
            self.binding is Updated,
    {
        self.checkout_of(self.binding->rev, checkout)
    }

    /// `checkout` is what the package reader is to scan in this update.
    pub open spec fn scans(self, checkout: Checkout) -> bool
        recommends
            self.phase is Scanning,
    {
        self.checkout_of(self.phase->Scanning_rev, checkout)
    }

    /// What is reported when the repository is fetched.
    pub open spec fn status_message(self) -> Seq<char> {
        "git repository `"@ + self.source_id.url@.text() + "`"@
    }

    /// The source, for diagnostics: where the repository is and, if it is
    /// shown, the reference.
    pub open spec fn description(self) -> Seq<char> {
        let place = "git repo at "@ + self.source_id.url@.text();
        match self.reference.ref_string() {
            Some(reference) => place + " ("@ + reference + ")"@,
            None => place,
        }
    }
}

/// The action is part of a fetch: it reports one, fetches, or resolves
/// against what was fetched.
pub open spec fn reaches_remote(action: Action) -> bool {
    action is Announce || action is Fetch || action is Resolve
}

/// The update is past the point where a fetch can still be decided on.
pub open spec fn past_resolution(phase: Phase) -> bool {
    phase is Opening || phase is Copying || phase is Scanning || phase is Idle
}

/// With a revision pinned that the database in the cache resolves, an update
/// fetches nothing: it opens the database, copies that revision, lets the
/// reader scan, and ends bound to that revision once the scan is done. Begun
/// again on the same database it ends in the very same state.
pub proof fn lemma_pinned_update_reuses_database(s: SourceState, rev: GitRevision)
    requires
        s.pinned(),
        s.phase is Idle,
    ensures
        ({
            let (s1, a1) = s.started().next(Outcome::Completed);
            let (s2, a2) = s1.next(Outcome::Revision(rev));
            let (s3, a3) = s2.next(Outcome::Completed);
            let (s4, a4) = s3.next(Outcome::Completed);
            let (s5, a5) = s4.next(Outcome::Completed);
            &&& a1 == Action::ResolveLocal
            &&& a2 == Action::OpenDatabase
            &&& a3 == Action::Copy { rev }
            &&& a4 == Action::Scan
            &&& a5 == Action::Finish
            &&& s5 == SourceState { binding: Binding::Updated { rev }, ..s }
            &&& s.binding == Binding::Updated { rev } ==> s5 == s
        }),
{
}

/// Once an update is past the resolution against the database in the cache,
/// nothing that happens makes it reach for the remote repository.
pub proof fn lemma_reuse_never_reaches_remote(s: SourceState, outcome: Outcome)
    requires
        past_resolution(s.phase),
        s.expects(outcome),
    ensures
        past_resolution(s.next(outcome).0.phase),
        !reaches_remote(s.next(outcome).1),
{
}

/// Where a fetch is called for, because no revision is pinned or because
/// the database in the cache does not resolve the reference, the update
/// fetches, whatever the database in the cache said, and binds the revision
/// that the fetched database resolves the reference to.
pub proof fn lemma_update_fetches_where_called_for(
    s: SourceState,
    local: Outcome,
    rev: GitRevision,
)
    requires
        s.phase is Idle,
        !(local is Completed),
        must_fetch(local is Revision, s.pinned()),
    ensures
        ({
            let (s1, a1) = s.started().next(Outcome::Completed);
            let (s2, a2) = s1.next(local);
            let (s3, a3) = s2.next(Outcome::Completed);
            let (s4, a4) = s3.next(Outcome::Completed);
            let (s5, a5) = s4.next(Outcome::Revision(rev));
            let (s6, a6) = s5.next(Outcome::Completed);
            let (s7, a7) = s6.next(Outcome::Completed);
            &&& a1 == Action::ResolveLocal
            &&& a2 == Action::Announce
            &&& a3 == Action::Fetch
            &&& a4 == Action::Resolve
            &&& a5 == Action::Copy { rev }
            &&& a6 == Action::Scan
            &&& a7 == Action::Finish
            &&& s7 == SourceState { binding: Binding::Updated { rev }, ..s }
        }),
{
}

/// How many outcomes an update can still wait for, at most.
pub open spec fn steps_left(phase: Phase) -> nat {
    match phase {
        Phase::Idle => 0,
        Phase::Scanning { .. } => 1,
        Phase::Copying { .. } => 2,
        Phase::Opening { .. } => 3,
        Phase::Resolving => 3,
        Phase::Fetching => 4,
        Phase::Announcing => 5,
        Phase::ResolvingLocal => 6,
        Phase::Locking => 7,
    }
}

/// Every update ends: each outcome brings it nearer to its end, where the
/// lock is given back.
pub proof fn lemma_update_ends(s: SourceState, outcome: Outcome)
    requires
        !(s.phase is Idle),
    ensures
        steps_left(s.next(outcome).0.phase) < steps_left(s.phase),
        s.next(outcome).0.phase is Idle <==> s.next(outcome).1 is Finish || s.next(outcome).1
            is Abort,
{
}

/// A step changes the phase and, at one point only, the binding: when the
/// reader has scanned the checkout, which is the last step of an update, the
/// source is bound to the revision that was copied there. Until then the
/// binding is what it was before the update.
pub proof fn lemma_binding_follows_scan(s: SourceState, outcome: Outcome)
    ensures
        s.next(outcome).0 == (SourceState {
            phase: s.next(outcome).0.phase,
            binding: if s.phase is Scanning && outcome is Completed {
                Binding::Updated { rev: s.phase->Scanning_rev }
            } else {
                s.binding
            },
            ..s
        }),
{
}

/// An update that fails, at whichever step, leaves the binding as it was: a
/// source that was never updated with success has no checkout to read from.
pub proof fn lemma_failed_update_binds_nothing(s: SourceState, outcome: Outcome)
    requires
        s.next(outcome).1 is Abort,
    ensures
        s.next(outcome).0.binding == s.binding,
{
}

/// The binding changes with `Finish`, and with no other action.
pub proof fn lemma_binding_changes_with_finish_only(s: SourceState, outcome: Outcome)
    requires
        !(s.phase is Idle),
        !(s.next(outcome).1 is Finish),
    ensures
        s.next(outcome).0.binding == s.binding,
{
}

/// A call on a source: `None` stands for `update`, which begins an update,
/// and `Some` for `advance` with that outcome.
pub open spec fn admits(s: SourceState, call: Option<Outcome>) -> bool {
    match call {
        None => s.phase is Idle,
        Some(outcome) => s.expects(outcome),
    }
}

/// The state after `call`.
pub open spec fn after(s: SourceState, call: Option<Outcome>) -> SourceState {
    match call {
        None => s.started(),
        Some(outcome) => s.next(outcome).0,
    }
}

/// `call` ends an update with success.
pub open spec fn finishes(s: SourceState, call: Option<Outcome>) -> bool {
    match call {
        None => false,
        Some(outcome) => s.next(outcome).1 is Finish,
    }
}

/// The state after all of `calls`, made one after the other.
pub open spec fn replay(s: SourceState, calls: Seq<Option<Outcome>>) -> SourceState
    decreases calls.len(),
{
    if calls.len() == 0 {
        s
    } else {
        after(replay(s, calls.drop_last()), calls.last())
    }
}

/// Each of `calls` is admitted in the state it is made in.
pub open spec fn is_run(s: SourceState, calls: Seq<Option<Outcome>>) -> bool
    decreases calls.len(),
{
    calls.len() == 0 || (is_run(s, calls.drop_last()) && admits(
        replay(s, calls.drop_last()),
        calls.last(),
    ))
}

/// One of `calls` ended an update with success.
pub open spec fn has_succeeded(s: SourceState, calls: Seq<Option<Outcome>>) -> bool
    decreases calls.len(),
{
    calls.len() > 0 && (has_succeeded(s, calls.drop_last()) || finishes(
        replay(s, calls.drop_last()),
        calls.last(),
    ))
}

/// Whatever is done with a source, as long as no update has succeeded its
/// binding is what it was. A new source stays without a checkout to read
/// from, so that the reader, which needs one, cannot be asked for: there is
/// nothing that a query or a download could return.
pub proof fn lemma_unbound_until_an_update_succeeds(s: SourceState, calls: Seq<Option<Outcome>>)
    requires
        is_run(s, calls),
        !has_succeeded(s, calls),
    ensures
        replay(s, calls).binding == s.binding,
        s.binding is Uninitialized ==> !(replay(s, calls).binding is Updated),
    decreases calls.len(),
{
    if calls.len() > 0 {
        lemma_unbound_until_an_update_succeeds(s, calls.drop_last());
    }
}

/// Once an update has succeeded, a source has a checkout to read from, and
/// keeps one whatever is done with it afterwards.
pub proof fn lemma_bound_once_an_update_has_succeeded(s: SourceState, calls: Seq<Option<Outcome>>)
    requires
        is_run(s, calls),
        has_succeeded(s, calls) || s.binding is Updated,
    ensures
        replay(s, calls).binding is Updated,
    decreases calls.len(),
{
    if calls.len() > 0 {
        let earlier = calls.drop_last();
        if has_succeeded(s, earlier) || s.binding is Updated {
            lemma_bound_once_an_update_has_succeeded(s, earlier);
        }
    }
}

/// A source of packages in a git repository.
pub struct GitSource {
    source_id: SourceId,
    reference: GitReference,
    ident: String,
    phase: Phase,
    binding: Binding,
}

impl View for GitSource {
    type V = SourceState;

    closed spec fn view(&self) -> SourceState {
        SourceState {
            source_id: self.source_id,
            reference: self.reference,
            ident: self.ident@,
            phase: self.phase,
            binding: self.binding,
        }
    }
}

impl GitSource {
    /// A source is made for git sources only.
    #[verifier::type_invariant]
    spec fn is_git(self) -> bool {
        self.source_id.reference.is_some()
    }

    /// A source for `source_id`, which has to be a git source. A pinned
    /// revision takes the place of the reference that was asked for.
    pub fn new(source_id: &SourceId) -> (r: GitSource)
        requires
            source_id.reference.is_some(),
        ensures
            r@ == SourceState::initial(*source_id),
    {
        GitSource {
            source_id: source_id.clone(),
            reference: source_id.reference(),
            ident: ident(source_id.url()),
            phase: Phase::Idle,
            binding: Binding::Uninitialized,
        }
    }

    /// The URL of the repository.
    pub fn url(&self) -> (r: &GitUrl)
        ensures
            *r == self@.source_id.url,
    {
        self.source_id.url()
    }

    /// The source as it was asked for: a git source.
    pub fn source_id(&self) -> (r: &SourceId)
        ensures
            *r == self@.source_id,
            r.reference.is_some(),
    {
        proof {
            use_type_invariant(self);
        }
        &self.source_id
    }

    /// The reference by which the source is resolved.
    pub fn reference(&self) -> (r: &GitReference)
        ensures
            *r == self@.reference,
    {
        &self.reference
    }

    /// The identity of the repository.
    pub fn ident(&self) -> (r: &str)
        ensures
            r@ == self@.ident,
    {
        self.ident.as_str()
    }

    /// Where an update stands.
    pub fn phase(&self) -> (r: &Phase)
        ensures
            *r == self@.phase,
    {
        &self.phase
    }

    /// Whether there is a checkout, and of which revision.
    pub fn binding(&self) -> (r: &Binding)
        ensures
            *r == self@.binding,
    {
        &self.binding
    }

    /// Whether no update is under way.
    pub fn is_idle(&self) -> (r: bool)
        ensures
            r == (self@.phase is Idle),
    {
        match &self.phase {
            Phase::Idle => true,
            _ => false,
        }
    }

    /// Whether there is a checkout to read from.
    pub fn is_updated(&self) -> (r: bool)
        ensures
            r == (self@.binding is Updated),
    {
        match &self.binding {
            Binding::Updated { .. } => true,
            Binding::Uninitialized => false,
        }
    }

    /// The names that lead from the root of the cache to the database.
    pub fn db_path(&self) -> (r: Vec<String>)
        ensures
            names(r@) == self@.db_path(),
    {
        let mut r: Vec<String> = Vec::new();
        r.push(String::from_str("db"));
        r.push(self.ident.clone());
        assert(names(r@) =~= self@.db_path());
        r
    }

    /// The names that lead from the root of the cache to the checkout.
    pub fn checkout_path(&self) -> (r: Vec<String>)
        ensures
            names(r@) == self@.checkout_path(),
    {
        proof {
            use_type_invariant(self);
        }
        let mut r: Vec<String> = Vec::new();
        r.push(String::from_str("checkouts"));
        r.push(self.ident.clone());
        r.push(String::from_str(self.source_id.reference.as_ref().unwrap().as_str()));
        assert(names(r@) =~= self@.checkout_path());
        r
    }

    /// What is reported when the repository is fetched.
    pub fn status_message(&self) -> (r: String)
        ensures
            r@ == self@.status_message(),
    {
        let text = self.source_id.url.text();
        String::from_str("git repository `").concat(text.as_str()).concat("`")
    }

    /// The source, for diagnostics.
    pub fn describe(&self) -> (r: String)
        ensures
            r@ == self@.description(),
    {
        let text = self.source_id.url.text();
        let place = String::from_str("git repo at ").concat(text.as_str());
        match self.reference.to_ref_string() {
            Some(reference) => place.concat(" (").concat(reference.as_str()).concat(")"),
            None => place,
        }
    }

    /// Begins an update. It may be begun again after it has ended: every
    /// update decides anew.
    pub fn update(&mut self) -> (action: Action)
        requires
            old(self)@.phase is Idle,
        ensures
            final(self)@ == old(self)@.started(),
            action == Action::AcquireLock,
    {
        proof {
            use_type_invariant(&*self);
        }
        self.phase = Phase::Locking;
        Action::AcquireLock
    }

    /// Whether `outcome` is one that the awaited action can have.
    pub fn expects(&self, outcome: &Outcome) -> (r: bool)
        ensures
            r == self@.expects(*outcome),
    {
        match &self.phase {
            Phase::Idle => false,
            Phase::ResolvingLocal | Phase::Resolving => match outcome {
                Outcome::Completed => false,
                _ => true,
            },
            _ => match outcome {
                Outcome::Revision(_) => false,
                _ => true,
            },
        }
    }

    /// Takes the outcome of the last action and says what is to be done next.
    ///
    /// The source is bound to a revision when, and only when, an update is
    /// done: the revision has been copied to the checkout and the reader has
    /// scanned it. An update ends with `Finish` or `Abort`, and with them
    /// only; one that ends with `Abort` leaves the binding as it was.
    pub fn advance(&mut self, outcome: Outcome) -> (action: Action)
        requires
            old(self)@.expects(outcome),
        ensures
            (final(self)@, action) == old(self)@.next(outcome),
            final(self)@.phase is Idle <==> action is Finish || action is Abort,
            !(action is Finish) ==> final(self)@.binding == old(self)@.binding,
    {
        proof {
            use_type_invariant(&*self);
        }
        let mut phase = Phase::Idle;
        std::mem::swap(&mut self.phase, &mut phase);
        let pinned = self.source_id.precise.is_some();
        match (phase, outcome) {
            (Phase::Locking, Outcome::Completed) => {
                self.phase = Phase::ResolvingLocal;
                Action::ResolveLocal
            },
            (Phase::Locking, _) => Action::Abort(UpdateError::LockUnavailable),
            (Phase::ResolvingLocal, Outcome::Revision(rev)) => {
                if needs_fetch(true, pinned) {
                    self.phase = Phase::Announcing;
                    Action::Announce
                } else {
                    self.phase = Phase::Opening { rev };
                    Action::OpenDatabase
                }
            },
            (Phase::ResolvingLocal, _) => {
                self.phase = Phase::Announcing;
                Action::Announce
            },
            (Phase::Announcing, Outcome::Completed) => {
                self.phase = Phase::Fetching;
                Action::Fetch
            },
            (Phase::Announcing, _) => Action::Abort(UpdateError::ReportFailure),
            (Phase::Fetching, Outcome::Completed) => {
                self.phase = Phase::Resolving;
                Action::Resolve
            },
            (Phase::Fetching, _) => Action::Abort(UpdateError::RemoteAccessFailure),
            (Phase::Resolving, Outcome::Revision(rev)) => {
                self.phase = Phase::Copying { rev: rev.clone() };
                Action::Copy { rev }
            },
            (Phase::Resolving, _) => Action::Abort(UpdateError::ResolutionFailure),
            (Phase::Opening { rev }, Outcome::Completed) => {
                self.phase = Phase::Copying { rev: rev.clone() };
                Action::Copy { rev }
            },
            (Phase::Opening { .. }, _) => Action::Abort(UpdateError::DatabaseFailure),
            (Phase::Copying { rev }, Outcome::Completed) => {
                self.phase = Phase::Scanning { rev };
                Action::Scan
            },
            (Phase::Copying { .. }, _) => Action::Abort(UpdateError::CheckoutFailure),
            (Phase::Scanning { rev }, Outcome::Completed) => {
                self.binding = Binding::Updated { rev };
                Action::Finish
            },
            (Phase::Scanning { .. }, _) => Action::Abort(UpdateError::ReaderFailure),
            (Phase::Idle, _) => vstd::pervasive::unreached(),
        }
    }

    /// What the package reader is bound to, once there is a checkout; `None`
    /// before that, when the source has to be updated first.
    pub fn read_packages(&self) -> (r: Option<Checkout>)
        ensures
            match r {
                Some(checkout) => self@.binding is Updated && self@.binds(checkout),
                None => self@.binding is Uninitialized,
            },
    {
        if self.is_updated() {
            Some(self.reader())
        } else {
            None
        }
    }

    /// What the package reader is to scan: the checkout, read as holding the
    /// revision just copied there. The source is not bound to it before the
    /// scan is done.
    pub fn scan_target(&self) -> (r: Checkout)
        requires
            self@.phase is Scanning,
        ensures
            self@.scans(r),
    {
        match &self.phase {
            Phase::Scanning { rev } => Checkout {
                path: self.checkout_path(),
                source_id: self.source_id.with_precise(Some(rev.to_string())),
            },
            _ => vstd::pervasive::unreached(),
        }
    }

    /// Whether the reader's scan is awaited.
    pub fn is_scanning(&self) -> (r: bool)
        ensures
            r == (self@.phase is Scanning),
    {
        match &self.phase {
            Phase::Scanning { .. } => true,
            _ => false,
        }
    }

    /// What the package reader is bound to. Queries and downloads go to the
    /// reader, so an update has to have succeeded.
    pub fn reader(&self) -> (r: Checkout)
        requires
            self@.binding is Updated,
        ensures
            self@.binds(r),
    {
        match &self.binding {
            Binding::Updated { rev } => Checkout {
                path: self.checkout_path(),
                source_id: self.source_id.with_precise(Some(rev.to_string())),
            },
            Binding::Uninitialized => vstd::pervasive::unreached(),
        }
    }

    /// What tells one state of the source from another: the revision in the
    /// checkout, written out. It does not depend on the package asked about.
    pub fn fingerprint<P>(&self, _package: &P) -> (r: String)
        requires
            self@.binding is Updated,
        ensures
            r@ == self@.binding->rev@,
    {
        match &self.binding {
            Binding::Updated { rev } => rev.to_string(),
            Binding::Uninitialized => vstd::pervasive::unreached(),
        }
    }
}

} // verus!
