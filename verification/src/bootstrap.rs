//! Start-up: the application's four directories are resolved and made sure
//! of one after the other, and the first failure ends the sequence.
//!
//! Touching the file system is the caller's part. [`init_app`] is the rule:
//! from where the sequence stands and from what the caller reports, it gives
//! where the sequence stands next and what the caller is to do.
//! [`Bootstrap::step`] is the same rule with the platform left out: there the
//! caller reports the resolutions too.

use crate::error::{outcome_view, Error, ErrorView};
use crate::paths::{
    resolution_view, resolve, resolved, unresolved_message, ResolvedPath, ResolvedPathView,
    StorageRole, APP_NAME,
};
use std::path::PathBuf;
use vstd::prelude::*;

verus! {

/// The directory below the local data directory in which the logs are kept.
pub const LOGS_DIR: &'static str = "logs";

/// The phase of the start-up sequence.
#[derive(Clone, Copy, Debug, PartialEq, Eq, Structural)]
pub enum BootPhase {
    /// Nothing has been asked yet.
    Idle,
    /// The caller was asked to resolve the directory of the next role.
    Resolving,
    /// The caller was asked to make sure of the directory just resolved.
    Provisioning,
    /// All four directories are in place.
    Finished,
    /// The sequence was ended by a failure.
    Failed,
}

/// Where the start-up sequence stands.
#[derive(Debug)]
pub struct Bootstrap {
    phase: BootPhase,
    done: Vec<ResolvedPath>,
    current: Option<ResolvedPath>,
}

/// What a [`Bootstrap`] is in contracts.
pub struct BootstrapView {
    /// The phase of the sequence.
    pub phase: BootPhase,
    /// The directories made sure of so far, in the order of their roles.
    /// Once the sequence has finished they have been handed out, and none is
    /// left here.
    pub done: Seq<ResolvedPathView>,
    /// The directory that the caller was asked to make sure of.
    pub current: Option<ResolvedPathView>,
}

/// What the caller reports to the start-up sequence.
#[derive(Debug)]
pub enum BootEvent {
    /// The sequence is to begin.
    Start,
    /// The resolution of the role asked for ended so.
    Resolved(Result<ResolvedPath, Error>),
    /// Making sure of the directory asked for ended so.
    Provisioned(Result<(), Error>),
}

/// What a [`BootEvent`] is in contracts.
pub enum BootEventView {
    Start,
    Resolved(Result<ResolvedPathView, ErrorView>),
    Provisioned(Result<(), ErrorView>),
}

/// What the start-up sequence asks of the caller.
#[derive(Debug)]
pub enum BootAction {
    /// Resolve the directory of this role, and report.
    Resolve(StorageRole),
    /// Make sure that this directory exists, and report.
    Provision(ResolvedPath),
    /// All is in place: record each of these directories, which stand in the
    /// order of their roles, and go on.
    Finish(Vec<ResolvedPath>),
    /// Start-up has failed with this failure.
    Fail(Error),
    /// The event was not the one waited for: nothing changes.
    Nothing,
}

/// What a [`BootAction`] is in contracts.
pub enum BootActionView {
    Resolve(StorageRole),
    Provision(ResolvedPathView),
    Finish(Seq<ResolvedPathView>),
    Fail(ErrorView),
    Nothing,
}

/// The views of a sequence of paths.
pub open spec fn path_views(paths: Seq<ResolvedPath>) -> Seq<ResolvedPathView> {
    paths.map_values(|p: ResolvedPath| p@)
}

impl View for Bootstrap {
    type V = BootstrapView;

    closed spec fn view(&self) -> BootstrapView {
        BootstrapView {
            phase: self.phase,
            done: path_views(self.done@),
            current: match self.current {
                Some(p) => Some(p@),
                None => None,
            },
        }
    }
}

impl View for BootEvent {
    type V = BootEventView;

    open spec fn view(&self) -> BootEventView {
        match *self {
            BootEvent::Start => BootEventView::Start,
            BootEvent::Resolved(r) => BootEventView::Resolved(resolution_view(r)),
            BootEvent::Provisioned(r) => BootEventView::Provisioned(outcome_view(r)),
        }
    }
}

impl View for BootAction {
    type V = BootActionView;

    open spec fn view(&self) -> BootActionView {
        match *self {
            BootAction::Resolve(role) => BootActionView::Resolve(role),
            BootAction::Provision(p) => BootActionView::Provision(p@),
            BootAction::Finish(dirs) => BootActionView::Finish(path_views(dirs@)),
            BootAction::Fail(e) => BootActionView::Fail(e@),
            BootAction::Nothing => BootActionView::Nothing,
        }
    }
}

/// The roles in the order in which start-up takes them.
pub open spec fn bootstrap_order() -> Seq<StorageRole> {
    seq![StorageRole::Data, StorageRole::Config, StorageRole::Cache, StorageRole::LocalData]
}

/// The directory that start-up makes sure of for `role`, given the
/// directory that the role resolved to: the directory itself, but for the
/// local data, where it is the directory of the logs below it.
pub open spec fn provisioned_dir(role: StorageRole, resolved: ResolvedPathView) -> ResolvedPathView {
    if role == StorageRole::LocalData {
        ResolvedPathView { base: resolved.base, segments: resolved.segments.push(LOGS_DIR@) }
    } else {
        resolved
    }
}

/// The sequence before anything was asked.
pub open spec fn initial() -> BootstrapView {
    BootstrapView { phase: BootPhase::Idle, done: seq![], current: None }
}

impl BootstrapView {
    /// What holds of every state that the sequence can be in: fewer than
    /// four directories are done while it runs, and a directory is pending
    /// exactly while the caller is making sure of one.
    pub open spec fn wf(self) -> bool {
        match self.phase {
            BootPhase::Idle | BootPhase::Finished => self.done.len() == 0 && self.current is None,
            BootPhase::Resolving | BootPhase::Failed => self.done.len() < 4
                && self.current is None,
            BootPhase::Provisioning => self.done.len() < 4 && self.current is Some,
        }
    }

    /// This state in another phase, with nothing pending.
    pub open spec fn settled(self, phase: BootPhase) -> BootstrapView {
        BootstrapView { phase, done: self.done, current: None }
    }
}

/// One step of start-up: the next state and what is asked of the caller.
///
/// The roles are taken in the order of [`bootstrap_order`]. For each, its
/// directory is resolved and then made sure of before the next role is
/// looked at. The first failure, of a resolution or of making sure, ends the
/// sequence with that failure; what was done before stays done. After the
/// fourth directory the sequence ends and hands out all four. An event that
/// the state does not wait for changes nothing.
pub open spec fn boot_step(state: BootstrapView, event: BootEventView) -> (
    BootstrapView,
    BootActionView,
) {
    match (state.phase, event) {
        (BootPhase::Idle, BootEventView::Start) => (
            state.settled(BootPhase::Resolving),
            BootActionView::Resolve(bootstrap_order()[0]),
        ),
        (BootPhase::Resolving, BootEventView::Resolved(Ok(resolved))) => {
            let dir = provisioned_dir(bootstrap_order()[state.done.len() as int], resolved);
            (
                BootstrapView {
                    phase: BootPhase::Provisioning,
                    done: state.done,
                    current: Some(dir),
                },
                BootActionView::Provision(dir),
            )
        },
        (BootPhase::Resolving, BootEventView::Resolved(Err(e))) => (
            state.settled(BootPhase::Failed),
            BootActionView::Fail(e),
        ),
        (BootPhase::Provisioning, BootEventView::Provisioned(Ok(_))) => {
            let done = state.done.push(state.current->0);
            if done.len() == bootstrap_order().len() {
                (initial().settled(BootPhase::Finished), BootActionView::Finish(done))
            } else {
                (
                    BootstrapView { phase: BootPhase::Resolving, done, current: None },
                    BootActionView::Resolve(bootstrap_order()[done.len() as int]),
                )
            }
        },
        (BootPhase::Provisioning, BootEventView::Provisioned(Err(e))) => (
            state.settled(BootPhase::Failed),
            BootActionView::Fail(e),
        ),
        _ => (state, BootActionView::Nothing),
    }
}

/// The role at place `index` of the order in which start-up takes the
/// roles; `None` from the fourth place on.
pub fn role_at(index: usize) -> (role: Option<StorageRole>)
    ensures
        role == if index < bootstrap_order().len() {
            Some(bootstrap_order()[index as int])
        } else {
            None
        },
{
    if index == 0 {
        Some(StorageRole::Data)
    } else if index == 1 {
        Some(StorageRole::Config)
    } else if index == 2 {
        Some(StorageRole::Cache)
    } else if index == 3 {
        Some(StorageRole::LocalData)
    } else {
        None
    }
}

impl Bootstrap {
    #[verifier::type_invariant]
    spec fn inv(self) -> bool {
        self@.wf()
    }

    /// The sequence before anything was asked.
    pub fn new() -> (state: Bootstrap)
        ensures
            state@ == initial(),
    {
        let state = Bootstrap { phase: BootPhase::Idle, done: Vec::new(), current: None };
        assert(state@.done =~= initial().done);
        state
    }

    /// The phase in which the sequence is.
    pub fn phase(&self) -> (phase: BootPhase)
        ensures
            phase == self@.phase,
    {
        self.phase
    }

    /// How many directories have been made sure of.
    pub fn done_count(&self) -> (count: usize)
        ensures
            count == self@.done.len(),
    {
        self.done.len()
    }

    /// One step of start-up, with nothing asked of the platform: `event` is
    /// what the caller reports, and the result is the next state and what
    /// the caller is to do.
    pub fn step(self, event: BootEvent) -> (next: (Bootstrap, BootAction))
        ensures
            next.0@ == boot_step(self@, event@).0,
            next.1@ == boot_step(self@, event@).1,
            next.0@.wf(),
    {
        proof {
            use_type_invariant(&self);
        }
        let ghost before = self@;
        let Bootstrap { phase, done, current } = self;
        match (phase, event) {
            (BootPhase::Idle, BootEvent::Start) => {
                let next = Bootstrap { phase: BootPhase::Resolving, done, current: None };
                (next, BootAction::Resolve(StorageRole::Data))
            },
            (BootPhase::Resolving, BootEvent::Resolved(Ok(resolved))) => {
                let dir = match role_at(done.len()) {
                    Some(StorageRole::LocalData) => resolved.join(LOGS_DIR),
                    _ => resolved,
                };
                let pending = dir.clone();
                let next = Bootstrap { phase: BootPhase::Provisioning, done, current: Some(pending) };
                (next, BootAction::Provision(dir))
            },
            (BootPhase::Resolving, BootEvent::Resolved(Err(e))) => {
                let next = Bootstrap { phase: BootPhase::Failed, done, current: None };
                (next, BootAction::Fail(e))
            },
            (BootPhase::Provisioning, BootEvent::Provisioned(Ok(_))) => {
                let mut done = done;
                if let Some(dir) = current {
                    done.push(dir);
                }
                assert(path_views(done@) =~= before.done.push(before.current->0));
                match role_at(done.len()) {
                    Some(role) => {
                        let next = Bootstrap { phase: BootPhase::Resolving, done, current: None };
                        (next, BootAction::Resolve(role))
                    },
                    None => {
                        let next = Bootstrap {
                            phase: BootPhase::Finished,
                            done: Vec::new(),
                            current: None,
                        };
                        assert(next@.done =~= initial().done);
                        (next, BootAction::Finish(done))
                    },
                }
            },
            (BootPhase::Provisioning, BootEvent::Provisioned(Err(e))) => {
                let next = Bootstrap { phase: BootPhase::Failed, done, current: None };
                (next, BootAction::Fail(e))
            },
            (phase, _) => {
                let next = Bootstrap { phase, done, current };
                (next, BootAction::Nothing)
            },
        }
    }
}

/// What the sequence does in answer to `event` when it resolves by itself
/// each role that comes up: where the step asks for a resolution, the
/// sequence goes on at once with the outcome for the base directory `base`.
pub open spec fn boot_step_resolving(
    state: BootstrapView,
    event: BootEventView,
    base: Option<PathBuf>,
) -> (BootstrapView, BootActionView) {
    let first = boot_step(state, event);
    match first.1 {
        BootActionView::Resolve(role) => boot_step(
            first.0,
            BootEventView::Resolved(resolved(role, base)),
        ),
        _ => first,
    }
}

/// Takes start-up one step further: `state` is where the sequence stands
/// and `event` what the caller reports. The result is the next state and
/// what the caller is to do.
///
/// Where the step comes to a role that is to be resolved, the platform is
/// asked here and the sequence goes on with its answer, so the caller is
/// asked only to make sure of directories. Which base directory the
/// platform names is not known beforehand: the result is what
/// [`boot_step_resolving`] gives for the one it named.
pub fn init_app(state: Bootstrap, event: BootEvent) -> (next: (Bootstrap, BootAction))
    ensures
        exists|base: Option<PathBuf>|
            {
                &&& next.0@ == boot_step_resolving(state@, event@, base).0
                &&& next.1@ == boot_step_resolving(state@, event@, base).1
            },
        !(next.1@ is Resolve),
        next.0@.wf(),
{
    let ghost before = state@;
    let ghost reported = event@;
    let (waiting, action) = state.step(event);
    match action {
        BootAction::Resolve(role) => {
            let outcome = resolve(role);
            let ghost base = choose|base: Option<PathBuf>|
                resolution_view(outcome) == resolved(role, base);
            let next = waiting.step(BootEvent::Resolved(outcome));
            assert(next.0@ == boot_step_resolving(before, reported, base).0);
            assert(next.1@ == boot_step_resolving(before, reported, base).1);
            next
        },
        other => {
            assert(other@ == boot_step_resolving(before, reported, None).1);
            assert(waiting@ == boot_step_resolving(before, reported, None).0);
            (waiting, other)
        },
    }
}

/// The words under which the directory of `role` is recorded once start-up
/// has succeeded.
pub open spec fn record_label(role: StorageRole) -> Seq<char> {
    match role {
        StorageRole::Data => "App data directory"@,
        StorageRole::Config => "Config directory"@,
        StorageRole::Cache => "Cache directory"@,
        StorageRole::LocalData => "Logs directory"@,
    }
}

/// The words under which the directory of `role` is recorded once start-up
/// has succeeded.
pub fn directory_label(role: StorageRole) -> (label: &'static str)
    ensures
        label@ == record_label(role),
{
    match role {
        StorageRole::Data => "App data directory",
        StorageRole::Config => "Config directory",
        StorageRole::Cache => "Cache directory",
        StorageRole::LocalData => "Logs directory",
    }
}

/// Every step leads from a state that the sequence can be in to another
/// such state.
pub proof fn lemma_step_preserves_wf(state: BootstrapView, event: BootEventView)
    requires
        state.wf(),
    ensures
        boot_step(state, event).0.wf(),
{
}

/// Once start-up has failed or finished, it stays so: whatever is reported,
/// the state is kept and nothing more is asked. No role after the failing
/// one is ever attempted.
pub proof fn lemma_ended_is_final(state: BootstrapView, event: BootEventView)
    requires
        state.phase == BootPhase::Failed || state.phase == BootPhase::Finished,
    ensures
        boot_step(state, event) == (state, BootActionView::Nothing),
{
}

/// A failure is reported exactly when the caller reports one for what was
/// asked of it, and it is that failure, unchanged. The directories made sure
/// of before it stay as they are: nothing is taken back.
pub proof fn lemma_fails_with_the_reported_failure(
    state: BootstrapView,
    event: BootEventView,
    failure: ErrorView,
)
    requires
        boot_step(state, event).1 == BootActionView::Fail(failure),
    ensures
        (state.phase == BootPhase::Resolving && event == BootEventView::Resolved(Err(failure)))
            || (state.phase == BootPhase::Provisioning && event == BootEventView::Provisioned(
            Err(failure),
        )),
        boot_step(state, event).0 == state.settled(BootPhase::Failed),
{
}

/// A role is asked to be resolved only at the start or after the directory
/// of the role before it was made sure of, and it is the role whose place in
/// the order is the number of directories done.
pub proof fn lemma_roles_in_order(state: BootstrapView, event: BootEventView, role: StorageRole)
    requires
        state.wf(),
        boot_step(state, event).1 == BootActionView::Resolve(role),
    ensures
        (state.phase == BootPhase::Idle && event == BootEventView::Start) || (state.phase
            == BootPhase::Provisioning && event matches BootEventView::Provisioned(Ok(_))),
        boot_step(state, event).0.phase == BootPhase::Resolving,
        boot_step(state, event).0.done.len() < bootstrap_order().len(),
        role == bootstrap_order()[boot_step(state, event).0.done.len() as int],
{
}

/// A directory is asked to be made sure of only in answer to its
/// resolution, and it is the directory of the role whose turn it is.
pub proof fn lemma_provision_follows_resolution(
    state: BootstrapView,
    event: BootEventView,
    dir: ResolvedPathView,
)
    requires
        boot_step(state, event).1 == BootActionView::Provision(dir),
    ensures
        state.phase == BootPhase::Resolving,
        event matches BootEventView::Resolved(Ok(resolved)) && dir == provisioned_dir(
            bootstrap_order()[state.done.len() as int],
            resolved,
        ),
        boot_step(state, event).0.current == Some(dir),
{
}

/// If the resolution of the second role fails, the directory of the first
/// role has been made sure of before, stays so, and the failure reported is
/// the one of the second role's resolution.
pub proof fn lemma_second_resolution_fails(first: ResolvedPathView, failure: ErrorView)
    ensures
        ({
            let (s1, a1) = boot_step(initial(), BootEventView::Start);
            let (s2, a2) = boot_step(s1, BootEventView::Resolved(Ok(first)));
            let (s3, a3) = boot_step(s2, BootEventView::Provisioned(Ok(())));
            let (s4, a4) = boot_step(s3, BootEventView::Resolved(Err(failure)));
            &&& a1 == BootActionView::Resolve(StorageRole::Data)
            &&& a2 == BootActionView::Provision(first)
            &&& a3 == BootActionView::Resolve(StorageRole::Config)
            &&& a4 == BootActionView::Fail(failure)
            &&& s4.phase == BootPhase::Failed
            &&& s4.done == seq![first]
        }),
{
    let (s1, a1) = boot_step(initial(), BootEventView::Start);
    let (s2, a2) = boot_step(s1, BootEventView::Resolved(Ok(first)));
    let (s3, a3) = boot_step(s2, BootEventView::Provisioned(Ok(())));
    assert(s3.done =~= seq![first]);
}

/// With the platform asked by the sequence itself: if it names a base
/// directory for the first role and none for the second, the first role's
/// directory is asked to be made sure of, and once that is done start-up
/// fails with the configuration failure of the second role. The first
/// directory stays on record.
pub proof fn lemma_second_role_unresolved(base: PathBuf)
    ensures
        ({
            let first = ResolvedPathView { base, segments: seq![APP_NAME@] };
            let (s1, a1) = boot_step_resolving(initial(), BootEventView::Start, Some(base));
            let (s2, a2) = boot_step_resolving(s1, BootEventView::Provisioned(Ok(())), None);
            &&& a1 == BootActionView::Provision(first)
            &&& a2 == BootActionView::Fail(
                ErrorView::Config(unresolved_message(StorageRole::Config)),
            )
            &&& s2.phase == BootPhase::Failed
            &&& s2.done == seq![first]
        }),
{
    let first = ResolvedPathView { base, segments: seq![APP_NAME@] };
    let (s1, a1) = boot_step_resolving(initial(), BootEventView::Start, Some(base));
    assert(s1.done.push(s1.current->0) =~= seq![first]);
}

/// When every resolution and every directory succeeds, start-up asks for
/// Data, Config, Cache and the local data in this order, each directory
/// right after its resolution, and ends by handing out the four
/// directories, the last of them the directory of the logs.
pub proof fn lemma_complete_run(
    data: ResolvedPathView,
    config: ResolvedPathView,
    cache: ResolvedPathView,
    local: ResolvedPathView,
)
    ensures
        ({
            let logs = provisioned_dir(StorageRole::LocalData, local);
            let (s1, a1) = boot_step(initial(), BootEventView::Start);
            let (s2, a2) = boot_step(s1, BootEventView::Resolved(Ok(data)));
            let (s3, a3) = boot_step(s2, BootEventView::Provisioned(Ok(())));
            let (s4, a4) = boot_step(s3, BootEventView::Resolved(Ok(config)));
            let (s5, a5) = boot_step(s4, BootEventView::Provisioned(Ok(())));
            let (s6, a6) = boot_step(s5, BootEventView::Resolved(Ok(cache)));
            let (s7, a7) = boot_step(s6, BootEventView::Provisioned(Ok(())));
            let (s8, a8) = boot_step(s7, BootEventView::Resolved(Ok(local)));
            let (s9, a9) = boot_step(s8, BootEventView::Provisioned(Ok(())));
            &&& a1 == BootActionView::Resolve(StorageRole::Data)
            &&& a2 == BootActionView::Provision(data)
            &&& a3 == BootActionView::Resolve(StorageRole::Config)
            &&& a4 == BootActionView::Provision(config)
            &&& a5 == BootActionView::Resolve(StorageRole::Cache)
            &&& a6 == BootActionView::Provision(cache)
            &&& a7 == BootActionView::Resolve(StorageRole::LocalData)
            &&& a8 == BootActionView::Provision(logs)
            &&& a9 == BootActionView::Finish(seq![data, config, cache, logs])
            &&& s9.phase == BootPhase::Finished
            &&& logs.segments == local.segments.push(LOGS_DIR@)
        }),
{
    let logs = provisioned_dir(StorageRole::LocalData, local);
    let (s1, a1) = boot_step(initial(), BootEventView::Start);
    let (s2, a2) = boot_step(s1, BootEventView::Resolved(Ok(data)));
    let (s3, a3) = boot_step(s2, BootEventView::Provisioned(Ok(())));
    assert(s3.done =~= seq![data]);
    let (s4, a4) = boot_step(s3, BootEventView::Resolved(Ok(config)));
    let (s5, a5) = boot_step(s4, BootEventView::Provisioned(Ok(())));
    assert(s5.done =~= seq![data, config]);
    let (s6, a6) = boot_step(s5, BootEventView::Resolved(Ok(cache)));
    let (s7, a7) = boot_step(s6, BootEventView::Provisioned(Ok(())));
    assert(s7.done =~= seq![data, config, cache]);
    let (s8, a8) = boot_step(s7, BootEventView::Resolved(Ok(local)));
    assert(s8.done.push(s8.current->0) =~= seq![data, config, cache, logs]);
}

} // verus!
