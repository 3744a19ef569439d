//! Teardown of the host shares: every path that waits for it is unmounted
//! and, if a directory is left behind, removed.
//!
//! The teardown hands out one [`TeardownAction`] at a time; the caller
//! performs it on the host and reports what happened as a [`TeardownEvent`].
//! A failure at one path is noted and the next path is taken up.

use crate::error::{outcome_view, Error, ErrorView, Failure, FailureView, Operation};
use crate::paths::{get_host_share_path, slash_joined, ROOTFS};
use crate::storage::{StorageSession, StorageSessionView};
use vstd::prelude::*;
use vstd::string::*;

verus! {

/// What the teardown waits for.
#[derive(Clone, Copy, Debug, PartialEq, Eq, Structural)]
pub enum TeardownPhase {
    /// The outcome of an unmount.
    AwaitUnmount,
    /// Whether a directory is left at the path.
    AwaitProbe,
    /// The outcome of the removal of a directory.
    AwaitRemove,
    /// Nothing: the teardown has ended.
    Finished,
}

/// What the caller reports back to the teardown.
#[derive(Debug, PartialEq, Eq)]
pub enum TeardownEvent {
    /// Whether the unmount succeeded, or what the host reported instead.
    Unmounted(Result<(), String>),
    /// Whether the path is a directory that still exists.
    Probed(bool),
    /// Whether the directory was removed, or what the host reported instead.
    Removed(Result<(), String>),
}

/// The mathematical value of a [`TeardownEvent`].
pub enum TeardownEventView {
    Unmounted(Result<(), Seq<char>>),
    Probed(bool),
    Removed(Result<(), Seq<char>>),
}

impl View for TeardownEvent {
    type V = TeardownEventView;

    open spec fn view(&self) -> TeardownEventView {
        match self {
            TeardownEvent::Unmounted(outcome) => TeardownEventView::Unmounted(
                outcome_view(*outcome),
            ),
            TeardownEvent::Probed(is_dir) => TeardownEventView::Probed(*is_dir),
            TeardownEvent::Removed(outcome) => TeardownEventView::Removed(outcome_view(*outcome)),
        }
    }
}

/// What the teardown asks the caller to do next.
#[derive(Debug, PartialEq, Eq)]
pub enum TeardownAction {
    /// Unmount what is mounted at `path`.
    Unmount { path: String },
    /// Tell whether `path` is a directory that still exists.
    Probe { path: String },
    /// Remove the directory at `path`.
    RemoveDir { path: String },
    /// Stop: every path was taken up. The error lists what failed.
    Done(Result<(), Error>),
}

/// The mathematical value of a [`TeardownAction`].
pub enum TeardownActionView {
    Unmount { path: Seq<char> },
    Probe { path: Seq<char> },
    RemoveDir { path: Seq<char> },
    Done(Result<(), ErrorView>),
}

impl View for TeardownAction {
    type V = TeardownActionView;

    open spec fn view(&self) -> TeardownActionView {
        match self {
            TeardownAction::Unmount { path } => TeardownActionView::Unmount { path: path@ },
            TeardownAction::Probe { path } => TeardownActionView::Probe { path: path@ },
            TeardownAction::RemoveDir { path } => TeardownActionView::RemoveDir { path: path@ },
            TeardownAction::Done(Ok(_)) => TeardownActionView::Done(Ok(())),
            TeardownAction::Done(Err(error)) => TeardownActionView::Done(Err(error@)),
        }
    }
}

/// One teardown over a list of host paths.
#[derive(Debug, PartialEq, Eq)]
pub struct Teardown {
    paths: Vec<String>,
    index: usize,
    phase: TeardownPhase,
    failures: Vec<Failure>,
}

/// The mathematical value of a [`Teardown`].
pub struct TeardownView {
    /// The paths to take up, in this order.
    pub paths: Seq<Seq<char>>,
    /// The position of the path that is being taken up.
    pub index: nat,
    pub phase: TeardownPhase,
    /// What failed so far.
    pub failures: Seq<FailureView>,
}

impl View for Teardown {
    type V = TeardownView;

    closed spec fn view(&self) -> TeardownView {
        TeardownView {
            paths: self.paths.deep_view(),
            index: self.index as nat,
            phase: self.phase,
            failures: self.failures.deep_view(),
        }
    }
}

impl TeardownView {
    /// The teardown before its first path.
    pub open spec fn initial(paths: Seq<Seq<char>>) -> TeardownView {
        TeardownView { paths, index: 0, phase: TeardownPhase::Finished, failures: Seq::empty() }
    }

    /// The path that is being taken up.
    pub open spec fn current(self) -> Seq<char> {
        self.paths[self.index as int]
    }

    /// What the teardown as a whole came to: success if nothing failed, else
    /// the list of what failed.
    pub open spec fn verdict(self) -> Result<(), ErrorView> {
        if self.failures.len() == 0 {
            Ok(())
        } else {
            Err(ErrorView::Teardown { failures: self.failures })
        }
    }

    /// Turns to the path at `self.index`: asks to unmount it, or ends the
    /// teardown behind the last path.
    pub open spec fn select(self) -> (TeardownView, TeardownActionView) {
        if self.index >= self.paths.len() {
            (
                TeardownView { phase: TeardownPhase::Finished, ..self },
                TeardownActionView::Done(self.verdict()),
            )
        } else {
            (
                TeardownView { phase: TeardownPhase::AwaitUnmount, ..self },
                TeardownActionView::Unmount { path: self.current() },
            )
        }
    }

    /// Goes on with the next path.
    pub open spec fn proceed(self) -> (TeardownView, TeardownActionView) {
        TeardownView { index: self.index + 1, ..self }.select()
    }

    /// Notes that `operation` failed at the current path and goes on with the
    /// next path.
    pub open spec fn note_and_proceed(self, operation: Operation, detail: Seq<char>) -> (
        TeardownView,
        TeardownActionView,
    ) {
        TeardownView {
            failures: self.failures.push(
                FailureView { operation, subject: self.current(), detail },
            ),
            ..self
        }.proceed()
    }

    /// Ends the teardown because `event` does not answer the last action.
    pub open spec fn reject(self) -> (TeardownView, TeardownActionView) {
        (
            TeardownView { phase: TeardownPhase::Finished, ..self },
            TeardownActionView::Done(Err(ErrorView::UnexpectedEvent)),
        )
    }

    /// The answer of the teardown to an event: the state it moves to and what
    /// it asks for next.
    pub open spec fn step(self, event: TeardownEventView) -> (TeardownView, TeardownActionView) {
        if self.index >= self.paths.len() {
            self.reject()
        } else {
            match (self.phase, event) {
                (TeardownPhase::AwaitUnmount, TeardownEventView::Unmounted(Ok(_))) => (
                    TeardownView { phase: TeardownPhase::AwaitProbe, ..self },
                    TeardownActionView::Probe { path: self.current() },
                ),
                (TeardownPhase::AwaitUnmount, TeardownEventView::Unmounted(Err(detail))) => {
                    self.note_and_proceed(Operation::Unmount, detail)
                },
                (TeardownPhase::AwaitProbe, TeardownEventView::Probed(true)) => (
                    TeardownView { phase: TeardownPhase::AwaitRemove, ..self },
                    TeardownActionView::RemoveDir { path: self.current() },
                ),
                (TeardownPhase::AwaitProbe, TeardownEventView::Probed(false)) => self.proceed(),
                (TeardownPhase::AwaitRemove, TeardownEventView::Removed(Ok(_))) => self.proceed(),
                (TeardownPhase::AwaitRemove, TeardownEventView::Removed(Err(detail))) => {
                    self.note_and_proceed(Operation::RemoveDir, detail)
                },
                _ => self.reject(),
            }
        }
    }
}

fn clone_failures(failures: &Vec<Failure>) -> (copy: Vec<Failure>)
    ensures
        copy.deep_view() == failures.deep_view(),
{
    let mut copy: Vec<Failure> = Vec::new();
    let mut i: usize = 0;
    while i < failures.len()
        invariant
            i <= failures.len(),
            copy.len() == i,
            forall|j: int| 0 <= j < i ==> copy[j]@ == failures[j]@,
        decreases failures.len() - i,
    {
        copy.push(failures[i].clone());
        i += 1;
    }
    assert(copy.deep_view() =~= failures.deep_view());
    copy
}

impl Teardown {
    /// Starts a teardown over `paths` and tells what to do first.
    pub fn begin(paths: Vec<String>) -> (res: (Teardown, TeardownAction))
        ensures
            (res.0@, res.1@) == TeardownView::initial(paths.deep_view()).select(),
    {
        let failures: Vec<Failure> = Vec::new();
        assert(failures.deep_view() =~= Seq::<FailureView>::empty());
        let run = Teardown { paths, index: 0, phase: TeardownPhase::Finished, failures };
        run.select()
    }

    /// Whether the teardown has ended.
    pub fn is_finished(&self) -> (finished: bool)
        ensures
            finished == (self@.phase == TeardownPhase::Finished),
    {
        match self.phase {
            TeardownPhase::Finished => true,
            _ => false,
        }
    }

    fn select(self) -> (res: (Teardown, TeardownAction))
        ensures
            (res.0@, res.1@) == self@.select(),
    {
        let mut run = self;
        if run.index >= run.paths.len() {
            run.phase = TeardownPhase::Finished;
            let verdict = if run.failures.len() == 0 {
                Ok(())
            } else {
                Err(Error::Teardown { failures: clone_failures(&run.failures) })
            };
            return (run, TeardownAction::Done(verdict));
        }
        assert(run@.current() == run.paths[run.index as int]@);
        let path = run.paths[run.index].clone();
        run.phase = TeardownPhase::AwaitUnmount;
        (run, TeardownAction::Unmount { path })
    }

    fn proceed(self) -> (res: (Teardown, TeardownAction))
        requires
            self@.index < self@.paths.len(),
        ensures
            (res.0@, res.1@) == self@.proceed(),
    {
        let mut run = self;
        assert(run.paths.deep_view().len() == run.paths.len());
        run.index = run.index + 1;
        run.select()
    }

    fn note_and_proceed(self, operation: Operation, detail: String) -> (res: (
        Teardown,
        TeardownAction,
    ))
        requires
            self@.index < self@.paths.len(),
        ensures
            (res.0@, res.1@) == self@.note_and_proceed(operation, detail@),
    {
        let mut run = self;
        let ghost before = run@.failures;
        assert(run@.current() == run.paths[run.index as int]@);
        let failure = Failure { operation, subject: run.paths[run.index].clone(), detail };
        run.failures.push(failure);
        assert(run@.failures =~= before.push(failure@));
        run.proceed()
    }

    fn reject(self) -> (res: (Teardown, TeardownAction))
        ensures
            (res.0@, res.1@) == self@.reject(),
    {
        let mut run = self;
        run.phase = TeardownPhase::Finished;
        (run, TeardownAction::Done(Err(Error::UnexpectedEvent)))
    }

    /// Takes the caller's report on the last action and tells what to do
    /// next.
    pub fn step(self, event: TeardownEvent) -> (res: (Teardown, TeardownAction))
        ensures
            (res.0@, res.1@) == self@.step(event@),
    {
        if self.index >= self.paths.len() {
            return self.reject();
        }
        assert(self@.current() == self.paths[self.index as int]@);
        match event {
            TeardownEvent::Unmounted(outcome) => match self.phase {
                TeardownPhase::AwaitUnmount => match outcome {
                    Ok(_) => {
                        let mut run = self;
                        let path = run.paths[run.index].clone();
                        run.phase = TeardownPhase::AwaitProbe;
                        (run, TeardownAction::Probe { path })
                    },
                    Err(detail) => self.note_and_proceed(Operation::Unmount, detail),
                },
                _ => self.reject(),
            },
            TeardownEvent::Probed(is_dir) => match self.phase {
                TeardownPhase::AwaitProbe => {
                    if is_dir {
                        let mut run = self;
                        let path = run.paths[run.index].clone();
                        run.phase = TeardownPhase::AwaitRemove;
                        (run, TeardownAction::RemoveDir { path })
                    } else {
                        self.proceed()
                    }
                },
                _ => self.reject(),
            },
            TeardownEvent::Removed(outcome) => match self.phase {
                TeardownPhase::AwaitRemove => match outcome {
                    Ok(_) => self.proceed(),
                    Err(detail) => self.note_and_proceed(Operation::RemoveDir, detail),
                },
                _ => self.reject(),
            },
        }
    }
}

/// Starts the teardown of every host share that waits in the session, in the
/// order in which they were mounted, and empties that cache.
pub fn unmount_shares(session: &mut StorageSession) -> (res: (Teardown, TeardownAction))
    ensures
        (res.0@, res.1@) == TeardownView::initial(old(session)@.pending_unmounts).select(),
        final(session)@ == (StorageSessionView { pending_unmounts: Seq::empty(), ..old(session)@ }),
{
    let mut paths: Vec<String> = Vec::new();
    std::mem::swap(&mut paths, &mut session.pending_unmounts);
    assert(session@.pending_unmounts =~= Seq::<Seq<char>>::empty());
    Teardown::begin(paths)
}

/// Starts the teardown of the share of a container's root file system, which
/// lies at `host_path/id/rootfs`.
pub fn unshare_rootfs(host_path: &str, id: &str) -> (res: (Teardown, TeardownAction))
    ensures
        (res.0@, res.1@) == TeardownView::initial(
            seq![slash_joined(host_path@, id@, ROOTFS@)],
        ).select(),
{
    let mut paths: Vec<String> = Vec::new();
    paths.push(get_host_share_path(host_path, id, ROOTFS));
    assert(paths.deep_view() =~= seq![slash_joined(host_path@, id@, ROOTFS@)]);
    Teardown::begin(paths)
}

/// How the host answers at each position of the list of paths: what the
/// unmount comes to, whether a directory is left, and what its removal comes
/// to.
pub struct HostAnswers {
    pub unmount: spec_fn(int) -> Result<(), Seq<char>>,
    pub is_dir: spec_fn(int) -> bool,
    pub remove: spec_fn(int) -> Result<(), Seq<char>>,
}

impl HostAnswers {
    /// The event with which the host answers `action` while the teardown is
    /// at position `index`.
    pub open spec fn respond(self, index: int, action: TeardownActionView) -> TeardownEventView {
        match action {
            TeardownActionView::Probe { .. } => TeardownEventView::Probed((self.is_dir)(index)),
            TeardownActionView::RemoveDir { .. } => TeardownEventView::Removed(
                (self.remove)(index),
            ),
            _ => TeardownEventView::Unmounted((self.unmount)(index)),
        }
    }

    /// What fails at position `index`, if anything: the unmount, or else the
    /// removal of the directory that is left.
    pub open spec fn failure_at(self, paths: Seq<Seq<char>>, index: int) -> Option<FailureView> {
        match (self.unmount)(index) {
            Err(detail) => Some(
                FailureView { operation: Operation::Unmount, subject: paths[index], detail },
            ),
            Ok(_) => if (self.is_dir)(index) {
                match (self.remove)(index) {
                    Err(detail) => Some(
                        FailureView {
                            operation: Operation::RemoveDir,
                            subject: paths[index],
                            detail,
                        },
                    ),
                    Ok(_) => None,
                }
            } else {
                None
            },
        }
    }

    /// What fails at the first `count` positions, in their order.
    pub open spec fn failures_before(self, paths: Seq<Seq<char>>, count: int) -> Seq<FailureView>
        decreases count,
    {
        if count <= 0 {
            Seq::empty()
        } else {
            let earlier = self.failures_before(paths, count - 1);
            match self.failure_at(paths, count - 1) {
                Some(failure) => earlier.push(failure),
                None => earlier,
            }
        }
    }

    /// What the host is asked to do at position `index`: to unmount the path;
    /// if that succeeds, to tell whether a directory is left; and if one is,
    /// to remove it.
    pub open spec fn actions_at(self, paths: Seq<Seq<char>>, index: int) -> Seq<TeardownActionView> {
        let path = paths[index];
        if (self.unmount)(index) is Err {
            seq![TeardownActionView::Unmount { path }]
        } else if !(self.is_dir)(index) {
            seq![TeardownActionView::Unmount { path }, TeardownActionView::Probe { path }]
        } else {
            seq![
                TeardownActionView::Unmount { path },
                TeardownActionView::Probe { path },
                TeardownActionView::RemoveDir { path },
            ]
        }
    }

    /// What a whole teardown asks for from position `index` on, and how it
    /// ends: every position is taken up in turn, whatever failed before it.
    pub open spec fn actions_from(self, paths: Seq<Seq<char>>, index: int) -> Seq<
        TeardownActionView,
    >
        decreases paths.len() - index,
    {
        if index < 0 || index >= paths.len() {
            seq![
                TeardownActionView::Done(
                    TeardownView {
                        paths,
                        index: 0,
                        phase: TeardownPhase::Finished,
                        failures: self.failures_before(paths, paths.len() as int),
                    }.verdict(),
                ),
            ]
        } else {
            self.actions_at(paths, index) + self.actions_from(paths, index + 1)
        }
    }
}

/// The actions that a teardown hands out, from `action` on, when the host
/// answers each as `host` says. `fuel` bounds the number of actions.
pub open spec fn drive(
    state: TeardownView,
    action: TeardownActionView,
    host: HostAnswers,
    fuel: nat,
) -> Seq<TeardownActionView>
    decreases fuel,
{
    if fuel == 0 || action is Done {
        seq![action]
    } else {
        let next = state.step(host.respond(state.index as int, action));
        seq![action] + drive(next.0, next.1, host, (fuel - 1) as nat)
    }
}

proof fn lemma_drive_from(state: TeardownView, host: HostAnswers, fuel: nat)
    requires
        state.index <= state.paths.len(),
        state.failures == host.failures_before(state.paths, state.index as int),
        fuel >= 3 * (state.paths.len() - state.index),
    ensures
        drive(state.select().0, state.select().1, host, fuel) == host.actions_from(
            state.paths,
            state.index as int,
        ),
    decreases state.paths.len() - state.index,
{
    let paths = state.paths;
    let index = state.index as int;
    if state.index >= paths.len() {
        assert(drive(state.select().0, state.select().1, host, fuel) =~= seq![state.select().1]);
    } else {
        let path = paths[index];
        let s0 = state.select().0;
        let a0 = state.select().1;
        let after = TeardownView {
            index: state.index + 1,
            failures: host.failures_before(paths, index + 1),
            ..state
        };
        let unmount = TeardownActionView::Unmount { path };
        let probe = TeardownActionView::Probe { path };
        let remove = TeardownActionView::RemoveDir { path };
        let rest = host.actions_from(paths, index + 1);
        assert(a0 == unmount);
        let s1 = s0.step(host.respond(index, a0));
        assert(drive(s0, a0, host, fuel) == seq![a0] + drive(s1.0, s1.1, host, (fuel - 1) as nat));
        if (host.unmount)(index) is Err {
            assert(s1 == after.select());
            lemma_drive_from(after, host, (fuel - 1) as nat);
            assert(seq![unmount] + rest =~= host.actions_from(paths, index));
        } else {
            assert(s1.1 == probe);
            let s2 = s1.0.step(host.respond(index, s1.1));
            assert(drive(s1.0, s1.1, host, (fuel - 1) as nat) == seq![probe] + drive(
                s2.0,
                s2.1,
                host,
                (fuel - 2) as nat,
            ));
            if !(host.is_dir)(index) {
                assert(s2 == after.select());
                lemma_drive_from(after, host, (fuel - 2) as nat);
                assert(seq![unmount] + (seq![probe] + rest) =~= host.actions_from(paths, index));
            } else {
                assert(s2.1 == remove);
                let s3 = s2.0.step(host.respond(index, s2.1));
                assert(drive(s2.0, s2.1, host, (fuel - 2) as nat) == seq![remove] + drive(
                    s3.0,
                    s3.1,
                    host,
                    (fuel - 3) as nat,
                ));
                assert(s3 == after.select());
                lemma_drive_from(after, host, (fuel - 3) as nat);
                assert(seq![unmount] + (seq![probe] + (seq![remove] + rest))
                    =~= host.actions_from(paths, index));
            }
        }
    }
}

/// A teardown takes up every path, in the order of the list: it asks to
/// unmount it and, where that succeeds and a directory is left, to remove
/// it. What fails at one path is noted and does not keep the teardown from
/// the paths behind it; the list of what failed is reported at the end.
pub proof fn teardown_takes_up_every_path(paths: Seq<Seq<char>>, host: HostAnswers)
    ensures
        drive(
            TeardownView::initial(paths).select().0,
            TeardownView::initial(paths).select().1,
            host,
            3 * paths.len(),
        ) == host.actions_from(paths, 0),
        forall|i: int|
            0 <= i < paths.len() ==> host.actions_from(paths, 0).contains(
                TeardownActionView::Unmount { path: #[trigger] paths[i] },
            ),
{
    lemma_drive_from(TeardownView::initial(paths), host, 3 * paths.len());
    assert forall|i: int| 0 <= i < paths.len() implies host.actions_from(paths, 0).contains(
        TeardownActionView::Unmount { path: #[trigger] paths[i] },
    ) by {
        lemma_unmount_is_asked(paths, host, 0, i);
    }
}

proof fn lemma_unmount_is_asked(paths: Seq<Seq<char>>, host: HostAnswers, from: int, i: int)
    requires
        0 <= from <= i < paths.len(),
    ensures
        host.actions_from(paths, from).contains(TeardownActionView::Unmount { path: paths[i] }),
    decreases i - from,
{
    let here = host.actions_at(paths, from);
    let rest = host.actions_from(paths, from + 1);
    if from == i {
        assert(here[0] == TeardownActionView::Unmount { path: paths[i] });
        assert((here + rest)[0] == here[0]);
    } else {
        lemma_unmount_is_asked(paths, host, from + 1, i);
        let k = choose|k: int|
            0 <= k < rest.len() && rest[k] == (TeardownActionView::Unmount { path: paths[i] });
        assert((here + rest)[here.len() + k] == rest[k]);
    }
}

} // verus!
