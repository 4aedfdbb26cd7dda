//! The destruction of whole trees, as a machine that the host drives:
//! directories are emptied before they are removed, and a failure at one
//! path never keeps the walk from the paths that remain.

use vstd::prelude::*;
use crate::error::{classify, Failure, IoFault, Phase, ShredError};

verus! {

/// What a path names.
#[derive(Clone, Copy, Debug, PartialEq, Eq, Structural)]
pub enum TargetKind {
    /// A regular file.
    File,
    /// A directory.
    Directory,
    /// A device, a link or another special node.
    Special,
    /// Nothing.
    Missing,
}

/// What the host is asked to do next, each time with the walker's current
/// path.
#[derive(Clone, Copy, Debug, PartialEq, Eq, Structural)]
pub enum WalkAction {
    /// Report what the current path names.
    Classify,
    /// Report the paths of the entries of the directory at the current path.
    List,
    /// Destroy the file at the current path and report how that ended.
    Shred,
    /// Remove the directory at the current path.
    RemoveDirectory,
    /// Nothing more: the walk is over.
    Finish,
}

/// What the host reports of the operation it was asked for. The entries of
/// a directory are handed over with `Walker::enter` instead.
#[derive(Clone, Copy, Debug, PartialEq, Eq, Structural)]
pub enum WalkEvent {
    /// The walk is being started.
    Begin,
    /// The current path names this.
    Kind(TargetKind),
    /// The file was destroyed, or the directory removed.
    Completed,
    /// The destruction of the file failed as given.
    Failed(Failure),
    /// The classifying, the listing or the removal failed with this fault.
    Fault(IoFault),
}

/// What the walker has asked for and waits on.
#[derive(Clone, Copy, Debug, PartialEq, Eq, Structural)]
pub enum Waiting {
    /// The start of the walk.
    Start,
    /// The kind of the current path.
    Kind,
    /// The entries of the current directory.
    Entries,
    /// The end of a file's destruction.
    Shredded,
    /// The removal of a directory.
    Removed,
    /// Nothing: the walk is over.
    Finished,
}

/// A path that is still to be dealt with.
pub struct Task {
    /// The path.
    pub path: Vec<u8>,
    /// Whether it is a directory whose entries were all scheduled, so that
    /// only its removal is left.
    pub leave: bool,
}

/// A task, with its path as a byte sequence.
pub struct TaskView {
    pub path: Seq<u8>,
    pub leave: bool,
}

impl View for Task {
    type V = TaskView;

    open spec fn view(&self) -> TaskView {
        TaskView { path: self.path@, leave: self.leave }
    }
}

/// A failure and the path at which it arose.
pub struct Report {
    pub path: Vec<u8>,
    pub failure: Failure,
}

/// A report, with its path as a byte sequence.
pub struct ReportView {
    pub path: Seq<u8>,
    pub failure: Failure,
}

impl View for Report {
    type V = ReportView;

    open spec fn view(&self) -> ReportView {
        ReportView { path: self.path@, failure: self.failure }
    }
}

/// What a walker is, to its driver.
pub struct WalkerView {
    /// The tasks that are left, the next one last.
    pub agenda: Seq<TaskView>,
    /// The path that the last action is about.
    pub current: Seq<u8>,
    /// What was asked for.
    pub waiting: Waiting,
    /// The failures so far, oldest first.
    pub failures: Seq<ReportView>,
}

/// The phase that a fault or a misreport is counted to while the walker
/// waits; the destruction of a file counts from its opening.
pub open spec fn phase_awaited(waiting: Waiting) -> Phase {
    match waiting {
        Waiting::Start | Waiting::Kind => Phase::Classify,
        Waiting::Entries => Phase::List,
        Waiting::Shredded => Phase::Open,
        Waiting::Removed | Waiting::Finished => Phase::RemoveDirectory,
    }
}

/// The failure of a host that reports what it was not asked for.
pub open spec fn misreport(waiting: Waiting) -> Failure {
    Failure { kind: ShredError::IoFailure, phase: phase_awaited(waiting) }
}

/// The failure that is written down for an event that is no success: the
/// failure of a destruction as it was given, a fault in the phase that the
/// walker waits in, and a misreport for anything else.
pub open spec fn blamed(waiting: Waiting, event: WalkEvent) -> Failure {
    match event {
        WalkEvent::Failed(failure) => failure,
        WalkEvent::Fault(fault) => Failure::raised(fault, phase_awaited(waiting)),
        _ => misreport(waiting),
    }
}

/// The walker after it has written down a failure at its current path.
pub open spec fn noted(v: WalkerView, failure: Failure) -> WalkerView {
    WalkerView {
        failures: v.failures.push(ReportView { path: v.current, failure }),
        current: Seq::empty(),
        ..v
    }
}

/// The walker after it has taken up its next task, and what it asks for:
/// the removal of a directory whose entries were dealt with, the kind of
/// any other path, or nothing where no task is left.
pub open spec fn proceeded(v: WalkerView) -> (WalkerView, WalkAction) {
    if v.agenda.len() == 0 {
        (WalkerView { current: Seq::empty(), waiting: Waiting::Finished, ..v }, WalkAction::Finish)
    } else {
        let task = v.agenda.last();
        let rest = v.agenda.drop_last();
        if task.leave {
            (
                WalkerView { agenda: rest, current: task.path, waiting: Waiting::Removed, ..v },
                WalkAction::RemoveDirectory,
            )
        } else {
            (
                WalkerView { agenda: rest, current: task.path, waiting: Waiting::Kind, ..v },
                WalkAction::Classify,
            )
        }
    }
}

/// The agenda after the entries of the directory `dir` were put on it: the
/// directory's removal, and above it the entries, the first one on top.
pub open spec fn scheduled(agenda: Seq<TaskView>, dir: Seq<u8>, entries: Seq<Seq<u8>>) -> Seq<
    TaskView,
> {
    agenda.push(TaskView { path: dir, leave: true }) + Seq::new(
        entries.len(),
        |i: int| TaskView { path: entries[entries.len() - 1 - i], leave: false },
    )
}

/// The walker after an event, and what it asks for.
///
/// A directory is listed, anything else is handed to the file engine. A
/// failure is written down and the walk goes on with the next task, as it
/// does after a success; so does a report that does not answer what was
/// asked.
pub open spec fn walked(v: WalkerView, event: WalkEvent) -> (WalkerView, WalkAction) {
    match (v.waiting, event) {
        (Waiting::Finished, _) => (v, WalkAction::Finish),
        (Waiting::Start, WalkEvent::Begin) => proceeded(v),
        (Waiting::Kind, WalkEvent::Kind(kind)) => if kind == TargetKind::Directory {
            (WalkerView { waiting: Waiting::Entries, ..v }, WalkAction::List)
        } else {
            (WalkerView { waiting: Waiting::Shredded, ..v }, WalkAction::Shred)
        },
        (Waiting::Shredded, WalkEvent::Completed) => proceeded(v),
        (Waiting::Removed, WalkEvent::Completed) => proceeded(v),
        _ => proceeded(noted(v, blamed(v.waiting, event))),
    }
}

/// The walker after it was handed the entries of a directory, and what it
/// asks for.
pub open spec fn entered(v: WalkerView, entries: Seq<Seq<u8>>) -> (WalkerView, WalkAction) {
    match v.waiting {
        Waiting::Finished => (v, WalkAction::Finish),
        Waiting::Entries => proceeded(
            WalkerView { agenda: scheduled(v.agenda, v.current, entries), ..v },
        ),
        _ => proceeded(noted(v, misreport(v.waiting))),
    }
}

/// The paths of a list of entries.
pub open spec fn paths_of(entries: Seq<Vec<u8>>) -> Seq<Seq<u8>> {
    Seq::new(entries.len(), |i: int| entries[i]@)
}

/// The machine that destroys a tree.
pub struct Walker {
    agenda: Vec<Task>,
    current: Vec<u8>,
    waiting: Waiting,
    failures: Vec<Report>,
}

impl View for Walker {
    type V = WalkerView;

    closed spec fn view(&self) -> WalkerView {
        WalkerView {
            agenda: Seq::new(self.agenda@.len(), |i: int| self.agenda@[i]@),
            current: self.current@,
            waiting: self.waiting,
            failures: Seq::new(self.failures@.len(), |i: int| self.failures@[i]@),
        }
    }
}

impl Walker {
    /// A walker for the tree at `root`, which has asked for nothing yet.
    pub fn new(root: Vec<u8>) -> (walker: Walker)
        ensures
            walker@.agenda == seq![TaskView { path: root@, leave: false }],
            walker@.current.len() == 0,
            walker@.waiting == Waiting::Start,
            walker@.failures.len() == 0,
    {
        let mut agenda: Vec<Task> = Vec::new();
        agenda.push(Task { path: root, leave: false });
        let walker = Walker {
            agenda,
            current: Vec::new(),
            waiting: Waiting::Start,
            failures: Vec::new(),
        };
        assert(walker@.agenda =~= seq![TaskView { path: root@, leave: false }]);
        walker
    }

    /// Writes down a failure at the current path.
    fn note(&mut self, failure: Failure)
        ensures
            final(self)@ == noted(old(self)@, failure),
    {
        let mut path: Vec<u8> = Vec::new();
        core::mem::swap(&mut path, &mut self.current);
        self.failures.push(Report { path, failure });
        assert(self@.failures =~= old(self)@.failures.push(
            ReportView { path: old(self)@.current, failure },
        ));
        assert(self@.agenda =~= old(self)@.agenda);
        assert(self@.current =~= Seq::<u8>::empty());
    }

    /// Takes up the next task.
    fn proceed(&mut self) -> (action: WalkAction)
        ensures
            (final(self)@, action) == proceeded(old(self)@),
    {
        match self.agenda.pop() {
            None => {
                self.current = Vec::new();
                self.waiting = Waiting::Finished;
                assert(self@.agenda =~= old(self)@.agenda);
                assert(self@.current =~= Seq::<u8>::empty());
                WalkAction::Finish
            },
            Some(task) => {
                assert(self@.agenda =~= old(self)@.agenda.drop_last());
                assert(task@ == old(self)@.agenda.last());
                self.current = task.path;
                if task.leave {
                    self.waiting = Waiting::Removed;
                    WalkAction::RemoveDirectory
                } else {
                    self.waiting = Waiting::Kind;
                    WalkAction::Classify
                }
            },
        }
    }

    /// Takes the report of the operation last asked for, or `Begin`, and
    /// says what to do next.
    pub fn step(&mut self, event: WalkEvent) -> (action: WalkAction)
        ensures
            (final(self)@, action) == walked(old(self)@, event),
    {
        match (self.waiting, event) {
            (Waiting::Finished, _) => WalkAction::Finish,
            (Waiting::Start, WalkEvent::Begin) => self.proceed(),
            (Waiting::Kind, WalkEvent::Kind(kind)) => {
                match kind {
                    TargetKind::Directory => {
                        self.waiting = Waiting::Entries;
                        WalkAction::List
                    },
                    _ => {
                        self.waiting = Waiting::Shredded;
                        WalkAction::Shred
                    },
                }
            },
            (Waiting::Shredded, WalkEvent::Completed) => self.proceed(),
            (Waiting::Removed, WalkEvent::Completed) => self.proceed(),
            _ => {
                let failure = blame(self.waiting, event);
                self.note(failure);
                self.proceed()
            },
        }
    }

    /// Takes the paths of the entries of the directory that was to be
    /// listed, and says what to do next.
    pub fn enter(&mut self, entries: Vec<Vec<u8>>) -> (action: WalkAction)
        ensures
            (final(self)@, action) == entered(old(self)@, paths_of(entries@)),
    {
        match self.waiting {
            Waiting::Finished => WalkAction::Finish,
            Waiting::Entries => {
                let mut entries = entries;
                let ghost listed = paths_of(entries@);
                let ghost before = self@;
                let mut dir: Vec<u8> = Vec::new();
                core::mem::swap(&mut dir, &mut self.current);
                self.agenda.push(Task { path: dir, leave: true });
                let ghost base = before.agenda.push(TaskView { path: before.current, leave: true });
                assert(self@.agenda =~= base);
                while entries.len() > 0
                    invariant
                        entries@.len() <= listed.len(),
                        paths_of(entries@) == listed.take(entries@.len() as int),
                        self.waiting == before.waiting,
                        self@.failures == before.failures,
                        self@.agenda == base + Seq::new(
                            (listed.len() - entries@.len()) as nat,
                            |i: int| TaskView { path: listed[listed.len() - 1 - i], leave: false },
                        ),
                    decreases entries@.len(),
                {
                    let ghost previous = entries@;
                    let ghost agenda_before = self@.agenda;
                    let ghost failures_before = self@.failures;
                    let path = entries.pop().unwrap();
                    assert(path@ == listed[entries@.len() as int]) by {
                        assert(paths_of(previous)[previous.len() - 1] == previous.last()@);
                    }
                    self.agenda.push(Task { path, leave: false });
                    assert(paths_of(entries@) =~= listed.take(entries@.len() as int)) by {
                        assert forall|i: int| 0 <= i < entries@.len() implies paths_of(entries@)[i]
                            == listed[i] by {
                            assert(paths_of(previous)[i] == previous[i]@);
                        }
                    }
                    assert(self@.failures =~= failures_before);
                    assert(self@.agenda =~= agenda_before.push(
                        TaskView { path: path@, leave: false },
                    ));
                    assert(self@.agenda =~= base + Seq::new(
                        (listed.len() - entries@.len()) as nat,
                        |i: int| TaskView { path: listed[listed.len() - 1 - i], leave: false },
                    ));
                }
                assert(self@.agenda =~= scheduled(before.agenda, before.current, listed));
                let ghost ready = self@;
                let action = self.proceed();
                assert(proceeded(ready) == proceeded(
                    WalkerView {
                        agenda: scheduled(before.agenda, before.current, listed),
                        ..before
                    },
                ));
                action
            },
            _ => {
                let failure = Failure {
                    kind: ShredError::IoFailure,
                    phase: awaited_phase(self.waiting),
                };
                self.note(failure);
                self.proceed()
            },
        }
    }

    /// The path that the action last asked for is about.
    pub fn current(&self) -> (path: &Vec<u8>)
        ensures
            path@ == self@.current,
    {
        &self.current
    }

    /// What the walker waits on.
    pub fn waiting(&self) -> (waiting: Waiting)
        ensures
            waiting == self@.waiting,
    {
        self.waiting
    }

    /// The failures so far, oldest first.
    pub fn failures(&self) -> (reports: &Vec<Report>)
        ensures
            reports@.len() == self@.failures.len(),
            forall|i: int| 0 <= i < reports@.len() ==> reports@[i]@ == self@.failures[i],
    {
        &self.failures
    }

    /// How the walk ended: `None` while it goes on, then `Ok` if nothing
    /// failed, or else the last failure, which is that of the target's own
    /// removal where that failed. Earlier failures are in `failures`.
    pub fn outcome(&self) -> (ended: Option<Result<(), Failure>>)
        ensures
            ended == verdict(self@),
    {
        match self.waiting {
            Waiting::Finished => {
                if self.failures.len() == 0 {
                    Some(Ok(()))
                } else {
                    Some(Err(self.failures[self.failures.len() - 1].failure))
                }
            },
            _ => None,
        }
    }
}

/// How a walk ended: `None` while it goes on, then `Ok` if nothing failed,
/// or else the last failure.
pub open spec fn verdict(v: WalkerView) -> Option<Result<(), Failure>> {
    if v.waiting != Waiting::Finished {
        None
    } else if v.failures.len() == 0 {
        Some(Ok(()))
    } else {
        Some(Err(v.failures.last().failure))
    }
}

/// Whether an event reports a failure.
pub open spec fn is_failure(event: WalkEvent) -> bool {
    event is Failed || event is Fault
}

/// A failed destruction or removal changes nothing in what the walker does
/// next: it asks for the same action at the same path, with the same tasks
/// left, as after a success. Only the failure is written down.
pub proof fn lemma_failure_does_not_divert(v: WalkerView, event: WalkEvent)
    requires
        v.waiting == Waiting::Shredded || v.waiting == Waiting::Removed,
        is_failure(event),
    ensures
        walked(v, event).1 == walked(v, WalkEvent::Completed).1,
        walked(v, event).0.agenda == walked(v, WalkEvent::Completed).0.agenda,
        walked(v, event).0.current == walked(v, WalkEvent::Completed).0.current,
        walked(v, event).0.waiting == walked(v, WalkEvent::Completed).0.waiting,
        walked(v, event).0.failures == v.failures.push(
            ReportView { path: v.current, failure: blamed(v.waiting, event) },
        ),
        walked(v, WalkEvent::Completed).0.failures == v.failures,
{
}

/// Where the last thing the walk does is a removal that fails, that failure
/// is how the walk ended, whatever failed before it: a directory that a
/// surviving entry keeps from being removed ends the walk with
/// `DirectoryNotEmpty`.
pub proof fn lemma_last_removal_decides(v: WalkerView, event: WalkEvent)
    requires
        v.waiting == Waiting::Removed,
        v.agenda.len() == 0,
        is_failure(event),
    ensures
        walked(v, event).1 == WalkAction::Finish,
        verdict(walked(v, event).0) == Some(Err::<(), Failure>(blamed(v.waiting, event))),
        blamed(Waiting::Removed, WalkEvent::Fault(IoFault::Occupied)) == (Failure {
            kind: ShredError::DirectoryNotEmpty,
            phase: Phase::RemoveDirectory,
        }),
{
}

/// No step forgets a failure: what was written down stays, in its order.
pub proof fn lemma_failures_are_kept(v: WalkerView, event: WalkEvent, entries: Seq<Seq<u8>>)
    ensures
        v.failures.is_prefix_of(walked(v, event).0.failures),
        v.failures.is_prefix_of(entered(v, entries).0.failures),
        walked(v, event).0.failures.len() <= v.failures.len() + 1,
        entered(v, entries).0.failures.len() <= v.failures.len() + 1,
{
}

/// Once the entries of a directory are handed over, the directory's removal
/// stands on the agenda below every one of them: it is asked for only after
/// each entry was taken up.
pub proof fn lemma_entries_before_directory(v: WalkerView, entries: Seq<Seq<u8>>)
    requires
        v.waiting == Waiting::Entries,
    ensures
        ({
            let agenda = scheduled(v.agenda, v.current, entries);
            &&& agenda.len() == v.agenda.len() + 1 + entries.len()
            &&& agenda.take(v.agenda.len() as int) == v.agenda
            &&& agenda[v.agenda.len() as int] == TaskView { path: v.current, leave: true }
            &&& forall|i: int|
                0 <= i < entries.len() ==> agenda[agenda.len() - 1 - i] == TaskView {
                    path: entries[i],
                    leave: false,
                }
            &&& entered(v, entries) == proceeded(WalkerView { agenda, ..v })
        }),
{
    let agenda = scheduled(v.agenda, v.current, entries);
    assert(agenda.take(v.agenda.len() as int) =~= v.agenda);
}

/// The failure that is written down for an event that is no success.
pub fn blame(waiting: Waiting, event: WalkEvent) -> (failure: Failure)
    ensures
        failure == blamed(waiting, event),
{
    match event {
        WalkEvent::Failed(failure) => failure,
        WalkEvent::Fault(fault) => Failure { kind: classify(fault), phase: awaited_phase(waiting) },
        _ => Failure { kind: ShredError::IoFailure, phase: awaited_phase(waiting) },
    }
}

/// The phase that a misreport is counted to while the walker waits.
pub fn awaited_phase(waiting: Waiting) -> (phase: Phase)
    ensures
        phase == phase_awaited(waiting),
{
    match waiting {
        Waiting::Start | Waiting::Kind => Phase::Classify,
        Waiting::Entries => Phase::List,
        Waiting::Shredded => Phase::Open,
        Waiting::Removed | Waiting::Finished => Phase::RemoveDirectory,
    }
}

} // verus!
