//! The reconciliation core: the finalizer state machine that drives one
//! reconcile of a source object.
//!
//! A reconcile alternates decisions and calls to the outside. The machine
//! makes the decisions: it hands out a [`Command`], the caller performs it and
//! hands back an [`Input`] that tells how it went. The finalizer token is on
//! the source object for as long as downstream objects may exist for it: it
//! is added before the first sync and removed only after a completed cleanup.

use crate::controllers::{BundleError, ErrorClass, SyncError};
use crate::meta::{ObjectMeta, ObjectReference, ObjectReferenceView, TypeMeta};
use crate::runtime::{
    publish_outcome, tolerate_forbidden, Action, Event, EventType, EventView, KubeError,
};
use crate::text::{joined, copy_opt_text, text, texts};
use vstd::prelude::*;

verus! {

/// What failed inside the apply or the cleanup branch of a reconcile.
#[derive(Debug)]
pub enum ReconcileError {
    /// The bundle could not be derived.
    Bundle(BundleError),
    /// The sync or the cleanup of the bundle failed.
    Sync(SyncError),
    /// The audit event of a deletion could not be published.
    Event(KubeError),
}

/// Why a reconcile failed.
#[derive(Debug)]
pub enum FinalizerError {
    ApplyFailed(ReconcileError),
    CleanupFailed(ReconcileError),
    AddFinalizer(KubeError),
    RemoveFinalizer(KubeError),
    /// The object has no name under which it could be patched.
    UnnamedObject,
}

impl ReconcileError {
    pub open spec fn class(&self) -> ErrorClass {
        match self {
            ReconcileError::Bundle(e) => e.class(),
            ReconcileError::Sync(e) => e.class(),
            ReconcileError::Event(_) => ErrorClass::EventPublish,
        }
    }

    pub fn error_class(&self) -> (c: ErrorClass)
        ensures
            c == self.class(),
    {
        match self {
            ReconcileError::Bundle(e) => e.error_class(),
            ReconcileError::Sync(e) => e.error_class(),
            ReconcileError::Event(_) => ErrorClass::EventPublish,
        }
    }
}

impl FinalizerError {
    /// The class of what failed inside a branch; a failure of the finalizer
    /// protocol itself is a class of its own.
    pub open spec fn class(&self) -> ErrorClass {
        match self {
            FinalizerError::ApplyFailed(e) => e.class(),
            FinalizerError::CleanupFailed(e) => e.class(),
            FinalizerError::AddFinalizer(_) => ErrorClass::Finalizer,
            FinalizerError::RemoveFinalizer(_) => ErrorClass::Finalizer,
            FinalizerError::UnnamedObject => ErrorClass::Finalizer,
        }
    }

    pub fn error_class(&self) -> (c: ErrorClass)
        ensures
            c == self.class(),
    {
        match self {
            FinalizerError::ApplyFailed(e) => e.error_class(),
            FinalizerError::CleanupFailed(e) => e.error_class(),
            FinalizerError::AddFinalizer(_) => ErrorClass::Finalizer,
            FinalizerError::RemoveFinalizer(_) => ErrorClass::Finalizer,
            FinalizerError::UnnamedObject => ErrorClass::Finalizer,
        }
    }
}

/// How the cleanup of a bundle went.
#[derive(Clone, Copy, Debug, PartialEq, Eq, Structural)]
pub enum Cleanup {
    /// Nothing is left downstream: the finalizer can go.
    Done(Action),
    /// A downstream object was left in place because another live object still
    /// refers to it: the finalizer stays.
    Deferred(Action),
}

/// Where a reconcile stands.
#[derive(Clone, Copy, Debug, PartialEq, Eq, Structural)]
pub enum Phase {
    /// Apply branch: waits for the bundle.
    Deriving,
    /// Apply branch: waits for the finalizer to be added.
    AddingFinalizer,
    /// Apply branch: waits for the sync.
    Syncing,
    /// Cleanup branch: waits for the bundle.
    DerivingCleanup,
    /// Cleanup branch: waits for the cleanup of the bundle.
    CleaningUp,
    /// Cleanup branch: no bundle, waits for the audit event of the deletion.
    PublishingDelete,
    /// Cleanup branch: waits for the finalizer to be removed.
    RemovingFinalizer,
    /// Over.
    Finished,
}

/// What the caller reports, without what it carries.
#[derive(Clone, Copy, Debug, PartialEq, Eq, Structural)]
pub enum Signal {
    DerivedSome,
    DerivedNone,
    DerivedErr,
    AddedOk,
    AddedErr,
    SyncedOk,
    SyncedErr,
    CleanedDone,
    CleanedDeferred,
    CleanedErr,
    PublishedOk,
    PublishedErr,
    RemovedOk,
    RemovedErr,
}

/// What the machine asks for, without the bundle and the errors it carries.
pub enum Order {
    Derive,
    AddFinalizer(Seq<Seq<char>>),
    Sync,
    Cleanup,
    PublishDelete,
    RemoveFinalizer(Seq<Seq<char>>),
    FinishOk(Action),
    FinishErr,
}

/// The state of a reconcile as the laws see it.
pub struct MachineView {
    pub phase: Phase,
    /// The finalizers that the object holds, as far as the reconcile knows.
    pub finalizers: Seq<Seq<char>>,
    /// Whether the object has a name.
    pub named: bool,
    /// The action that a cleanup asked for, once it is done.
    pub pending: Action,
}

/// The finalizers without the token.
pub open spec fn without(finalizers: Seq<Seq<char>>, token: Seq<char>) -> Seq<Seq<char>> {
    finalizers.filter(|f: Seq<char>| f != token)
}

/// The first state and command of a reconcile for an object with the given
/// finalizers: an object that is not being deleted is applied; one that is
/// being deleted is cleaned up while it holds the token, and left alone once
/// it does not.
pub open spec fn first(
    finalizers: Seq<Seq<char>>,
    deleting: bool,
    named: bool,
    token: Seq<char>,
) -> (MachineView, Order) {
    let base = MachineView { phase: Phase::Finished, finalizers, named, pending: Action::AwaitChange };
    if !deleting {
        (MachineView { phase: Phase::Deriving, ..base }, Order::Derive)
    } else if finalizers.contains(token) {
        if named {
            (MachineView { phase: Phase::DerivingCleanup, ..base }, Order::Derive)
        } else {
            (base, Order::FinishErr)
        }
    } else {
        (base, Order::FinishOk(Action::AwaitChange))
    }
}

/// One transition. A signal that does not answer the command the machine
/// waits for changes nothing and gets the command of the phase again; a
/// finished machine stays finished.
pub open spec fn next(m: MachineView, token: Seq<char>, s: Signal, action: Action) -> (
    MachineView,
    Order,
) {
    let finish_ok = (MachineView { phase: Phase::Finished, ..m }, Order::FinishOk(action));
    let finish_err = (MachineView { phase: Phase::Finished, ..m }, Order::FinishErr);
    match (m.phase, s) {
        (Phase::Deriving, Signal::DerivedErr) => finish_err,
        (Phase::Deriving, Signal::DerivedNone) => (
            MachineView { phase: Phase::Finished, ..m },
            Order::FinishOk(Action::AwaitChange),
        ),
        (Phase::Deriving, Signal::DerivedSome) => if m.finalizers.contains(token) {
            (MachineView { phase: Phase::Syncing, ..m }, Order::Sync)
        } else if m.named {
            (
                MachineView { phase: Phase::AddingFinalizer, ..m },
                Order::AddFinalizer(m.finalizers.push(token)),
            )
        } else {
            finish_err
        },
        (Phase::AddingFinalizer, Signal::AddedErr) => finish_err,
        (Phase::AddingFinalizer, Signal::AddedOk) => (
            MachineView { phase: Phase::Syncing, finalizers: m.finalizers.push(token), ..m },
            Order::Sync,
        ),
        (Phase::Syncing, Signal::SyncedErr) => finish_err,
        (Phase::Syncing, Signal::SyncedOk) => finish_ok,
        (Phase::DerivingCleanup, Signal::DerivedErr) => finish_err,
        (Phase::DerivingCleanup, Signal::DerivedSome) => (
            MachineView { phase: Phase::CleaningUp, ..m },
            Order::Cleanup,
        ),
        (Phase::DerivingCleanup, Signal::DerivedNone) => (
            MachineView { phase: Phase::PublishingDelete, ..m },
            Order::PublishDelete,
        ),
        (Phase::CleaningUp, Signal::CleanedErr) => finish_err,
        (Phase::CleaningUp, Signal::CleanedDeferred) => finish_ok,
        (Phase::CleaningUp, Signal::CleanedDone) => (
            MachineView { phase: Phase::RemovingFinalizer, pending: action, ..m },
            Order::RemoveFinalizer(without(m.finalizers, token)),
        ),
        (Phase::PublishingDelete, Signal::PublishedErr) => finish_err,
        (Phase::PublishingDelete, Signal::PublishedOk) => (
            MachineView { phase: Phase::RemovingFinalizer, pending: Action::AwaitChange, ..m },
            Order::RemoveFinalizer(without(m.finalizers, token)),
        ),
        (Phase::RemovingFinalizer, Signal::RemovedErr) => finish_err,
        (Phase::RemovingFinalizer, Signal::RemovedOk) => (
            MachineView { phase: Phase::Finished, finalizers: without(m.finalizers, token), ..m },
            Order::FinishOk(m.pending),
        ),
        _ => (m, repeated(m, token)),
    }
}

/// The command that a phase waits on.
pub open spec fn repeated(m: MachineView, token: Seq<char>) -> Order {
    match m.phase {
        Phase::Deriving => Order::Derive,
        Phase::AddingFinalizer => Order::AddFinalizer(m.finalizers.push(token)),
        Phase::Syncing => Order::Sync,
        Phase::DerivingCleanup => Order::Derive,
        Phase::CleaningUp => Order::Cleanup,
        Phase::PublishingDelete => Order::PublishDelete,
        Phase::RemovingFinalizer => Order::RemoveFinalizer(without(m.finalizers, token)),
        Phase::Finished => Order::FinishOk(Action::AwaitChange),
    }
}

/// The state after a run of signals, each with the action it carries.
pub open spec fn run(m: MachineView, token: Seq<char>, signals: Seq<(Signal, Action)>) -> MachineView
    decreases signals.len(),
{
    if signals.len() == 0 {
        m
    } else {
        next(run(m, token, signals.drop_last()), token, signals.last().0, signals.last().1).0
    }
}

/// Whether the apply branch got as far as the sync.
pub open spec fn reached_sync(m: MachineView, token: Seq<char>, signals: Seq<(Signal, Action)>) -> bool
    decreases signals.len(),
{
    if signals.len() == 0 {
        false
    } else {
        reached_sync(m, token, signals.drop_last()) || next(
            run(m, token, signals.drop_last()),
            token,
            signals.last().0,
            signals.last().1,
        ).1 == Order::Sync
    }
}

/// Whether the finalizer was removed in the course of the run.
pub open spec fn removed_finalizer(m: MachineView, token: Seq<char>, signals: Seq<(Signal, Action)>) -> bool
    decreases signals.len(),
{
    if signals.len() == 0 {
        false
    } else {
        removed_finalizer(m, token, signals.drop_last()) || (run(
            m,
            token,
            signals.drop_last(),
        ).phase == Phase::RemovingFinalizer && signals.last().0 == Signal::RemovedOk)
    }
}

/// Whether a cleanup ran to its end in the course of the run: the cleanup of
/// the bundle reported that it is done, or, with no bundle to clean up, the
/// deletion was recorded.
pub open spec fn cleanup_completed(m: MachineView, token: Seq<char>, signals: Seq<(Signal, Action)>) -> bool
    decreases signals.len(),
{
    if signals.len() == 0 {
        false
    } else {
        let before = run(m, token, signals.drop_last());
        cleanup_completed(m, token, signals.drop_last()) || (before.phase == Phase::CleaningUp
            && signals.last().0 == Signal::CleanedDone) || (before.phase == Phase::PublishingDelete
            && signals.last().0 == Signal::PublishedOk)
    }
}

/// The phases of the apply branch.
pub open spec fn in_apply(p: Phase) -> bool {
    p == Phase::Deriving || p == Phase::AddingFinalizer || p == Phase::Syncing
}

/// Whatever the outside reports, in whatever order: a reconcile of an object
/// that is not being deleted never loses a finalizer, and once it has come to
/// the sync of a bundle the object holds the token, and keeps it whether the
/// sync succeeds or fails.
pub proof fn lemma_apply_ends_with_finalizer(
    finalizers: Seq<Seq<char>>,
    named: bool,
    token: Seq<char>,
    signals: Seq<(Signal, Action)>,
)
    ensures
        ({
            let start = first(finalizers, false, named, token).0;
            let end = run(start, token, signals);
            &&& reached_sync(start, token, signals) ==> end.finalizers.contains(token)
            &&& end.phase == Phase::Syncing ==> end.finalizers.contains(token)
            &&& in_apply(end.phase) || end.phase == Phase::Finished
            &&& end.finalizers == finalizers || end.finalizers == finalizers.push(token)
            &&& end.phase == Phase::Deriving || end.phase == Phase::AddingFinalizer
                ==> end.finalizers == finalizers
            &&& !removed_finalizer(start, token, signals)
        }),
    decreases signals.len(),
{
    let start = first(finalizers, false, named, token).0;
    if signals.len() > 0 {
        lemma_apply_ends_with_finalizer(finalizers, named, token, signals.drop_last());
        let before = run(start, token, signals.drop_last());
        assert(finalizers.push(token).contains(token)) by {
            assert(finalizers.push(token)[finalizers.len() as int] == token);
        }
        if before.finalizers.contains(token) {
            assert(before.finalizers.push(token).contains(token)) by {
                assert(before.finalizers.push(token)[before.finalizers.len() as int] == token);
            }
        }
    }
}

/// Whatever the outside reports, in whatever order: in a reconcile of an
/// object that is being deleted the finalizers stay exactly as they were
/// unless a cleanup ran to its end and the removal was accepted after it. A
/// cleanup that fails, or that is deferred, leaves the token where it is.
pub proof fn lemma_cleanup_keeps_finalizer_until_done(
    finalizers: Seq<Seq<char>>,
    named: bool,
    token: Seq<char>,
    signals: Seq<(Signal, Action)>,
)
    ensures
        ({
            let start = first(finalizers, true, named, token).0;
            let end = run(start, token, signals);
            &&& !removed_finalizer(start, token, signals) ==> end.finalizers == finalizers
            &&& removed_finalizer(start, token, signals) ==> cleanup_completed(start, token, signals)
                && end.finalizers == without(finalizers, token)
            &&& end.phase == Phase::RemovingFinalizer ==> cleanup_completed(start, token, signals)
            &&& removed_finalizer(start, token, signals) ==> end.phase == Phase::Finished
            &&& !in_apply(end.phase)
        }),
    decreases signals.len(),
{
    if signals.len() > 0 {
        lemma_cleanup_keeps_finalizer_until_done(finalizers, named, token, signals.drop_last());
    }
}

/// What the caller reports back to a reconcile.
#[derive(Debug)]
pub enum Input {
    /// The outcome of deriving the bundle: whether there is one.
    Derived(Result<bool, BundleError>),
    /// The outcome of the patch that adds the finalizer.
    FinalizerAdded(Result<(), KubeError>),
    /// The outcome of the sync of the bundle.
    Synced(Result<Action, SyncError>),
    /// The outcome of the cleanup of the bundle.
    CleanedUp(Result<Cleanup, SyncError>),
    /// The outcome of publishing the audit event of the deletion.
    Published(Result<(), KubeError>),
    /// The outcome of the patch that removes the finalizer.
    FinalizerRemoved(Result<(), KubeError>),
}

impl Input {
    /// What the input tells, without what it carries.
    pub open spec fn signal(&self) -> Signal {
        match self {
            Input::Derived(Ok(true)) => Signal::DerivedSome,
            Input::Derived(Ok(false)) => Signal::DerivedNone,
            Input::Derived(Err(_)) => Signal::DerivedErr,
            Input::FinalizerAdded(Ok(_)) => Signal::AddedOk,
            Input::FinalizerAdded(Err(_)) => Signal::AddedErr,
            Input::Synced(Ok(_)) => Signal::SyncedOk,
            Input::Synced(Err(_)) => Signal::SyncedErr,
            Input::CleanedUp(Ok(Cleanup::Done(_))) => Signal::CleanedDone,
            Input::CleanedUp(Ok(Cleanup::Deferred(_))) => Signal::CleanedDeferred,
            Input::CleanedUp(Err(_)) => Signal::CleanedErr,
            Input::Published(r) => if publish_outcome(*r) is Ok {
                Signal::PublishedOk
            } else {
                Signal::PublishedErr
            },
            Input::FinalizerRemoved(Ok(_)) => Signal::RemovedOk,
            Input::FinalizerRemoved(Err(_)) => Signal::RemovedErr,
        }
    }

    /// The action that the input carries, where it carries one.
    pub open spec fn action(&self) -> Action {
        match self {
            Input::Synced(Ok(a)) => *a,
            Input::CleanedUp(Ok(Cleanup::Done(a))) => *a,
            Input::CleanedUp(Ok(Cleanup::Deferred(a))) => *a,
            _ => Action::AwaitChange,
        }
    }

    /// The error with which a reconcile ends on a failure that the input
    /// reports in the given phase.
    pub open spec fn failure(self, phase: Phase) -> FinalizerError {
        match (phase, self) {
            (Phase::Deriving, Input::Derived(Err(e))) => FinalizerError::ApplyFailed(
                ReconcileError::Bundle(e),
            ),
            (Phase::AddingFinalizer, Input::FinalizerAdded(Err(e))) => FinalizerError::AddFinalizer(e),
            (Phase::Syncing, Input::Synced(Err(e))) => FinalizerError::ApplyFailed(
                ReconcileError::Sync(e),
            ),
            (Phase::DerivingCleanup, Input::Derived(Err(e))) => FinalizerError::CleanupFailed(
                ReconcileError::Bundle(e),
            ),
            (Phase::CleaningUp, Input::CleanedUp(Err(e))) => FinalizerError::CleanupFailed(
                ReconcileError::Sync(e),
            ),
            (Phase::PublishingDelete, Input::Published(Err(e))) => FinalizerError::CleanupFailed(
                ReconcileError::Event(e),
            ),
            (Phase::RemovingFinalizer, Input::FinalizerRemoved(Err(e))) => FinalizerError::RemoveFinalizer(e),
            _ => FinalizerError::UnnamedObject,
        }
    }
}

/// What a reconcile asks of its caller next.
pub enum Command {
    /// Derive the bundle of the source object.
    Derive,
    /// Set the finalizers of the source object to the list, by a merge patch.
    AddFinalizer(Vec<String>),
    /// Sync the bundle.
    Sync,
    /// Clean the bundle up.
    Cleanup,
    /// Publish the audit event on the referenced object.
    Publish { event: Event, regarding: ObjectReference },
    /// Set the finalizers of the source object to the list, by a merge patch.
    RemoveFinalizer(Vec<String>),
    /// The reconcile is over, with this result.
    Finish(Result<Action, FinalizerError>),
}

impl Command {
    /// What the command asks for, without what it carries.
    pub open spec fn order(&self) -> Order {
        match self {
            Command::Derive => Order::Derive,
            Command::AddFinalizer(f) => Order::AddFinalizer(texts(f@)),
            Command::Sync => Order::Sync,
            Command::Cleanup => Order::Cleanup,
            Command::Publish { .. } => Order::PublishDelete,
            Command::RemoveFinalizer(f) => Order::RemoveFinalizer(texts(f@)),
            Command::Finish(Ok(a)) => Order::FinishOk(*a),
            Command::Finish(Err(_)) => Order::FinishErr,
        }
    }
}

/// The audit event that records that the deletion of an object was asked for.
pub open spec fn delete_event(name: Seq<char>) -> EventView {
    EventView {
        type_: EventType::Normal,
        reason: "DeleteRequested"@,
        note: Some("Delete `"@ + name + "`"@),
        action: "Deleting"@,
        secondary: None,
    }
}

/// One reconcile of a source object.
pub struct Reconcile {
    pub phase: Phase,
    /// The finalizer token of the operator.
    pub token: String,
    /// The finalizers that the object holds, as far as the reconcile knows.
    pub finalizers: Vec<String>,
    /// Whether the object has a name.
    pub named: bool,
    /// The action that a cleanup asked for.
    pub pending: Action,
    /// The name by which audit events speak of the object.
    pub name: String,
    /// The reference by which audit events point at the object.
    pub regarding: ObjectReference,
}

impl View for Reconcile {
    type V = MachineView;

    open spec fn view(&self) -> MachineView {
        MachineView {
            phase: self.phase,
            finalizers: texts(self.finalizers@),
            named: self.named,
            pending: self.pending,
        }
    }
}

impl Reconcile {
    /// Begins the reconcile of the object with the given metadata and type.
    pub fn start(meta: &ObjectMeta, types: &TypeMeta, token: &String) -> (r: (Reconcile, Command))
        ensures
            (r.0@, r.1.order()) == first(
                meta@.finalizer_list(),
                meta@.is_deleting(),
                meta@.name is Some,
                token@,
            ),
            r.1 matches Command::Finish(Err(e)) ==> e == FinalizerError::UnnamedObject,
            r.0.token@ == token@,
            r.0.name@ == meta@.name_any(),
            r.0.regarding@ == (ObjectReferenceView {
                api_version: Some(types@.api_version),
                kind: Some(types@.kind),
                name: meta@.name,
                namespace: meta@.namespace,
                uid: meta@.uid,
            }),
    {
        let finalizers = match &meta.finalizers {
            Some(f) => crate::text::copy_texts(f),
            None => Vec::new(),
        };
        assert(texts(finalizers@) =~= meta@.finalizer_list());
        let mut machine = Reconcile {
            phase: Phase::Finished,
            token: token.clone(),
            finalizers,
            named: meta.name.is_some(),
            pending: Action::AwaitChange,
            name: meta.name_any(),
            regarding: ObjectReference {
                api_version: Some(types.api_version.clone()),
                kind: Some(types.kind.clone()),
                name: copy_opt_text(&meta.name),
                namespace: copy_opt_text(&meta.namespace),
                uid: copy_opt_text(&meta.uid),
            },
        };
        if !meta.is_deleting() {
            machine.phase = Phase::Deriving;
            (machine, Command::Derive)
        } else if meta.has_finalizer(token) {
            if machine.named {
                machine.phase = Phase::DerivingCleanup;
                (machine, Command::Derive)
            } else {
                (machine, Command::Finish(Err(FinalizerError::UnnamedObject)))
            }
        } else {
            (machine, Command::Finish(Ok(Action::AwaitChange)))
        }
    }

    /// The finalizers with the token at the end.
    fn with_token(&self) -> (r: Vec<String>)
        ensures
            texts(r@) == self@.finalizers.push(self.token@),
    {
        let mut r = crate::text::copy_texts(&self.finalizers);
        r.push(self.token.clone());
        assert(texts(r@) =~= texts(self.finalizers@).push(self.token@));
        r
    }

    /// The finalizers other than the token.
    fn without_token(&self) -> (r: Vec<String>)
        ensures
            texts(r@) == without(self@.finalizers, self.token@),
    {
        let ghost keep = |f: Seq<char>| f != self.token@;
        let mut r: Vec<String> = Vec::new();
        let mut i: usize = 0;
        proof {
            assert(texts(self.finalizers@).take(0) =~= Seq::<Seq<char>>::empty());
            assert(texts(r@) =~= Seq::<Seq<char>>::empty());
        }
        while i < self.finalizers.len()
            invariant
                i <= self.finalizers@.len(),
                keep == |f: Seq<char>| f != self.token@,
                texts(r@) == texts(self.finalizers@).take(i as int).filter(keep),
            decreases self.finalizers@.len() - i,
        {
            let ghost before = r@;
            proof {
                let part = texts(self.finalizers@).take(i as int);
                let next = texts(self.finalizers@).take(i + 1);
                assert(next =~= part.push(self.finalizers@[i as int]@));
                assert(next.drop_last() =~= part);
                reveal(Seq::filter);
            }
            if self.finalizers[i] != self.token {
                r.push(self.finalizers[i].clone());
                proof {
                    assert(texts(r@) =~= texts(before).push(self.finalizers@[i as int]@));
                }
            }
            i += 1;
        }
        proof {
            assert(texts(self.finalizers@).take(i as int) =~= texts(self.finalizers@));
        }
        r
    }

    /// The command that the phase waits on.
    fn again(&self) -> (c: Command)
        ensures
            c.order() == repeated(self@, self.token@),
            c matches Command::Publish { event, regarding } ==> event@ == delete_event(self.name@)
                && regarding@ == self.regarding@,
    {
        match self.phase {
            Phase::Deriving => Command::Derive,
            Phase::AddingFinalizer => Command::AddFinalizer(self.with_token()),
            Phase::Syncing => Command::Sync,
            Phase::DerivingCleanup => Command::Derive,
            Phase::CleaningUp => Command::Cleanup,
            Phase::PublishingDelete => self.publish_delete(),
            Phase::RemovingFinalizer => Command::RemoveFinalizer(self.without_token()),
            Phase::Finished => Command::Finish(Ok(Action::AwaitChange)),
        }
    }

    /// The command that publishes the audit event of the deletion.
    fn publish_delete(&self) -> (c: Command)
        ensures
            c matches Command::Publish { event, regarding } && event@ == delete_event(self.name@)
                && regarding@ == self.regarding@,
    {
        let note = joined(&joined(&text("Delete `"), &self.name), &text("`"));
        Command::Publish {
            event: Event {
                type_: EventType::Normal,
                reason: text("DeleteRequested"),
                note: Some(note),
                action: text("Deleting"),
                secondary: None,
            },
            regarding: self.regarding.duplicate(),
        }
    }

    /// Takes the outcome of the last command and decides what comes next.
    pub fn step(&mut self, input: Input) -> (c: Command)
        ensures
            (final(self)@, c.order()) == next(old(self)@, old(self).token@, input.signal(), input.action()),
            c matches Command::Finish(Err(e)) ==> if old(self).phase == Phase::Deriving && input
                == Input::Derived(Ok(true)) {
                e == FinalizerError::UnnamedObject
            } else {
                e == input.failure(old(self).phase)
            },
            c matches Command::Publish { event, regarding } ==> event@ == delete_event(old(self).name@)
                && regarding@ == old(self).regarding@,
            final(self).token == old(self).token,
            final(self).name == old(self).name,
            final(self).regarding == old(self).regarding,
    {
        match (self.phase, input) {
            (Phase::Deriving, Input::Derived(Err(e))) => {
                self.phase = Phase::Finished;
                Command::Finish(Err(FinalizerError::ApplyFailed(ReconcileError::Bundle(e))))
            },
            (Phase::Deriving, Input::Derived(Ok(false))) => {
                self.phase = Phase::Finished;
                Command::Finish(Ok(Action::AwaitChange))
            },
            (Phase::Deriving, Input::Derived(Ok(true))) => {
                if crate::text::has_text(&self.finalizers, &self.token) {
                    self.phase = Phase::Syncing;
                    Command::Sync
                } else if self.named {
                    self.phase = Phase::AddingFinalizer;
                    Command::AddFinalizer(self.with_token())
                } else {
                    self.phase = Phase::Finished;
                    Command::Finish(Err(FinalizerError::UnnamedObject))
                }
            },
            (Phase::AddingFinalizer, Input::FinalizerAdded(Err(e))) => {
                self.phase = Phase::Finished;
                Command::Finish(Err(FinalizerError::AddFinalizer(e)))
            },
            (Phase::AddingFinalizer, Input::FinalizerAdded(Ok(()))) => {
                self.finalizers = self.with_token();
                self.phase = Phase::Syncing;
                Command::Sync
            },
            (Phase::Syncing, Input::Synced(Err(e))) => {
                self.phase = Phase::Finished;
                Command::Finish(Err(FinalizerError::ApplyFailed(ReconcileError::Sync(e))))
            },
            (Phase::Syncing, Input::Synced(Ok(action))) => {
                self.phase = Phase::Finished;
                Command::Finish(Ok(action))
            },
            (Phase::DerivingCleanup, Input::Derived(Err(e))) => {
                self.phase = Phase::Finished;
                Command::Finish(Err(FinalizerError::CleanupFailed(ReconcileError::Bundle(e))))
            },
            (Phase::DerivingCleanup, Input::Derived(Ok(true))) => {
                self.phase = Phase::CleaningUp;
                Command::Cleanup
            },
            (Phase::DerivingCleanup, Input::Derived(Ok(false))) => {
                self.phase = Phase::PublishingDelete;
                self.publish_delete()
            },
            (Phase::CleaningUp, Input::CleanedUp(Err(e))) => {
                self.phase = Phase::Finished;
                Command::Finish(Err(FinalizerError::CleanupFailed(ReconcileError::Sync(e))))
            },
            (Phase::CleaningUp, Input::CleanedUp(Ok(Cleanup::Deferred(action)))) => {
                self.phase = Phase::Finished;
                Command::Finish(Ok(action))
            },
            (Phase::CleaningUp, Input::CleanedUp(Ok(Cleanup::Done(action)))) => {
                self.phase = Phase::RemovingFinalizer;
                self.pending = action;
                Command::RemoveFinalizer(self.without_token())
            },
            (Phase::PublishingDelete, Input::Published(published)) => {
                match tolerate_forbidden(published) {
                    Err(e) => {
                        self.phase = Phase::Finished;
                        Command::Finish(Err(FinalizerError::CleanupFailed(ReconcileError::Event(e))))
                    },
                    Ok(()) => {
                        self.phase = Phase::RemovingFinalizer;
                        self.pending = Action::AwaitChange;
                        Command::RemoveFinalizer(self.without_token())
                    },
                }
            },
            (Phase::RemovingFinalizer, Input::FinalizerRemoved(Err(e))) => {
                self.phase = Phase::Finished;
                Command::Finish(Err(FinalizerError::RemoveFinalizer(e)))
            },
            (Phase::RemovingFinalizer, Input::FinalizerRemoved(Ok(()))) => {
                self.finalizers = self.without_token();
                self.phase = Phase::Finished;
                Command::Finish(Ok(self.pending))
            },
            _ => self.again(),
        }
    }
}

} // verus!
