//! The lifecycle state machine.
//!
//! The engine owns the sequencing of Create, notification setup,
//! signal arming, Run, wait-for-shutdown and the final cleanup call,
//! together with the handoff of the cleanup tokens.  It is driven from
//! the outside: the embedding executable performs each emitted
//! [`Action`] (loading the configuration, calling the component,
//! registering an OS signal handler, blocking on the notification) and
//! feeds the outcome back as an [`Event`].  Everything the harness
//! decides — which phase follows which outcome, which cleanup token
//! goes to which shutdown call, that the notification is constructed
//! before any signal is armed, and that no signal after a failed one is
//! attempted — is a transition of this machine.

use vstd::prelude::*;

use crate::Standalone;
use crate::signal::SignalKind;

verus! {

/// State of the lifecycle engine.
///
/// Cleanup tokens are carried inside the state, so a token exists
/// exactly while a phase that still owes its release is in progress,
/// and is surrendered exactly once, inside the terminal action.
pub enum Engine<S: Standalone> {
    /// Waiting for the outcome of configuration loading.
    Boot,
    /// Waiting for the outcome of `create`.
    Creating,
    /// `create` succeeded; the shutdown notification must be fully
    /// constructed before any signal handler that could reference it is
    /// armed.
    NotifyInit { component: S, create_cleanup: S::CreateCleanup },
    /// Arming the termination-class signals one at a time; `pending` is
    /// the kind whose registration outcome is awaited.
    Arming { component: S, create_cleanup: S::CreateCleanup, pending: SignalKind },
    /// Waiting for the outcome of `run`.
    Running { create_cleanup: S::CreateCleanup },
    /// `run` succeeded; blocked until a shutdown notification arrives.
    Waiting { create_cleanup: S::CreateCleanup, run_cleanup: S::RunCleanup },
    /// Terminal: a cleanup action was emitted, or none was owed.
    Done,
}

/// Outcome of the action the embedding executable last performed.
pub enum Event<S: Standalone> {
    /// A configuration was found and parsed.
    ConfigLoaded(S::Config),
    /// No configuration file could be found or parsed anywhere.
    ConfigMissing,
    /// `create` succeeded.
    CreateOk(S, S::CreateCleanup),
    /// `create` failed, still yielding its cleanup token.
    CreateFailed(S::CreateCleanup),
    /// The shutdown notification is fully constructed.
    NotifyReady,
    /// The pending signal kind was armed.
    ArmOk,
    /// Registration of the pending signal kind failed.
    ArmFailed,
    /// `run` succeeded.
    RunOk(S::RunCleanup),
    /// `run` failed, yielding its error-cleanup token.
    RunFailed(S::RunErrorCleanup),
    /// The wait on the shutdown notification completed.
    Notified,
    /// The wait on the shutdown notification reported an error; the
    /// embedding executable logs it, and cleanup is still owed.
    WaitFailed,
}

/// What the embedding executable must do next.
pub enum Action<S: Standalone> {
    /// Call `create` with this configuration.
    Create(S::Config),
    /// Construct the shutdown notification, then report `NotifyReady`.
    InitNotify,
    /// Register the handler for this signal kind.
    Arm(SignalKind),
    /// Call `run` on the component.
    Run(S),
    /// Block on the shutdown notification.
    Wait,
    /// Terminal: call `shutdown` with these tokens, then exit.
    Shutdown(S::CreateCleanup, Option<S::RunCleanup>),
    /// Terminal: call `shutdown_err` with these tokens, then exit.
    ShutdownErr(S::CreateCleanup, S::RunErrorCleanup),
    /// Terminal: report that no valid configuration could be obtained
    /// and exit with a non-zero status; no component lifecycle call was
    /// made, so no cleanup is owed.
    FailConfig,
    /// Nothing: the event did not belong to the current phase.
    Halt,
}

/// The first signal kind to arm.
pub open spec fn first_signal() -> SignalKind {
    SignalKind::Terminate
}

/// The kind armed after `kind`, or `None` after the last one.
pub open spec fn spec_next_signal(kind: SignalKind) -> Option<SignalKind> {
    match kind {
        SignalKind::Terminate => Some(SignalKind::Interrupt),
        SignalKind::Interrupt => Some(SignalKind::HangUp),
        SignalKind::HangUp => None,
    }
}

/// The state that follows `state` on `event`.  An event that does not
/// belong to the current phase changes nothing.
pub open spec fn engine_next<S: Standalone>(state: Engine<S>, event: Event<S>) -> Engine<S> {
    match (state, event) {
        (Engine::Boot, Event::ConfigLoaded(_)) => Engine::Creating,
        (Engine::Boot, Event::ConfigMissing) => Engine::Done,
        (Engine::Creating, Event::CreateOk(component, create_cleanup)) => Engine::NotifyInit {
            component,
            create_cleanup,
        },
        (Engine::Creating, Event::CreateFailed(_)) => Engine::Done,
        (Engine::NotifyInit { component, create_cleanup }, Event::NotifyReady) => Engine::Arming {
            component,
            create_cleanup,
            pending: first_signal(),
        },
        (Engine::Arming { component, create_cleanup, pending }, Event::ArmOk) => match spec_next_signal(
            pending,
        ) {
            Some(next) => Engine::Arming { component, create_cleanup, pending: next },
            None => Engine::Running { create_cleanup },
        },
        (Engine::Arming { .. }, Event::ArmFailed) => Engine::Done,
        (Engine::Running { create_cleanup }, Event::RunOk(run_cleanup)) => Engine::Waiting {
            create_cleanup,
            run_cleanup,
        },
        (Engine::Running { .. }, Event::RunFailed(_)) => Engine::Done,
        (Engine::Waiting { .. }, Event::Notified) => Engine::Done,
        (Engine::Waiting { .. }, Event::WaitFailed) => Engine::Done,
        (other, _) => other,
    }
}

/// The action emitted on `event`.  An event that does not belong to the
/// current phase emits `Halt`.
pub open spec fn engine_emit<S: Standalone>(state: Engine<S>, event: Event<S>) -> Action<S> {
    match (state, event) {
        (Engine::Boot, Event::ConfigLoaded(config)) => Action::Create(config),
        (Engine::Boot, Event::ConfigMissing) => Action::FailConfig,
        (Engine::Creating, Event::CreateOk(_, _)) => Action::InitNotify,
        (Engine::Creating, Event::CreateFailed(create_cleanup)) => Action::Shutdown(
            create_cleanup,
            None,
        ),
        (Engine::NotifyInit { .. }, Event::NotifyReady) => Action::Arm(first_signal()),
        (Engine::Arming { component, pending, .. }, Event::ArmOk) => match spec_next_signal(
            pending,
        ) {
            Some(next) => Action::Arm(next),
            None => Action::Run(component),
        },
        (Engine::Arming { create_cleanup, .. }, Event::ArmFailed) => Action::Shutdown(
            create_cleanup,
            None,
        ),
        (Engine::Running { .. }, Event::RunOk(_)) => Action::Wait,
        (Engine::Running { create_cleanup }, Event::RunFailed(run_error)) => Action::ShutdownErr(
            create_cleanup,
            run_error,
        ),
        (Engine::Waiting { create_cleanup, run_cleanup }, Event::Notified) => Action::Shutdown(
            create_cleanup,
            Some(run_cleanup),
        ),
        (Engine::Waiting { create_cleanup, run_cleanup }, Event::WaitFailed) => Action::Shutdown(
            create_cleanup,
            Some(run_cleanup),
        ),
        (_, _) => Action::Halt,
    }
}

impl<S: Standalone> Engine<S> {
    /// A fresh engine, waiting for the configuration outcome.
    pub fn new() -> (engine: Engine<S>)
        ensures
            engine == Engine::<S>::Boot,
    {
        Engine::Boot
    }

    /// Perform one transition: consume the outcome of the last action
    /// and emit the next one.
    pub fn step(&mut self, event: Event<S>) -> (action: Action<S>)
        ensures
            *final(self) == engine_next(*old(self), event),
            action == engine_emit(*old(self), event),
    {
        let mut taken = Engine::Boot;
        core::mem::swap(self, &mut taken);
        let (next, action) = match (taken, event) {
            (Engine::Boot, Event::ConfigLoaded(config)) => (
                Engine::Creating,
                Action::Create(config),
            ),
            (Engine::Boot, Event::ConfigMissing) => (Engine::Done, Action::FailConfig),
            (Engine::Creating, Event::CreateOk(component, create_cleanup)) => (
                Engine::NotifyInit { component, create_cleanup },
                Action::InitNotify,
            ),
            (Engine::Creating, Event::CreateFailed(create_cleanup)) => (
                Engine::Done,
                Action::Shutdown(create_cleanup, None),
            ),
            (Engine::NotifyInit { component, create_cleanup }, Event::NotifyReady) => (
                Engine::Arming { component, create_cleanup, pending: SignalKind::Terminate },
                Action::Arm(SignalKind::Terminate),
            ),
            (Engine::Arming { component, create_cleanup, pending }, Event::ArmOk) => match pending {
                SignalKind::Terminate => (
                    Engine::Arming {
                        component,
                        create_cleanup,
                        pending: SignalKind::Interrupt,
                    },
                    Action::Arm(SignalKind::Interrupt),
                ),
                SignalKind::Interrupt => (
                    Engine::Arming { component, create_cleanup, pending: SignalKind::HangUp },
                    Action::Arm(SignalKind::HangUp),
                ),
                SignalKind::HangUp => (
                    Engine::Running { create_cleanup },
                    Action::Run(component),
                ),
            },
            (Engine::Arming { component: _, create_cleanup, pending: _ }, Event::ArmFailed) => (
                Engine::Done,
                Action::Shutdown(create_cleanup, None),
            ),
            (Engine::Running { create_cleanup }, Event::RunOk(run_cleanup)) => (
                Engine::Waiting { create_cleanup, run_cleanup },
                Action::Wait,
            ),
            (Engine::Running { create_cleanup }, Event::RunFailed(run_error)) => (
                Engine::Done,
                Action::ShutdownErr(create_cleanup, run_error),
            ),
            (Engine::Waiting { create_cleanup, run_cleanup }, Event::Notified) => (
                Engine::Done,
                Action::Shutdown(create_cleanup, Some(run_cleanup)),
            ),
            (Engine::Waiting { create_cleanup, run_cleanup }, Event::WaitFailed) => (
                Engine::Done,
                Action::Shutdown(create_cleanup, Some(run_cleanup)),
            ),
            (other, _) => (other, Action::Halt),
        };
        *self = next;
        action
    }
}

/// The actions emitted when `state` is driven by `events`, in order.
pub open spec fn engine_trace<S: Standalone>(state: Engine<S>, events: Seq<Event<S>>) -> Seq<
    Action<S>,
>
    decreases events.len(),
{
    if events.len() == 0 {
        Seq::empty()
    } else {
        seq![engine_emit(state, events[0])] + engine_trace(
            engine_next(state, events[0]),
            events.drop_first(),
        )
    }
}

/// Number of `Shutdown` actions in a trace.
pub open spec fn count_shutdowns<S: Standalone>(actions: Seq<Action<S>>) -> nat
    decreases actions.len(),
{
    if actions.len() == 0 {
        0
    } else {
        (if actions[0] is Shutdown {
            1nat
        } else {
            0nat
        }) + count_shutdowns(actions.drop_first())
    }
}

/// Number of `ShutdownErr` actions in a trace.
pub open spec fn count_error_shutdowns<S: Standalone>(actions: Seq<Action<S>>) -> nat
    decreases actions.len(),
{
    if actions.len() == 0 {
        0
    } else {
        (if actions[0] is ShutdownErr {
            1nat
        } else {
            0nat
        }) + count_error_shutdowns(actions.drop_first())
    }
}

/// Number of `Run` actions in a trace.
pub open spec fn count_runs<S: Standalone>(actions: Seq<Action<S>>) -> nat
    decreases actions.len(),
{
    if actions.len() == 0 {
        0
    } else {
        (if actions[0] is Run {
            1nat
        } else {
            0nat
        }) + count_runs(actions.drop_first())
    }
}

/// Number of `Create` actions in a trace.
pub open spec fn count_creates<S: Standalone>(actions: Seq<Action<S>>) -> nat
    decreases actions.len(),
{
    if actions.len() == 0 {
        0
    } else {
        (if actions[0] is Create {
            1nat
        } else {
            0nat
        }) + count_creates(actions.drop_first())
    }
}

/// Number of `Arm` actions for one signal kind in a trace.
pub open spec fn count_arms_of<S: Standalone>(actions: Seq<Action<S>>, kind: SignalKind) -> nat
    decreases actions.len(),
{
    if actions.len() == 0 {
        0
    } else {
        (if actions[0] == Action::<S>::Arm(kind) {
            1nat
        } else {
            0nat
        }) + count_arms_of(actions.drop_first(), kind)
    }
}

/// Unfold one driven event off the front of a trace.
pub proof fn lemma_trace_step<S: Standalone>(
    state: Engine<S>,
    event: Event<S>,
    rest: Seq<Event<S>>,
)
    ensures
        engine_trace(state, seq![event] + rest) == seq![engine_emit(state, event)] + engine_trace(
            engine_next(state, event),
            rest,
        ),
{
    let events = seq![event] + rest;
    assert(events[0] == event);
    assert(events.drop_first() =~= rest);
}

/// The terminal state absorbs every further event: nothing but `Halt`
/// is ever emitted from it.
pub proof fn lemma_done_halts<S: Standalone>(events: Seq<Event<S>>)
    ensures
        engine_trace(Engine::<S>::Done, events).len() == events.len(),
        forall|i: int|
            0 <= i < events.len() ==> engine_trace(Engine::<S>::Done, events)[i] is Halt,
    decreases events.len(),
{
    if events.len() > 0 {
        assert(engine_next(Engine::<S>::Done, events[0]) == Engine::<S>::Done);
        lemma_done_halts::<S>(events.drop_first());
    }
}

/// From the terminal state, no lifecycle action is ever emitted again.
pub proof fn lemma_done_counts<S: Standalone>(events: Seq<Event<S>>)
    ensures
        count_shutdowns(engine_trace(Engine::<S>::Done, events)) == 0,
        count_error_shutdowns(engine_trace(Engine::<S>::Done, events)) == 0,
        count_runs(engine_trace(Engine::<S>::Done, events)) == 0,
        count_creates(engine_trace(Engine::<S>::Done, events)) == 0,
        forall|kind: SignalKind|
            #[trigger] count_arms_of(engine_trace(Engine::<S>::Done, events), kind) == 0,
    decreases events.len(),
{
    if events.len() > 0 {
        assert(engine_next(Engine::<S>::Done, events[0]) == Engine::<S>::Done);
        lemma_done_counts::<S>(events.drop_first());
        let actions = engine_trace(Engine::<S>::Done, events);
        let tail = engine_trace(Engine::<S>::Done, events.drop_first());
        assert(actions.drop_first() =~= tail);
        assert forall|kind: SignalKind| #[trigger] count_arms_of(actions, kind) == 0 by {
            assert(count_arms_of(tail, kind) == 0);
        }
    }
}

/// Counts distribute over concatenation of traces.
pub proof fn lemma_counts_concat<S: Standalone>(left: Seq<Action<S>>, right: Seq<Action<S>>)
    ensures
        count_shutdowns(left + right) == count_shutdowns(left) + count_shutdowns(right),
        count_error_shutdowns(left + right) == count_error_shutdowns(left)
            + count_error_shutdowns(right),
        count_runs(left + right) == count_runs(left) + count_runs(right),
        count_creates(left + right) == count_creates(left) + count_creates(right),
        forall|kind: SignalKind|
            #[trigger] count_arms_of(left + right, kind) == count_arms_of(left, kind)
                + count_arms_of(right, kind),
    decreases left.len(),
{
    if left.len() == 0 {
        assert(left + right =~= right);
        assert forall|kind: SignalKind| #[trigger] count_arms_of(left + right, kind)
            == count_arms_of(left, kind) + count_arms_of(right, kind) by {
            assert(count_arms_of(left, kind) == 0);
        }
    } else {
        lemma_counts_concat(left.drop_first(), right);
        assert((left + right).drop_first() =~= left.drop_first() + right);
        assert((left + right)[0] == left[0]);
        assert forall|kind: SignalKind| #[trigger] count_arms_of(left + right, kind)
            == count_arms_of(left, kind) + count_arms_of(right, kind) by {
            assert(count_arms_of(left.drop_first() + right, kind) == count_arms_of(
                left.drop_first(),
                kind,
            ) + count_arms_of(right, kind));
        }
    }
}

/// Counts of a one-action trace.
proof fn lemma_count_singleton<S: Standalone>(action: Action<S>)
    ensures
        count_shutdowns(seq![action]) == (if action is Shutdown {
            1nat
        } else {
            0nat
        }),
        count_error_shutdowns(seq![action]) == (if action is ShutdownErr {
            1nat
        } else {
            0nat
        }),
        count_runs(seq![action]) == (if action is Run {
            1nat
        } else {
            0nat
        }),
        count_creates(seq![action]) == (if action is Create {
            1nat
        } else {
            0nat
        }),
        forall|kind: SignalKind|
            #[trigger] count_arms_of(seq![action], kind) == (if action == Action::<S>::Arm(kind) {
                1nat
            } else {
                0nat
            }),
{
    assert(seq![action].drop_first() =~= Seq::<Action<S>>::empty());
    assert(seq![action][0] == action);
    assert(count_shutdowns(Seq::<Action<S>>::empty()) == 0);
    assert(count_error_shutdowns(Seq::<Action<S>>::empty()) == 0);
    assert(count_runs(Seq::<Action<S>>::empty()) == 0);
    assert(count_creates(Seq::<Action<S>>::empty()) == 0);
    assert forall|kind: SignalKind|
        #[trigger] count_arms_of(seq![action], kind) == (if action == Action::<S>::Arm(kind) {
            1nat
        } else {
            0nat
        }) by {
        assert(count_arms_of(Seq::<Action<S>>::empty(), kind) == 0);
    }
}

/// Counts of a trace with one action in front.
proof fn lemma_counts_cons<S: Standalone>(action: Action<S>, tail: Seq<Action<S>>)
    ensures
        count_shutdowns(seq![action] + tail) == count_shutdowns(tail) + (if action is Shutdown {
            1nat
        } else {
            0nat
        }),
        count_error_shutdowns(seq![action] + tail) == count_error_shutdowns(tail) + (
        if action is ShutdownErr {
            1nat
        } else {
            0nat
        }),
        count_runs(seq![action] + tail) == count_runs(tail) + (if action is Run {
            1nat
        } else {
            0nat
        }),
        count_creates(seq![action] + tail) == count_creates(tail) + (if action is Create {
            1nat
        } else {
            0nat
        }),
        forall|kind: SignalKind|
            #[trigger] count_arms_of(seq![action] + tail, kind) == count_arms_of(tail, kind) + (
            if action == Action::<S>::Arm(kind) {
                1nat
            } else {
                0nat
            }),
{
    lemma_counts_concat(seq![action], tail);
    lemma_count_singleton(action);
}

/// Configuration absent everywhere: the engine reports that no valid
/// configuration could be obtained and makes no component lifecycle
/// call at all, whatever events follow.
pub proof fn lemma_config_missing<S: Standalone>(rest: Seq<Event<S>>)
    ensures
        ({
            let actions = engine_trace(Engine::<S>::Boot, seq![Event::ConfigMissing] + rest);
            &&& actions.len() == 1 + rest.len()
            &&& actions[0] == Action::<S>::FailConfig
            &&& count_creates(actions) == 0
            &&& count_runs(actions) == 0
            &&& count_shutdowns(actions) == 0
            &&& count_error_shutdowns(actions) == 0
        }),
{
    lemma_trace_step(Engine::<S>::Boot, Event::ConfigMissing, rest);
    lemma_done_halts::<S>(rest);
    lemma_done_counts::<S>(rest);
    lemma_counts_cons(Action::<S>::FailConfig, engine_trace(Engine::<S>::Done, rest));
}

/// Create-failure always results in `shutdown` being invoked exactly
/// once, with the create-phase cleanup token and no run cleanup, while
/// `run` and `shutdown_err` are never invoked, whatever events follow.
pub proof fn lemma_create_failure_cleanup<S: Standalone>(
    config: S::Config,
    create_cleanup: S::CreateCleanup,
    rest: Seq<Event<S>>,
)
    ensures
        ({
            let actions = engine_trace(
                Engine::<S>::Boot,
                seq![Event::ConfigLoaded(config), Event::CreateFailed(create_cleanup)] + rest,
            );
            &&& actions.len() == 2 + rest.len()
            &&& actions[0] == Action::<S>::Create(config)
            &&& actions[1] == Action::<S>::Shutdown(create_cleanup, None)
            &&& count_shutdowns(actions) == 1
            &&& count_error_shutdowns(actions) == 0
            &&& count_runs(actions) == 0
        }),
{
    let e0 = Event::<S>::ConfigLoaded(config);
    let e1 = Event::<S>::CreateFailed(create_cleanup);
    assert(seq![e0, e1] + rest =~= seq![e0] + (seq![e1] + rest));
    lemma_trace_step(Engine::<S>::Boot, e0, seq![e1] + rest);
    lemma_trace_step(Engine::<S>::Creating, e1, rest);
    lemma_done_halts::<S>(rest);
    lemma_done_counts::<S>(rest);
    let tail = engine_trace(Engine::<S>::Done, rest);
    lemma_counts_cons(Action::<S>::Shutdown(create_cleanup, None), tail);
    lemma_counts_cons(
        Action::<S>::Create(config),
        seq![Action::<S>::Shutdown(create_cleanup, None)] + tail,
    );
}

/// A successful startup (configuration found, `create` succeeded,
/// notification constructed, all three signals armed) emits exactly the
/// expected action prefix and leaves the engine running.
pub proof fn lemma_startup_trace<S: Standalone>(
    config: S::Config,
    component: S,
    create_cleanup: S::CreateCleanup,
    rest: Seq<Event<S>>,
)
    ensures
        engine_trace(
            Engine::<S>::Boot,
            seq![
                Event::<S>::ConfigLoaded(config),
                Event::<S>::CreateOk(component, create_cleanup),
                Event::<S>::NotifyReady,
                Event::<S>::ArmOk,
                Event::<S>::ArmOk,
                Event::<S>::ArmOk,
            ] + rest,
        ) == seq![
            Action::<S>::Create(config),
            Action::<S>::InitNotify,
            Action::<S>::Arm(SignalKind::Terminate),
            Action::<S>::Arm(SignalKind::Interrupt),
            Action::<S>::Arm(SignalKind::HangUp),
            Action::<S>::Run(component),
        ] + engine_trace(Engine::<S>::Running { create_cleanup }, rest),
{
    let e0 = Event::<S>::ConfigLoaded(config);
    let e1 = Event::<S>::CreateOk(component, create_cleanup);
    let e2 = Event::<S>::NotifyReady;
    let e3 = Event::<S>::ArmOk;
    let s0 = Engine::<S>::Boot;
    let s1 = Engine::<S>::Creating;
    let s2 = Engine::<S>::NotifyInit { component, create_cleanup };
    let s3 = Engine::<S>::Arming { component, create_cleanup, pending: SignalKind::Terminate };
    let s4 = Engine::<S>::Arming { component, create_cleanup, pending: SignalKind::Interrupt };
    let s5 = Engine::<S>::Arming { component, create_cleanup, pending: SignalKind::HangUp };
    assert(seq![e0, e1, e2, e3, e3, e3] + rest =~= seq![e0] + (seq![e1, e2, e3, e3, e3] + rest));
    lemma_trace_step(s0, e0, seq![e1, e2, e3, e3, e3] + rest);
    assert(seq![e1, e2, e3, e3, e3] + rest =~= seq![e1] + (seq![e2, e3, e3, e3] + rest));
    lemma_trace_step(s1, e1, seq![e2, e3, e3, e3] + rest);
    assert(seq![e2, e3, e3, e3] + rest =~= seq![e2] + (seq![e3, e3, e3] + rest));
    lemma_trace_step(s2, e2, seq![e3, e3, e3] + rest);
    assert(seq![e3, e3, e3] + rest =~= seq![e3] + (seq![e3, e3] + rest));
    lemma_trace_step(s3, e3, seq![e3, e3] + rest);
    assert(seq![e3, e3] + rest =~= seq![e3] + (seq![e3] + rest));
    lemma_trace_step(s4, e3, seq![e3] + rest);
    lemma_trace_step(s5, e3, rest);
    assert(engine_trace(s0, seq![e0, e1, e2, e3, e3, e3] + rest) =~= seq![
        Action::<S>::Create(config),
        Action::<S>::InitNotify,
        Action::<S>::Arm(SignalKind::Terminate),
        Action::<S>::Arm(SignalKind::Interrupt),
        Action::<S>::Arm(SignalKind::HangUp),
        Action::<S>::Run(component),
    ] + engine_trace(Engine::<S>::Running { create_cleanup }, rest));
}

/// Counts of a trace that begins with the successful-startup prefix.
proof fn lemma_startup_counts<S: Standalone>(
    config: S::Config,
    component: S,
    tail: Seq<Action<S>>,
)
    ensures
        ({
            let actions = seq![
                Action::<S>::Create(config),
                Action::<S>::InitNotify,
                Action::<S>::Arm(SignalKind::Terminate),
                Action::<S>::Arm(SignalKind::Interrupt),
                Action::<S>::Arm(SignalKind::HangUp),
                Action::<S>::Run(component),
            ] + tail;
            &&& count_shutdowns(actions) == count_shutdowns(tail)
            &&& count_error_shutdowns(actions) == count_error_shutdowns(tail)
            &&& count_runs(actions) == 1 + count_runs(tail)
            &&& count_creates(actions) == 1 + count_creates(tail)
        }),
{
    let a0 = Action::<S>::Create(config);
    let a1 = Action::<S>::InitNotify;
    let a2 = Action::<S>::Arm(SignalKind::Terminate);
    let a3 = Action::<S>::Arm(SignalKind::Interrupt);
    let a4 = Action::<S>::Arm(SignalKind::HangUp);
    let a5 = Action::<S>::Run(component);
    assert(seq![a0, a1, a2, a3, a4, a5] + tail =~= seq![a0] + (seq![a1, a2, a3, a4, a5] + tail));
    assert(seq![a1, a2, a3, a4, a5] + tail =~= seq![a1] + (seq![a2, a3, a4, a5] + tail));
    assert(seq![a2, a3, a4, a5] + tail =~= seq![a2] + (seq![a3, a4, a5] + tail));
    assert(seq![a3, a4, a5] + tail =~= seq![a3] + (seq![a4, a5] + tail));
    assert(seq![a4, a5] + tail =~= seq![a4] + (seq![a5] + tail));
    lemma_counts_cons(a5, tail);
    lemma_counts_cons(a4, seq![a5] + tail);
    lemma_counts_cons(a3, seq![a4, a5] + tail);
    lemma_counts_cons(a2, seq![a3, a4, a5] + tail);
    lemma_counts_cons(a1, seq![a2, a3, a4, a5] + tail);
    lemma_counts_cons(a0, seq![a1, a2, a3, a4, a5] + tail);
}

/// Run-failure always results in `shutdown_err` being invoked exactly
/// once, with the create-phase token and the run-error token, while the
/// success path `shutdown` is never invoked, whatever events follow.
pub proof fn lemma_run_failure_cleanup<S: Standalone>(
    config: S::Config,
    component: S,
    create_cleanup: S::CreateCleanup,
    run_error: S::RunErrorCleanup,
    rest: Seq<Event<S>>,
)
    ensures
        ({
            let actions = engine_trace(
                Engine::<S>::Boot,
                seq![
                    Event::<S>::ConfigLoaded(config),
                    Event::<S>::CreateOk(component, create_cleanup),
                    Event::<S>::NotifyReady,
                    Event::<S>::ArmOk,
                    Event::<S>::ArmOk,
                    Event::<S>::ArmOk,
                    Event::<S>::RunFailed(run_error),
                ] + rest,
            );
            &&& actions.len() == 7 + rest.len()
            &&& actions[5] == Action::<S>::Run(component)
            &&& actions[6] == Action::<S>::ShutdownErr(create_cleanup, run_error)
            &&& count_error_shutdowns(actions) == 1
            &&& count_shutdowns(actions) == 0
            &&& count_runs(actions) == 1
        }),
{
    let e6 = Event::<S>::RunFailed(run_error);
    let prefix = seq![
        Event::<S>::ConfigLoaded(config),
        Event::<S>::CreateOk(component, create_cleanup),
        Event::<S>::NotifyReady,
        Event::<S>::ArmOk,
        Event::<S>::ArmOk,
        Event::<S>::ArmOk,
    ];
    assert(seq![
        Event::<S>::ConfigLoaded(config),
        Event::<S>::CreateOk(component, create_cleanup),
        Event::<S>::NotifyReady,
        Event::<S>::ArmOk,
        Event::<S>::ArmOk,
        Event::<S>::ArmOk,
        Event::<S>::RunFailed(run_error),
    ] + rest =~= prefix + (seq![e6] + rest));
    lemma_startup_trace(config, component, create_cleanup, seq![e6] + rest);
    lemma_trace_step(Engine::<S>::Running { create_cleanup }, e6, rest);
    lemma_done_halts::<S>(rest);
    lemma_done_counts::<S>(rest);
    let tail = engine_trace(Engine::<S>::Done, rest);
    lemma_counts_cons(Action::<S>::ShutdownErr(create_cleanup, run_error), tail);
    lemma_startup_counts(
        config,
        component,
        seq![Action::<S>::ShutdownErr(create_cleanup, run_error)] + tail,
    );
}

/// Run-success followed by a received shutdown notification always
/// results in `shutdown` being invoked exactly once, with the
/// create-phase token and the run cleanup token, while `shutdown_err`
/// is never invoked, whatever events follow.
pub proof fn lemma_run_success_cleanup<S: Standalone>(
    config: S::Config,
    component: S,
    create_cleanup: S::CreateCleanup,
    run_cleanup: S::RunCleanup,
    rest: Seq<Event<S>>,
)
    ensures
        ({
            let actions = engine_trace(
                Engine::<S>::Boot,
                seq![
                    Event::<S>::ConfigLoaded(config),
                    Event::<S>::CreateOk(component, create_cleanup),
                    Event::<S>::NotifyReady,
                    Event::<S>::ArmOk,
                    Event::<S>::ArmOk,
                    Event::<S>::ArmOk,
                    Event::<S>::RunOk(run_cleanup),
                    Event::<S>::Notified,
                ] + rest,
            );
            &&& actions.len() == 8 + rest.len()
            &&& actions[5] == Action::<S>::Run(component)
            &&& actions[6] == Action::<S>::Wait
            &&& actions[7] == Action::<S>::Shutdown(create_cleanup, Some(run_cleanup))
            &&& count_shutdowns(actions) == 1
            &&& count_error_shutdowns(actions) == 0
            &&& count_runs(actions) == 1
        }),
{
    lemma_notified_cleanup_general(
        config,
        component,
        create_cleanup,
        run_cleanup,
        Event::<S>::Notified,
        rest,
    );
}

/// A failed wait on the notification is reported but does not prevent
/// cleanup: `shutdown` is still invoked exactly once, with the same
/// tokens as on the success path, whatever events follow.
pub proof fn lemma_wait_failure_cleanup<S: Standalone>(
    config: S::Config,
    component: S,
    create_cleanup: S::CreateCleanup,
    run_cleanup: S::RunCleanup,
    rest: Seq<Event<S>>,
)
    ensures
        ({
            let actions = engine_trace(
                Engine::<S>::Boot,
                seq![
                    Event::<S>::ConfigLoaded(config),
                    Event::<S>::CreateOk(component, create_cleanup),
                    Event::<S>::NotifyReady,
                    Event::<S>::ArmOk,
                    Event::<S>::ArmOk,
                    Event::<S>::ArmOk,
                    Event::<S>::RunOk(run_cleanup),
                    Event::<S>::WaitFailed,
                ] + rest,
            );
            &&& actions.len() == 8 + rest.len()
            &&& actions[7] == Action::<S>::Shutdown(create_cleanup, Some(run_cleanup))
            &&& count_shutdowns(actions) == 1
            &&& count_error_shutdowns(actions) == 0
        }),
{
    lemma_notified_cleanup_general(
        config,
        component,
        create_cleanup,
        run_cleanup,
        Event::<S>::WaitFailed,
        rest,
    );
}

/// Shared argument for the two wait outcomes: after run-success, either
/// wait outcome leads to exactly one `shutdown` with both tokens.
proof fn lemma_notified_cleanup_general<S: Standalone>(
    config: S::Config,
    component: S,
    create_cleanup: S::CreateCleanup,
    run_cleanup: S::RunCleanup,
    wait_event: Event<S>,
    rest: Seq<Event<S>>,
)
    requires
        wait_event is Notified || wait_event is WaitFailed,
    ensures
        ({
            let actions = engine_trace(
                Engine::<S>::Boot,
                seq![
                    Event::<S>::ConfigLoaded(config),
                    Event::<S>::CreateOk(component, create_cleanup),
                    Event::<S>::NotifyReady,
                    Event::<S>::ArmOk,
                    Event::<S>::ArmOk,
                    Event::<S>::ArmOk,
                    Event::<S>::RunOk(run_cleanup),
                    wait_event,
                ] + rest,
            );
            &&& actions.len() == 8 + rest.len()
            &&& actions[5] == Action::<S>::Run(component)
            &&& actions[6] == Action::<S>::Wait
            &&& actions[7] == Action::<S>::Shutdown(create_cleanup, Some(run_cleanup))
            &&& count_shutdowns(actions) == 1
            &&& count_error_shutdowns(actions) == 0
            &&& count_runs(actions) == 1
        }),
{
    let e6 = Event::<S>::RunOk(run_cleanup);
    let prefix = seq![
        Event::<S>::ConfigLoaded(config),
        Event::<S>::CreateOk(component, create_cleanup),
        Event::<S>::NotifyReady,
        Event::<S>::ArmOk,
        Event::<S>::ArmOk,
        Event::<S>::ArmOk,
    ];
    assert(seq![
        Event::<S>::ConfigLoaded(config),
        Event::<S>::CreateOk(component, create_cleanup),
        Event::<S>::NotifyReady,
        Event::<S>::ArmOk,
        Event::<S>::ArmOk,
        Event::<S>::ArmOk,
        Event::<S>::RunOk(run_cleanup),
        wait_event,
    ] + rest =~= prefix + (seq![e6] + (seq![wait_event] + rest)));
    lemma_startup_trace(config, component, create_cleanup, seq![e6] + (seq![wait_event] + rest));
    lemma_trace_step(
        Engine::<S>::Running { create_cleanup },
        e6,
        seq![wait_event] + rest,
    );
    lemma_trace_step(Engine::<S>::Waiting { create_cleanup, run_cleanup }, wait_event, rest);
    lemma_done_halts::<S>(rest);
    lemma_done_counts::<S>(rest);
    let tail = engine_trace(Engine::<S>::Done, rest);
    lemma_counts_cons(Action::<S>::Shutdown(create_cleanup, Some(run_cleanup)), tail);
    lemma_counts_cons(
        Action::<S>::Wait,
        seq![Action::<S>::Shutdown(create_cleanup, Some(run_cleanup))] + tail,
    );
    lemma_startup_counts(
        config,
        component,
        seq![Action::<S>::Wait] + (seq![Action::<S>::Shutdown(create_cleanup, Some(run_cleanup))]
            + tail),
    );
}

/// If arming fails on the second of the three signal kinds, the engine
/// does not attempt the third, invokes `shutdown` exactly once with the
/// create-phase token and no run cleanup, and never invokes `run`,
/// whatever events follow.
pub proof fn lemma_arm_failure_cleanup<S: Standalone>(
    config: S::Config,
    component: S,
    create_cleanup: S::CreateCleanup,
    rest: Seq<Event<S>>,
)
    ensures
        ({
            let actions = engine_trace(
                Engine::<S>::Boot,
                seq![
                    Event::<S>::ConfigLoaded(config),
                    Event::<S>::CreateOk(component, create_cleanup),
                    Event::<S>::NotifyReady,
                    Event::<S>::ArmOk,
                    Event::<S>::ArmFailed,
                ] + rest,
            );
            &&& actions.len() == 5 + rest.len()
            &&& actions[2] == Action::<S>::Arm(SignalKind::Terminate)
            &&& actions[3] == Action::<S>::Arm(SignalKind::Interrupt)
            &&& actions[4] == Action::<S>::Shutdown(create_cleanup, None)
            &&& count_arms_of(actions, SignalKind::HangUp) == 0
            &&& count_shutdowns(actions) == 1
            &&& count_error_shutdowns(actions) == 0
            &&& count_runs(actions) == 0
        }),
{
    let e0 = Event::<S>::ConfigLoaded(config);
    let e1 = Event::<S>::CreateOk(component, create_cleanup);
    let e2 = Event::<S>::NotifyReady;
    let e3 = Event::<S>::ArmOk;
    let e4 = Event::<S>::ArmFailed;
    let s0 = Engine::<S>::Boot;
    let s1 = Engine::<S>::Creating;
    let s2 = Engine::<S>::NotifyInit { component, create_cleanup };
    let s3 = Engine::<S>::Arming { component, create_cleanup, pending: SignalKind::Terminate };
    let s4 = Engine::<S>::Arming { component, create_cleanup, pending: SignalKind::Interrupt };
    assert(seq![e0, e1, e2, e3, e4] + rest =~= seq![e0] + (seq![e1, e2, e3, e4] + rest));
    lemma_trace_step(s0, e0, seq![e1, e2, e3, e4] + rest);
    assert(seq![e1, e2, e3, e4] + rest =~= seq![e1] + (seq![e2, e3, e4] + rest));
    lemma_trace_step(s1, e1, seq![e2, e3, e4] + rest);
    assert(seq![e2, e3, e4] + rest =~= seq![e2] + (seq![e3, e4] + rest));
    lemma_trace_step(s2, e2, seq![e3, e4] + rest);
    assert(seq![e3, e4] + rest =~= seq![e3] + (seq![e4] + rest));
    lemma_trace_step(s3, e3, seq![e4] + rest);
    lemma_trace_step(s4, e4, rest);
    lemma_done_halts::<S>(rest);
    lemma_done_counts::<S>(rest);
    let tail = engine_trace(Engine::<S>::Done, rest);
    let a4 = Action::<S>::Shutdown(create_cleanup, None);
    let a3 = Action::<S>::Arm(SignalKind::Interrupt);
    let a2 = Action::<S>::Arm(SignalKind::Terminate);
    let a1 = Action::<S>::InitNotify;
    let a0 = Action::<S>::Create(config);
    lemma_counts_cons(a4, tail);
    lemma_counts_cons(a3, seq![a4] + tail);
    lemma_counts_cons(a2, seq![a3] + (seq![a4] + tail));
    lemma_counts_cons(a1, seq![a2] + (seq![a3] + (seq![a4] + tail)));
    lemma_counts_cons(a0, seq![a1] + (seq![a2] + (seq![a3] + (seq![a4] + tail))));
}

/// Every `Arm` action in `actions` is preceded by an `InitNotify`
/// action.
pub open spec fn arms_preceded_by_init<S: Standalone>(actions: Seq<Action<S>>) -> bool {
    forall|i: int|
        0 <= i < actions.len() && (#[trigger] actions[i]) is Arm ==> exists|j: int|
            0 <= j < i && (#[trigger] actions[j]) is InitNotify
}

/// Ordering guarantee for the notification: in every trace from
/// startup, the engine asks for the shutdown notification to be
/// constructed before it asks for any signal to be armed, so no handler
/// can ever be installed against an unconstructed notification.
pub proof fn lemma_notify_before_arm<S: Standalone>(events: Seq<Event<S>>)
    ensures
        arms_preceded_by_init(engine_trace(Engine::<S>::Boot, events)),
{
    lemma_notify_before_arm_aux(Engine::<S>::Boot, events);
}

/// Inductive core of [`lemma_notify_before_arm`]: from any phase that
/// precedes the notification request (or the terminal phase), no `Arm`
/// is emitted before an `InitNotify`.
proof fn lemma_notify_before_arm_aux<S: Standalone>(state: Engine<S>, events: Seq<Event<S>>)
    requires
        state is Boot || state is Creating || state is Done,
    ensures
        arms_preceded_by_init(engine_trace(state, events)),
    decreases events.len(),
{
    if events.len() > 0 {
        let event = events[0];
        let next = engine_next(state, event);
        let first = engine_emit(state, event);
        let tail = engine_trace(next, events.drop_first());
        let actions = engine_trace(state, events);
        assert(actions == seq![first] + tail);
        if state is Creating && event is CreateOk {
            assert(first is InitNotify);
            assert(actions[0] is InitNotify);
            assert forall|i: int|
                0 <= i < actions.len() && (#[trigger] actions[i]) is Arm implies exists|j: int|
                0 <= j < i && (#[trigger] actions[j]) is InitNotify by {
                assert(actions[0] is InitNotify);
            }
        } else {
            assert(next is Boot || next is Creating || next is Done);
            assert(!(first is Arm));
            lemma_notify_before_arm_aux(next, events.drop_first());
            assert forall|i: int|
                0 <= i < actions.len() && (#[trigger] actions[i]) is Arm implies exists|j: int|
                0 <= j < i && (#[trigger] actions[j]) is InitNotify by {
                assert(i > 0);
                assert(tail[i - 1] is Arm);
                let j = choose|j: int| 0 <= j < i - 1 && (#[trigger] tail[j]) is InitNotify;
                assert(actions[j + 1] is InitNotify);
            }
        }
    }
}

} // verus!
