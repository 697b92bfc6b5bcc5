//! Signal-handler decision logic.
//!
//! Three termination-class signals (interrupt, hang-up, terminate) are
//! mapped onto the shutdown notification, with a one-bounce escalation
//! rule for repeated interrupts: the first interrupt-class signal sets
//! the escalation flag and posts a notification like any other
//! termination-class signal; a second interrupt while the flag is set
//! demands immediate, non-graceful process termination, touching
//! neither the notification nor any cleanup path.  The handler
//! installed by the embedding executable does nothing beyond this
//! decision step: it owns no other state and allocates nothing.

use vstd::prelude::*;

use crate::notify::NotifyFlag;

verus! {

/// The termination-class signals the harness arms.
#[derive(Clone, Copy, PartialEq, Eq, Structural, Debug)]
pub enum SignalKind {
    /// Interrupt (operator keypress); subject to escalation.
    Interrupt,
    /// Hang-up.
    HangUp,
    /// Terminate.
    Terminate,
}

/// What the installed handler must do after a decision step.
#[derive(Clone, Copy, PartialEq, Eq, Structural, Debug)]
pub enum HandlerOutcome {
    /// Wake the lifecycle thread (a notification was posted).
    Notified,
    /// Terminate the process immediately, with no cleanup.
    ForceExit,
}

/// The escalation state: whether an interrupt-class signal has already
/// been seen.
pub struct SignalBridge {
    pub escalated: bool,
}

impl SignalBridge {
    /// State before any signal was delivered.
    pub open spec fn spec_new() -> SignalBridge {
        SignalBridge { escalated: false }
    }

    /// Escalation state after one delivery.
    pub open spec fn spec_next(self, kind: SignalKind) -> SignalBridge {
        if kind is Interrupt {
            SignalBridge { escalated: true }
        } else {
            self
        }
    }

    /// Outcome of one delivery.
    pub open spec fn spec_outcome(self, kind: SignalKind) -> HandlerOutcome {
        if kind is Interrupt && self.escalated {
            HandlerOutcome::ForceExit
        } else {
            HandlerOutcome::Notified
        }
    }

    pub fn new() -> (bridge: SignalBridge)
        ensures
            bridge == SignalBridge::spec_new(),
    {
        SignalBridge { escalated: false }
    }
}

/// One decision step of the signal handler.
///
/// On an interrupt with the escalation flag already set, the outcome is
/// [`HandlerOutcome::ForceExit`] and neither the flag nor the
/// notification is touched.  On any other delivery the notification is
/// posted, and an interrupt additionally sets the escalation flag.
pub fn handle_signal(
    bridge: &mut SignalBridge,
    flag: &mut NotifyFlag,
    kind: SignalKind,
) -> (outcome: HandlerOutcome)
    ensures
        outcome == old(bridge).spec_outcome(kind),
        *final(bridge) == old(bridge).spec_next(kind),
        outcome is ForceExit ==> *final(flag) == *old(flag) && *final(bridge) == *old(bridge),
        outcome is Notified ==> *final(flag) == old(flag).spec_notify(),
{
    match kind {
        SignalKind::Interrupt => {
            if bridge.escalated {
                HandlerOutcome::ForceExit
            } else {
                bridge.escalated = true;
                flag.notify();
                HandlerOutcome::Notified
            }
        },
        _ => {
            flag.notify();
            HandlerOutcome::Notified
        },
    }
}

/// Escalation state after a whole sequence of deliveries.
pub open spec fn bridge_after(bridge: SignalBridge, kinds: Seq<SignalKind>) -> SignalBridge
    decreases kinds.len(),
{
    if kinds.len() == 0 {
        bridge
    } else {
        bridge_after(bridge.spec_next(kinds[0]), kinds.drop_first())
    }
}

/// Outcomes of a whole sequence of deliveries.
pub open spec fn bridge_outcomes(bridge: SignalBridge, kinds: Seq<SignalKind>) -> Seq<
    HandlerOutcome,
>
    decreases kinds.len(),
{
    if kinds.len() == 0 {
        Seq::empty()
    } else {
        seq![bridge.spec_outcome(kinds[0])] + bridge_outcomes(
            bridge.spec_next(kinds[0]),
            kinds.drop_first(),
        )
    }
}

/// After any sequence of deliveries, the escalation flag is set exactly
/// when the sequence contained an interrupt-class signal.
pub proof fn lemma_escalation_flag(bridge: SignalBridge, kinds: Seq<SignalKind>)
    ensures
        bridge_after(bridge, kinds).escalated <==> (bridge.escalated || exists|i: int|
            0 <= i < kinds.len() && kinds[i] is Interrupt),
    decreases kinds.len(),
{
    if kinds.len() > 0 {
        lemma_escalation_flag(bridge.spec_next(kinds[0]), kinds.drop_first());
        if bridge_after(bridge, kinds).escalated {
            if !bridge.escalated && !(kinds[0] is Interrupt) {
                let j = choose|j: int|
                    0 <= j < kinds.drop_first().len() && kinds.drop_first()[j] is Interrupt;
                assert(kinds[j + 1] is Interrupt);
            }
        } else {
            assert(forall|i: int| 0 <= i < kinds.len() ==> !(kinds[i] is Interrupt)) by {
                assert(forall|i: int|
                    1 <= i < kinds.len() ==> kinds[i] == kinds.drop_first()[i - 1]);
            }
        }
    }
}

/// For every sequence of deliveries there is one outcome per delivery.
pub proof fn lemma_outcomes_len(bridge: SignalBridge, kinds: Seq<SignalKind>)
    ensures
        bridge_outcomes(bridge, kinds).len() == kinds.len(),
    decreases kinds.len(),
{
    if kinds.len() > 0 {
        lemma_outcomes_len(bridge.spec_next(kinds[0]), kinds.drop_first());
    }
}

/// The escalation flag transitions false-to-true on the first
/// interrupt-class signal, which still posts a notification; once the
/// flag is true, every subsequent interrupt-class signal is answered
/// with immediate termination and posts nothing, while hang-up and
/// terminate deliveries always post a notification.
pub proof fn lemma_escalation_rule(kinds: Seq<SignalKind>)
    ensures
        bridge_outcomes(SignalBridge::spec_new(), kinds).len() == kinds.len(),
        forall|i: int|
            0 <= i < kinds.len() && kinds[i] is Interrupt && (exists|j: int|
                0 <= j < i && kinds[j] is Interrupt) ==> bridge_outcomes(
                SignalBridge::spec_new(),
                kinds,
            )[i] is ForceExit,
        forall|i: int|
            0 <= i < kinds.len() && !(exists|j: int| 0 <= j < i && kinds[j] is Interrupt)
                ==> bridge_outcomes(SignalBridge::spec_new(), kinds)[i] is Notified,
{
    lemma_outcomes_len(SignalBridge::spec_new(), kinds);
    lemma_outcomes_at(SignalBridge::spec_new(), kinds);
    assert forall|i: int| 0 <= i < kinds.len() implies (bridge_after(
        SignalBridge::spec_new(),
        kinds.take(i),
    ).escalated <==> (exists|j: int| 0 <= j < i && kinds[j] is Interrupt)) by {
        lemma_escalation_flag(SignalBridge::spec_new(), kinds.take(i));
        if bridge_after(SignalBridge::spec_new(), kinds.take(i)).escalated {
            let j = choose|j: int| 0 <= j < kinds.take(i).len() && kinds.take(i)[j] is Interrupt;
            assert(kinds[j] is Interrupt);
        }
        if exists|j: int| 0 <= j < i && kinds[j] is Interrupt {
            let j = choose|j: int| 0 <= j < i && kinds[j] is Interrupt;
            assert(kinds.take(i)[j] is Interrupt);
        }
    }
}

/// Each outcome in a delivery sequence is the outcome of that delivery
/// against the escalation state left by the deliveries before it.
pub proof fn lemma_outcomes_at(bridge: SignalBridge, kinds: Seq<SignalKind>)
    ensures
        bridge_outcomes(bridge, kinds).len() == kinds.len(),
        forall|i: int|
            0 <= i < kinds.len() ==> bridge_outcomes(bridge, kinds)[i] == bridge_after(
                bridge,
                kinds.take(i),
            ).spec_outcome(kinds[i]),
    decreases kinds.len(),
{
    lemma_outcomes_len(bridge, kinds);
    if kinds.len() > 0 {
        lemma_outcomes_at(bridge.spec_next(kinds[0]), kinds.drop_first());
        assert forall|i: int| 0 <= i < kinds.len() implies bridge_outcomes(bridge, kinds)[i]
            == bridge_after(bridge, kinds.take(i)).spec_outcome(kinds[i]) by {
            if i == 0 {
                assert(kinds.take(0) == Seq::<SignalKind>::empty());
            } else {
                let rest = kinds.drop_first();
                assert(bridge_outcomes(bridge, kinds)[i] == bridge_outcomes(
                    bridge.spec_next(kinds[0]),
                    rest,
                )[i - 1]);
                assert(rest.take(i - 1) =~= kinds.take(i).drop_first());
                assert(bridge_after(bridge, kinds.take(i)) == bridge_after(
                    bridge.spec_next(kinds[0]),
                    rest.take(i - 1),
                ));
                assert(rest[i - 1] == kinds[i]);
            }
        }
    }
}

/// Combined effect of one delivery on the escalation state and the
/// notification flag: a notified delivery posts the wake-up, an
/// escalated interrupt touches nothing.
pub open spec fn pair_next(bridge: SignalBridge, flag: NotifyFlag, kind: SignalKind) -> (
    SignalBridge,
    NotifyFlag,
) {
    if bridge.spec_outcome(kind) is Notified {
        (bridge.spec_next(kind), flag.spec_notify())
    } else {
        (bridge, flag)
    }
}

/// Combined escalation state and notification flag after a whole
/// sequence of deliveries.
pub open spec fn pair_after(bridge: SignalBridge, flag: NotifyFlag, kinds: Seq<SignalKind>) -> (
    SignalBridge,
    NotifyFlag,
)
    decreases kinds.len(),
{
    if kinds.len() == 0 {
        (bridge, flag)
    } else {
        let (next_bridge, next_flag) = pair_next(bridge, flag, kinds[0]);
        pair_after(next_bridge, next_flag, kinds.drop_first())
    }
}

/// The escalation component of the combined trace agrees with the
/// escalation-only trace.
pub proof fn lemma_pair_bridge(bridge: SignalBridge, flag: NotifyFlag, kinds: Seq<SignalKind>)
    ensures
        pair_after(bridge, flag, kinds).0 == bridge_after(bridge, kinds),
    decreases kinds.len(),
{
    if kinds.len() > 0 {
        let (next_bridge, next_flag) = pair_next(bridge, flag, kinds[0]);
        assert(next_bridge == bridge.spec_next(kinds[0]));
        lemma_pair_bridge(next_bridge, next_flag, kinds.drop_first());
    }
}

/// One more delivery at the end of a sequence acts on the state the
/// sequence left behind.
pub proof fn lemma_pair_after_push(
    bridge: SignalBridge,
    flag: NotifyFlag,
    kinds: Seq<SignalKind>,
    kind: SignalKind,
)
    ensures
        pair_after(bridge, flag, kinds.push(kind)) == ({
            let (last_bridge, last_flag) = pair_after(bridge, flag, kinds);
            pair_next(last_bridge, last_flag, kind)
        }),
    decreases kinds.len(),
{
    let snoc = kinds.push(kind);
    assert(snoc.len() == kinds.len() + 1);
    if kinds.len() == 0 {
        assert(snoc[0] == kind);
        assert(snoc.drop_first() =~= Seq::<SignalKind>::empty());
        let (first_bridge, first_flag) = pair_next(bridge, flag, kind);
        assert(pair_after(bridge, flag, snoc) == pair_after(
            first_bridge,
            first_flag,
            snoc.drop_first(),
        ));
        assert(pair_after(first_bridge, first_flag, Seq::<SignalKind>::empty()) == (
            first_bridge,
            first_flag,
        ));
        assert(pair_after(bridge, flag, kinds) == (bridge, flag));
    } else {
        assert(snoc[0] == kinds[0]);
        assert(snoc.drop_first() =~= kinds.drop_first().push(kind));
        let (next_bridge, next_flag) = pair_next(bridge, flag, kinds[0]);
        lemma_pair_after_push(next_bridge, next_flag, kinds.drop_first(), kind);
        assert(pair_after(bridge, flag, snoc) == pair_after(
            next_bridge,
            next_flag,
            kinds.drop_first().push(kind),
        ));
        assert(pair_after(bridge, flag, kinds) == pair_after(
            next_bridge,
            next_flag,
            kinds.drop_first(),
        ));
    }
}

/// An interrupt-class signal delivered after an earlier one terminates
/// the process without invoking the notification: the combined state,
/// the escalation flag and the pending wake-up alike, is exactly what
/// it was before that delivery.
pub proof fn lemma_escalated_interrupt_posts_nothing(
    flag: NotifyFlag,
    kinds: Seq<SignalKind>,
    i: int,
)
    requires
        0 <= i < kinds.len(),
        kinds[i] is Interrupt,
        exists|j: int| 0 <= j < i && kinds[j] is Interrupt,
    ensures
        pair_after(SignalBridge::spec_new(), flag, kinds.take(i + 1)) == pair_after(
            SignalBridge::spec_new(),
            flag,
            kinds.take(i),
        ),
{
    let start = SignalBridge::spec_new();
    assert(kinds.take(i + 1) =~= kinds.take(i).push(kinds[i]));
    lemma_pair_after_push(start, flag, kinds.take(i), kinds[i]);
    lemma_pair_bridge(start, flag, kinds.take(i));
    lemma_escalation_flag(start, kinds.take(i));
    let j = choose|j: int| 0 <= j < i && kinds[j] is Interrupt;
    assert(kinds.take(i)[j] is Interrupt);
    assert(bridge_after(start, kinds.take(i)).escalated);
}

/// The first interrupt-class signal is not lost, however quickly a
/// second follows: immediately after the first interrupt of a delivery
/// sequence, a wake-up is pending on the notification.
pub proof fn lemma_first_interrupt_not_lost(flag: NotifyFlag, kinds: Seq<SignalKind>, i: int)
    requires
        0 <= i < kinds.len(),
        kinds[i] is Interrupt,
        forall|j: int| 0 <= j < i ==> !((#[trigger] kinds[j]) is Interrupt),
    ensures
        pair_after(SignalBridge::spec_new(), flag, kinds.take(i + 1)).1.pending,
{
    let start = SignalBridge::spec_new();
    assert(kinds.take(i + 1) =~= kinds.take(i).push(kinds[i]));
    lemma_pair_after_push(start, flag, kinds.take(i), kinds[i]);
    lemma_pair_bridge(start, flag, kinds.take(i));
    lemma_escalation_flag(start, kinds.take(i));
    assert(!bridge_after(start, kinds.take(i)).escalated) by {
        if exists|j: int| 0 <= j < kinds.take(i).len() && kinds.take(i)[j] is Interrupt {
            let j = choose|j: int| 0 <= j < kinds.take(i).len() && kinds.take(i)[j] is Interrupt;
            assert(kinds[j] is Interrupt);
        }
    }
}

} // verus!
