//! Shutdown-notification accounting.
//!
//! The harness wakes its lifecycle thread from signal-delivery context
//! through a process-wide one-shot-per-cycle condition.  The condition
//! itself must be built from operations that are safe under
//! asynchronous interruption (the embedding executable pairs this type
//! with such a carrier, e.g. a mutex-guarded flag and a condition
//! variable); what is verified here is the wake-up accounting: any
//! number of notifications posted before a wait collapse into a single
//! pending wake-up, a wait consumes that wake-up, and a later wait sees
//! nothing until a fresh notification is posted.

use vstd::prelude::*;

verus! {

/// Pending-wake-up state of the shutdown notification condition.
///
/// `pending` is true exactly when at least one notification has been
/// posted since the last consumed wake-up.
pub struct NotifyFlag {
    pub pending: bool,
}

impl NotifyFlag {
    /// State of a freshly constructed condition: no wake-up pending.
    pub open spec fn spec_new() -> NotifyFlag {
        NotifyFlag { pending: false }
    }

    /// What [`notify`](NotifyFlag::notify) leaves behind.
    pub open spec fn spec_notify(self) -> NotifyFlag {
        NotifyFlag { pending: true }
    }

    /// What [`take_wake`](NotifyFlag::take_wake) returns and leaves
    /// behind: the pending wake-up, if any, is consumed.
    pub open spec fn spec_take(self) -> (bool, NotifyFlag) {
        (self.pending, NotifyFlag { pending: false })
    }

    /// State after `n` successive notifications.
    pub open spec fn notified_n(self, n: nat) -> NotifyFlag
        decreases n,
    {
        if n == 0 {
            self
        } else {
            self.notified_n((n - 1) as nat).spec_notify()
        }
    }

    pub fn new() -> (flag: NotifyFlag)
        ensures
            flag == NotifyFlag::spec_new(),
    {
        NotifyFlag { pending: false }
    }

    /// Post a wake-up.  Idempotent: repeated notifications before a
    /// wait collapse into one pending wake-up.
    pub fn notify(&mut self)
        ensures
            *final(self) == old(self).spec_notify(),
            final(self).pending,
    {
        self.pending = true;
    }

    /// Consume the pending wake-up, if there is one.
    ///
    /// A blocked wait completes exactly when this returns true; a wait
    /// begun afterwards finds the flag clear again.
    pub fn take_wake(&mut self) -> (woke: bool)
        ensures
            woke == old(self).pending,
            !final(self).pending,
            (woke, *final(self)) == old(self).spec_take(),
    {
        let woke = self.pending;
        self.pending = false;
        woke
    }
}

/// Notifications collapse: from any state, `n >= 1` notifications
/// leave exactly one pending wake-up.
pub proof fn lemma_notify_collapse(s: NotifyFlag, n: nat)
    requires
        n >= 1,
    ensures
        s.notified_n(n) == (NotifyFlag { pending: true }),
    decreases n,
{
    if n > 1 {
        lemma_notify_collapse(s, (n - 1) as nat);
    }
}

/// One-shot-per-cycle wake-up: `n >= 1` notifications posted before a
/// single wait produce exactly one wake-up of that wait; a second wait
/// begun after the cycle sees no wake-up until a fresh notification is
/// posted, after which it wakes once again.
pub proof fn lemma_single_wakeup(s: NotifyFlag, n: nat)
    requires
        n >= 1,
    ensures
        ({
            let after_notifies = s.notified_n(n);
            let (first_wake, after_first) = after_notifies.spec_take();
            let (second_wake, after_second) = after_first.spec_take();
            let (fresh_wake, _) = after_second.spec_notify().spec_take();
            first_wake && !second_wake && fresh_wake
        }),
{
    lemma_notify_collapse(s, n);
}

} // verus!
