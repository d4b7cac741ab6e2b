//! Lifecycle of a continuous-watch handle.
//!
//! A watch handle owns exactly one live native subscription, named by the
//! identifier the native layer returned, together with the two captured
//! callbacks the native layer will keep invoking. The handle is either
//! active — subscription live, callbacks still owned by the native layer —
//! or inactive — subscription cleared, callbacks released — and moves from
//! active to inactive exactly once; it is never partially torn down, since
//! the whole subscription is held as one optional value.
//!
//! Clearing the subscription is native work. Cancellation therefore returns
//! a [`ClearWatch`] action naming the subscription to clear; the host glue
//! performs it and releases the callbacks. Cancelling an already inactive
//! handle is a programming error: [`WatchPositionTask::cancel`] excludes it
//! by precondition, and [`WatchPositionTask::try_cancel`] reports it as a
//! deterministic failure for callers that must fail loudly at run time.

use vstd::prelude::*;

verus! {

/// The native action that tears a subscription down: clear the watch with
/// this identifier and release both captured callbacks.
#[derive(Clone, Copy, Debug, PartialEq, Eq, Structural)]
pub struct ClearWatch {
    pub watch_id: u64,
}

/// Why a cancellation attempt was refused.
#[derive(Clone, Copy, Debug, PartialEq, Eq, Structural)]
pub enum CancelError {
    /// The handle was cancelled before: there is no subscription left to
    /// clear, and clearing twice would double-release the callbacks.
    AlreadyCancelled,
}

/// A handle to one continuous position subscription.
#[derive(Debug)]
pub struct WatchPositionTask {
    subscription: Option<u64>,
}

impl WatchPositionTask {
    /// The handle still owns a live subscription.
    pub closed spec fn spec_is_active(self) -> bool {
        self.subscription is Some
    }

    /// The identifier of the owned subscription, while one is owned.
    pub closed spec fn spec_watch_id(self) -> u64 {
        self.subscription->Some_0
    }

    /// The state an attempted cancellation leaves the handle in, paired
    /// with its result: an active handle gives up its subscription and
    /// yields the clearing action; an inactive one is left unchanged and
    /// the attempt fails.
    pub closed spec fn spec_try_cancel(self) -> (WatchPositionTask, Result<
        ClearWatch,
        CancelError,
    >) {
        if self.spec_is_active() {
            (
                WatchPositionTask { subscription: None },
                Ok(ClearWatch { watch_id: self.spec_watch_id() }),
            )
        } else {
            (self, Err(CancelError::AlreadyCancelled))
        }
    }

    /// Adopt the subscription the native layer just created. The handle
    /// starts out active and owns that subscription alone.
    pub fn new(watch_id: u64) -> (t: Self)
        ensures
            t.spec_is_active(),
            t.spec_watch_id() == watch_id,
    {
        WatchPositionTask { subscription: Some(watch_id) }
    }

    /// Whether the handle still owns a live subscription.
    pub fn is_active(&self) -> (r: bool)
        ensures
            r == self.spec_is_active(),
    {
        self.subscription.is_some()
    }

    /// The identifier of the owned subscription.
    pub fn watch_id(&self) -> (id: u64)
        requires
            self.spec_is_active(),
        ensures
            id == self.spec_watch_id(),
    {
        match self.subscription {
            Some(id) => id,
            None => 0,
        }
    }

    /// Cancel the watch: the handle becomes inactive and hands back the
    /// action that clears its subscription and releases both callbacks.
    /// Calling this on an inactive handle is a programming error, excluded
    /// here by precondition; a caller that cannot rule it out statically
    /// goes through [`Self::try_cancel`] and fails loudly on its error.
    pub fn cancel(&mut self) -> (act: ClearWatch)
        requires
            old(self).spec_is_active(),
        ensures
            !final(self).spec_is_active(),
            act.watch_id == old(self).spec_watch_id(),
    {
        let id = self.watch_id();
        self.subscription = None;
        ClearWatch { watch_id: id }
    }

    /// Attempt to cancel the watch. On an active handle this succeeds and
    /// behaves as [`Self::cancel`]; on an inactive handle it fails
    /// deterministically and changes nothing.
    pub fn try_cancel(&mut self) -> (r: Result<ClearWatch, CancelError>)
        ensures
            (*final(self), r) == old(self).spec_try_cancel(),
            old(self).spec_is_active() ==> r == Ok::<ClearWatch, CancelError>(
                ClearWatch { watch_id: old(self).spec_watch_id() },
            ) && !final(self).spec_is_active(),
            !old(self).spec_is_active() ==> r == Err::<ClearWatch, CancelError>(
                CancelError::AlreadyCancelled,
            ) && *final(self) == *old(self),
    {
        if self.is_active() {
            Ok(self.cancel())
        } else {
            Err(CancelError::AlreadyCancelled)
        }
    }

    /// Give the handle up. An owner that discards a still-active handle
    /// must behave as though it had cancelled it, so releasing an active
    /// handle yields the same clearing action as [`Self::cancel`]; no
    /// subscription outlives its handle. Releasing an inactive handle is
    /// no error and yields nothing to do.
    pub fn release(self) -> (act: Option<ClearWatch>)
        ensures
            self.spec_is_active() ==> act == Some(
                ClearWatch { watch_id: self.spec_watch_id() },
            ),
            !self.spec_is_active() ==> act is None,
    {
        match self.subscription {
            Some(id) => Some(ClearWatch { watch_id: id }),
            None => None,
        }
    }
}

/// Cancelling twice fails deterministically on the second attempt: on any
/// active handle the first cancellation succeeds and leaves the handle
/// inactive, and every further attempt on that handle is refused without
/// changing it.
pub proof fn lemma_second_cancel_fails(t: WatchPositionTask)
    requires
        t.spec_is_active(),
    ensures
        ({
            let (t1, r1) = t.spec_try_cancel();
            let (t2, r2) = t1.spec_try_cancel();
            &&& r1 == Ok::<ClearWatch, CancelError>(ClearWatch { watch_id: t.spec_watch_id() })
            &&& !t1.spec_is_active()
            &&& r2 == Err::<ClearWatch, CancelError>(CancelError::AlreadyCancelled)
            &&& t2 == t1
        }),
{
}

} // verus!
