//! The connection slot: process-wide shared state holding at most one usable
//! outbound request-sending handle.
//!
//! The slot is the single source of truth for "is a peer connected". A live
//! handle is represented here by its generation number: each installation
//! hands out a fresh generation, so a supervising session can tell its own
//! handle from a newer one that replaced it. The handle itself (and the
//! mutual-exclusion lock that serializes callers) lives with the asynchronous
//! runtime outside the library; every transition below takes the slot
//! exclusively and so describes exactly one step of that serialized history.

use vstd::prelude::*;
use crate::error::AppError;

verus! {

/// Seconds a send waits for the peer's response head before the slot is
/// presumed dead.
pub const SEND_TIMEOUT_SECS: u64 = 5;

/// What the transport reported for one forwarding attempt on a populated
/// slot: the response head arrived, the time budget ran out, or the
/// transport failed outright.
#[derive(Clone, Copy, Debug, PartialEq, Eq, Structural)]
pub enum SendOutcome {
    Responded,
    TimedOut,
    Failed,
}

/// One operation of the slot's install/clear history, for stating how
/// presence evolves over any sequence of calls.
#[derive(Clone, Copy, Debug, PartialEq, Eq, Structural)]
pub enum SlotOp {
    Install,
    Clear,
}

/// Presence after one install/clear operation.
pub open spec fn apply_op(present: bool, op: SlotOp) -> bool {
    op is Install
}

/// Presence after a sequence of install/clear operations, applied in order.
pub open spec fn apply_ops(present: bool, ops: Seq<SlotOp>) -> bool
    decreases ops.len(),
{
    if ops.len() == 0 {
        present
    } else {
        apply_ops(apply_op(present, ops[0]), ops.drop_first())
    }
}

/// A conditional clear: empties the slot only when it still holds the given
/// generation, and otherwise leaves it untouched.
pub open spec fn clear_for_model(sender: Option<u64>, generation: u64) -> Option<u64> {
    if sender == Some(generation) {
        None
    } else {
        sender
    }
}

/// Law: over any sequence of `install`/`clear` calls, presence reflects the
/// most recent operation — the slot is populated exactly when the last
/// operation installed a handle.
pub proof fn lemma_presence_reflects_last_op(present: bool, ops: Seq<SlotOp>)
    ensures
        apply_ops(present, ops) == if ops.len() == 0 {
            present
        } else {
            (ops.last() is Install)
        },
    decreases ops.len(),
{
    if ops.len() > 0 {
        lemma_presence_reflects_last_op(apply_op(present, ops[0]), ops.drop_first());
        if ops.len() > 1 {
            assert(ops.drop_first().last() == ops.last());
        }
    }
}

/// Law: clearing is idempotent — a clear after a clear changes nothing, so
/// re-clearing an already-empty slot is a no-op.
pub proof fn lemma_clear_idempotent(present: bool)
    ensures
        apply_op(apply_op(present, SlotOp::Clear), SlotOp::Clear) == apply_op(
            present,
            SlotOp::Clear,
        ),
{
}

/// Law: a session's conditional clear removes its own handle exactly once —
/// a second application changes nothing — and never disturbs a different
/// (newer) handle.
pub proof fn lemma_clear_for_exactly_once(sender: Option<u64>, generation: u64)
    ensures
        clear_for_model(clear_for_model(sender, generation), generation) == clear_for_model(
            sender,
            generation,
        ),
        forall|other: u64|
            sender == Some(other) && other != generation ==> clear_for_model(sender, generation)
                == Some(other),
{
}

/// Application state managing the shared connection to the service module.
///
/// At most one handle generation is live at a time; `installed` counts the
/// generations ever handed out, so every live generation is below it and a
/// fresh installation can never collide with an older one.
pub struct AppState {
    sender: Option<u64>,
    installed: u64,
}

impl AppState {
    /// The generation of the installed handle, if one is present.
    pub closed spec fn sender_generation(&self) -> Option<u64> {
        self.sender
    }

    /// How many handle generations have ever been handed out.
    pub closed spec fn generations(&self) -> u64 {
        self.installed
    }

    /// Well-formedness: a live generation was actually handed out.
    pub open spec fn wf(&self) -> bool {
        match self.sender_generation() {
            Some(g) => g < self.generations(),
            None => true,
        }
    }

    /// Whether the slot currently holds a handle.
    pub open spec fn is_present(&self) -> bool {
        self.sender_generation() is Some
    }

    /// A slot that starts empty and has handed out no generations.
    pub fn new() -> (s: Self)
        ensures
            s.wf(),
            !s.is_present(),
            s.generations() == 0,
    {
        AppState { sender: None, installed: 0 }
    }

    /// Installs a fresh handle generation, replacing any handle already
    /// present: the returned generation is the new single live one, and it is
    /// strictly newer than whatever it replaced.
    pub fn set_sender(&mut self) -> (g: u64)
        requires
            old(self).wf(),
            old(self).generations() < u64::MAX,
        ensures
            final(self).wf(),
            final(self).sender_generation() == Some(g),
            g == old(self).generations(),
            final(self).generations() == old(self).generations() + 1,
            forall|h: u64| old(self).sender_generation() == Some(h) ==> h < g,
    {
        let g = self.installed;
        self.sender = Some(g);
        self.installed = g + 1;
        g
    }

    /// How many handle generations have been handed out so far.
    pub fn generation_count(&self) -> (n: u64)
        ensures
            n == self.generations(),
    {
        self.installed
    }

    /// Empties the slot. Idempotent: clearing an already-empty slot is a
    /// no-op, not an error.
    pub fn clear_sender(&mut self)
        requires
            old(self).wf(),
        ensures
            final(self).wf(),
            !final(self).is_present(),
            final(self).generations() == old(self).generations(),
    {
        self.sender = None;
    }

    /// Empties the slot only if it still holds the given generation; a newer
    /// session's handle is left intact.
    pub fn clear_sender_for(&mut self, generation: u64)
        requires
            old(self).wf(),
        ensures
            final(self).wf(),
            final(self).sender_generation() == clear_for_model(
                old(self).sender_generation(),
                generation,
            ),
            final(self).generations() == old(self).generations(),
    {
        if let Some(g) = self.sender {
            if g == generation {
                self.sender = None;
            }
        }
    }

    /// Non-blocking presence check.
    pub fn has_sender(&self) -> (b: bool)
        ensures
            b == self.is_present(),
    {
        self.sender.is_some()
    }

    /// Admission decision for one forwarding attempt: on an empty slot the
    /// send fails immediately with `NoConnection`; on a populated slot it
    /// names the handle generation the attempt must use. Never blocks and
    /// never changes the slot.
    pub fn send_request(&self) -> (r: Result<u64, AppError>)
        ensures
            !self.is_present() ==> r == Err::<u64, AppError>(AppError::NoConnection),
            forall|g: u64| self.sender_generation() == Some(g) ==> r == Ok::<u64, AppError>(g),
    {
        match self.sender {
            Some(g) => Ok(g),
            None => Err(AppError::NoConnection),
        }
    }

    /// Classifies the transport's outcome for an attempt admitted by
    /// `send_request` and updates the slot: a response leaves the slot as it
    /// was; running out of the time budget presumes the channel dead, so the
    /// slot is emptied and the attempt fails with `Timeout`; a transport
    /// failure fails the attempt with `TransportError` and leaves the handle
    /// in place.
    pub fn complete_send(&mut self, outcome: SendOutcome) -> (r: Result<(), AppError>)
        requires
            old(self).wf(),
        ensures
            final(self).wf(),
            final(self).generations() == old(self).generations(),
            outcome is Responded ==> r == Ok::<(), AppError>(())
                && final(self).sender_generation() == old(self).sender_generation(),
            outcome is TimedOut ==> r == Err::<(), AppError>(AppError::Timeout)
                && !final(self).is_present(),
            outcome is Failed ==> r == Err::<(), AppError>(AppError::TransportError)
                && final(self).sender_generation() == old(self).sender_generation(),
    {
        match outcome {
            SendOutcome::Responded => Ok(()),
            SendOutcome::TimedOut => {
                self.sender = None;
                Err(AppError::Timeout)
            },
            SendOutcome::Failed => Err(AppError::TransportError),
        }
    }
}

} // verus!
