use vstd::prelude::*;

verus! {

/// What a listener finds when it checks for cancellation without waiting.
#[derive(PartialEq, Eq, Structural, Clone, Copy, Debug)]
pub enum PollStatus {
    /// A cancellation was sent after the listener last looked.
    Signalled,
    /// The broadcaster was torn down.
    Closed,
    /// Nothing new.
    Empty,
}

/// Whether a poll result ends the call: a signal or a torn-down broadcaster
/// both count as a cancellation.
pub open spec fn means_cancel(p: PollStatus) -> bool {
    p != PollStatus::Empty
}

/// Whether a poll result ends the call.
pub fn is_cancellation(p: PollStatus) -> (r: bool)
    ensures
        r == means_cancel(p),
{
    p != PollStatus::Empty
}

/// Process-wide fan-out of cancellation requests. It counts the signals sent;
/// each listener remembers how many it has seen, so a listener that missed
/// several signals still sees one when it next looks.
pub struct CancelBroadcaster {
    pub sent: u64,
    pub closed: bool,
}

/// One call's view of the broadcaster.
pub struct CancelListener {
    pub seen: u64,
}

/// The listener a subscription hands out: it has seen every signal sent so far.
pub open spec fn subscribed(b: CancelBroadcaster) -> CancelListener {
    CancelListener { seen: b.sent }
}

/// What a poll of `l` against `b` finds.
pub open spec fn poll_status(l: CancelListener, b: CancelBroadcaster) -> PollStatus {
    if l.seen < b.sent {
        PollStatus::Signalled
    } else if b.closed {
        PollStatus::Closed
    } else {
        PollStatus::Empty
    }
}

impl CancelBroadcaster {
    /// A live broadcaster that has sent nothing.
    pub fn new() -> (r: CancelBroadcaster)
        ensures
            r.sent == 0,
            !r.closed,
    {
        CancelBroadcaster { sent: 0, closed: false }
    }

    /// Asks every live listener to cancel. With no listener it does nothing
    /// else. The count stops at its largest value.
    pub fn emit_cancel(&mut self)
        ensures
            final(self).closed == old(self).closed,
            final(self).sent == if old(self).sent < u64::MAX {
                (old(self).sent + 1) as u64
            } else {
                old(self).sent
            },
    {
        if self.sent < u64::MAX {
            self.sent = self.sent + 1;
        }
    }

    /// Tears the broadcaster down: every listener then finds it closed.
    pub fn close(&mut self)
        ensures
            final(self).closed,
            final(self).sent == old(self).sent,
    {
        self.closed = true;
    }

    /// A fresh listener, which sees only the signals sent from now on.
    pub fn subscribe(&self) -> (r: CancelListener)
        ensures
            r == subscribed(*self),
    {
        CancelListener { seen: self.sent }
    }
}

impl CancelListener {
    /// Checks for cancellation without waiting; a signal found is consumed.
    pub fn poll(&mut self, b: &CancelBroadcaster) -> (r: PollStatus)
        ensures
            r == poll_status(*old(self), *b),
            final(self).seen == if old(self).seen < b.sent { b.sent } else { old(self).seen },
    {
        if self.seen < b.sent {
            self.seen = b.sent;
            PollStatus::Signalled
        } else if b.closed {
            PollStatus::Closed
        } else {
            PollStatus::Empty
        }
    }
}

/// Subscribing after cancellations were sent does not signal the new
/// listener: until another is sent, a live broadcaster reports nothing to it.
pub proof fn lemma_fresh_listener_sees_no_past_cancel(b: CancelBroadcaster)
    requires
        !b.closed,
    ensures
        poll_status(subscribed(b), b) == PollStatus::Empty,
{
}

/// A listener that has fallen behind by any number of signals sees a
/// cancellation, never nothing.
pub proof fn lemma_missed_signals_still_cancel(l: CancelListener, b: CancelBroadcaster)
    requires
        l.seen < b.sent,
    ensures
        means_cancel(poll_status(l, b)),
{
}

} // verus!
