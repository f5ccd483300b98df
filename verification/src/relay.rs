//! The event relay.
//!
//! The relay drains call-lifecycle events from a bounded queue, one at a
//! time, in arrival order. For each event it renders one line, hands the line
//! to a diagnostic sink (fire-and-forget), and then forwards the same line to
//! a UI stream sink. When the UI sink refuses a line — the UI side has
//! disconnected — the relay stops for good: remaining events are discarded,
//! and the failure is not propagated anywhere.
//!
//! The queue receive, the diagnostic write and the UI forward are performed by
//! the surrounding task; the [`Relay`] here makes every decision and keeps, in
//! ghost state, a transcript of what each sink has received, so that the
//! ordering and cut-off guarantees can be stated and proved.

use vstd::prelude::*;
use crate::event::{format_event, line_of, lines_of, CallEvent};

verus! {

/// The relay's state across one call attempt.
///
/// `events` records the events taken while the relay was active; `diag`
/// records the lines handed to the diagnostic sink and `ui` the lines the UI
/// sink accepted, each in delivery order. A line counts as delivered to the
/// diagnostic sink as soon as [`Relay::take_event`] returns it: that delivery
/// is fire-and-forget, so the caller owes nothing back. The UI forward, on the
/// contrary, has a verdict, reported through [`Relay::forwarded`]; while one
/// is outstanding, `awaiting` is set.
pub struct Relay {
    /// The relay still accepts events; cleared for good by a UI-sink refusal.
    pub active: bool,
    /// A line has been handed out and its UI verdict has not come back yet.
    pub awaiting: bool,
    /// Every event taken so far, in arrival order.
    pub events: Ghost<Seq<CallEvent>>,
    /// The lines handed to the diagnostic sink, in order.
    pub diag: Ghost<Seq<Seq<char>>>,
    /// The lines the UI sink accepted, in order.
    pub ui: Ghost<Seq<Seq<char>>>,
}

impl Relay {
    /// The relay's invariant: the diagnostic sink has received exactly the
    /// lines of the events taken, in order; the UI sink has received a prefix
    /// of that same sequence; the UI sink lags by exactly one line while a
    /// verdict is outstanding, and by none while the relay is active and
    /// caught up; a stopped relay is one whose last handed-out line the UI
    /// refused.
    pub open spec fn wf(self) -> bool {
        &&& self.diag@ == lines_of(self.events@)
        &&& self.ui@.len() <= self.diag@.len()
        &&& self.ui@ == self.diag@.take(self.ui@.len() as int)
        &&& self.awaiting ==> self.active && self.diag@.len() == self.ui@.len() + 1
        &&& self.active && !self.awaiting ==> self.ui@.len() == self.diag@.len()
        &&& !self.active ==> !self.awaiting && self.diag@.len() == self.ui@.len() + 1
    }

    /// A fresh relay for one call attempt: active, caught up, with empty
    /// transcripts — whatever any earlier call attempt's relay did.
    pub fn new() -> (r: Relay)
        ensures
            r.wf(),
            r.active,
            !r.awaiting,
            r.events@ == Seq::<CallEvent>::empty(),
            r.diag@ == Seq::<Seq<char>>::empty(),
            r.ui@ == Seq::<Seq<char>>::empty(),
    {
        let r = Relay {
            active: true,
            awaiting: false,
            events: Ghost(Seq::empty()),
            diag: Ghost(Seq::empty()),
            ui: Ghost(Seq::empty()),
        };
        proof {
            assert(lines_of(r.events@) =~= Seq::<Seq<char>>::empty());
            assert(r.ui@ =~= r.diag@.take(r.ui@.len() as int));
        }
        r
    }

    /// Hand the relay the next event out of the queue.
    ///
    /// An active relay renders the event's line, records it as delivered to
    /// the diagnostic sink, and returns it; the caller must write it to the
    /// diagnostic sink, attempt the UI forward, and report the verdict with
    /// [`Relay::forwarded`] before taking another event. A stopped relay
    /// returns nothing and discards the event: no line reaches either sink
    /// once the UI has refused one.
    pub fn take_event(&mut self, e: &CallEvent) -> (line: Option<String>)
        requires
            old(self).wf(),
            !old(self).awaiting,
        ensures
            final(self).wf(),
            final(self).active == old(self).active,
            final(self).ui == old(self).ui,
            old(self).active ==> {
                &&& line matches Some(l) && l@ == line_of(*e)
                &&& final(self).awaiting
                &&& final(self).events@ == old(self).events@.push(*e)
                &&& final(self).diag@ == old(self).diag@.push(line_of(*e))
            },
            !old(self).active ==> line is None && *final(self) == *old(self),
    {
        if !self.active {
            return None;
        }
        let line = format_event(e);
        self.awaiting = true;
        proof {
            self.events@ = self.events@.push(*e);
            self.diag@ = self.diag@.push(line_of(*e));
            assert(self.diag@ =~= lines_of(self.events@));
            assert(self.ui@ =~= self.diag@.take(self.ui@.len() as int));
        }
        Some(line)
    }

    /// Report the UI sink's verdict on the line last handed out.
    ///
    /// On acceptance the line is recorded as received by the UI sink and the
    /// relay is caught up again; on refusal the relay stops for good — the
    /// refused line stays out of the UI transcript, and the stop is no error:
    /// nothing is propagated.
    pub fn forwarded(&mut self, accepted: bool)
        requires
            old(self).wf(),
            old(self).awaiting,
        ensures
            final(self).wf(),
            !final(self).awaiting,
            final(self).events == old(self).events,
            final(self).diag == old(self).diag,
            accepted ==> {
                &&& final(self).active
                &&& final(self).ui@ == old(self).ui@.push(old(self).diag@.last())
            },
            !accepted ==> !final(self).active && final(self).ui == old(self).ui,
    {
        self.awaiting = false;
        if accepted {
            proof {
                self.ui@ = self.ui@.push(self.diag@.last());
                assert(self.ui@ =~= self.diag@.take(self.ui@.len() as int));
            }
        } else {
            self.active = false;
        }
    }
}

/// Law: the relay preserves emission order. Whatever a well-formed relay has
/// done, the diagnostic sink has received exactly the lines of the events
/// taken, in order; the UI sink has received a prefix of that same sequence;
/// and while every forward has been accepted, the two transcripts coincide.
pub proof fn lemma_relay_preserves_order(r: Relay)
    requires
        r.wf(),
    ensures
        r.diag@ == lines_of(r.events@),
        r.ui@ == lines_of(r.events@).take(r.ui@.len() as int),
        r.active && !r.awaiting ==> r.ui@ == lines_of(r.events@),
{
    if r.active && !r.awaiting {
        assert(r.diag@.take(r.ui@.len() as int) =~= r.diag@);
    }
}

/// Law: a UI-sink refusal cuts the UI stream without losing diagnostic lines.
/// A stopped relay took at least one event, every event it took had its line
/// delivered to the diagnostic sink, and the UI sink received exactly the
/// lines before the refused one. (That no later event reaches either sink is
/// part of [`Relay::take_event`]'s contract: a stopped relay returns nothing
/// and changes nothing.)
pub proof fn lemma_ui_refusal_stops_forwarding(r: Relay)
    requires
        r.wf(),
        !r.active,
    ensures
        r.events@.len() > 0,
        r.diag@ == lines_of(r.events@),
        r.ui@ == lines_of(r.events@).take(r.events@.len() - 1),
{
}

/// Law: call attempts are independent. A relay's transcripts are a function
/// of its own inputs alone — two relays that took the same events and whose
/// UI sinks accepted the same number of lines have identical transcripts — so
/// separate invocations, each starting from [`Relay::new`], cannot influence
/// one another.
pub proof fn lemma_call_attempts_independent(a: Relay, b: Relay)
    requires
        a.wf(),
        b.wf(),
        a.events@ == b.events@,
        a.ui@.len() == b.ui@.len(),
    ensures
        a.diag@ == b.diag@,
        a.ui@ == b.ui@,
{
}

} // verus!
