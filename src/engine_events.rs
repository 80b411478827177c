use vstd::prelude::*;

verus! {

/// What one non-blocking poll of the engine's event queue returns.
#[derive(Clone, Debug)]
pub enum EngineEvent {
    /// Nothing is pending: the drain ends here.
    Empty,
    /// A log message, forwarded to the log output.
    LogMessage { level: String, text: String },
    /// An event kind the loop does not handle, by its engine id.
    Other { id: u32 },
}

/// What the loop does with a polled event.
#[derive(Clone, Copy, Debug, PartialEq, Eq, Structural)]
pub enum DrainStep {
    Stop,
    Log,
    Ignore,
}

/// The step that each kind of polled event calls for.
pub open spec fn step_for(e: EngineEvent) -> DrainStep {
    match e {
        EngineEvent::Empty => DrainStep::Stop,
        EngineEvent::LogMessage { .. } => DrainStep::Log,
        EngineEvent::Other { .. } => DrainStep::Ignore,
    }
}

/// No queued entry is the sentinel: the sentinel only stands for "empty".
pub open spec fn no_sentinel(s: Seq<EngineEvent>) -> bool {
    forall|i: int| 0 <= i < s.len() ==> !(#[trigger] s[i] is Empty)
}

impl EngineEvent {
    /// The sentinel ends the drain, log messages are printed, the rest is
    /// ignored.
    pub fn drain_step(&self) -> (r: DrainStep)
        ensures
            r == step_for(*self),
    {
        match self {
            EngineEvent::Empty => DrainStep::Stop,
            EngineEvent::LogMessage { .. } => DrainStep::Log,
            EngineEvent::Other { .. } => DrainStep::Ignore,
        }
    }
}

/// A model of the engine's pending-event queue, oldest first, with the
/// non-blocking poll and the drain that the loop performs on it. The player
/// polls the engine itself and decides on each event with
/// `EngineEvent::drain_step`; this type states, and lets tests run, what a
/// drain returns for a given queue.
pub struct EventQueue {
    pending: Vec<EngineEvent>,
}

impl View for EventQueue {
    type V = Seq<EngineEvent>;

    closed spec fn view(&self) -> Seq<EngineEvent> {
        self.pending@
    }
}

impl EventQueue {
    /// Only events are queued, never the sentinel.
    pub open spec fn wf(&self) -> bool {
        no_sentinel(self@)
    }

    pub fn new() -> (r: EventQueue)
        ensures
            r@ == Seq::<EngineEvent>::empty(),
            r.wf(),
    {
        EventQueue { pending: Vec::new() }
    }

    pub fn len(&self) -> (r: usize)
        ensures
            r == self@.len(),
    {
        self.pending.len()
    }

    /// Queues an event; the sentinel is not an event and leaves the queue as
    /// it was.
    pub fn push(&mut self, e: EngineEvent)
        requires
            old(self).wf(),
        ensures
            final(self).wf(),
            final(self)@ == (if e is Empty { old(self)@ } else { old(self)@.push(e) }),
    {
        if !matches!(e, EngineEvent::Empty) {
            self.pending.push(e);
        }
    }

    /// Takes the oldest pending event without waiting, or returns the
    /// sentinel when nothing is pending.
    pub fn poll(&mut self) -> (r: EngineEvent)
        requires
            old(self).wf(),
        ensures
            final(self).wf(),
            old(self)@.len() == 0 ==> r is Empty && final(self)@ == old(self)@,
            old(self)@.len() > 0 ==> r == old(self)@[0] && final(self)@ == old(self)@.drop_first(),
            old(self)@.len() > 0 ==> !(r is Empty),
    {
        if self.pending.len() == 0 {
            EngineEvent::Empty
        } else {
            let r = self.pending.remove(0);
            proof {
                assert(self.pending@ =~= old(self)@.drop_first());
            }
            r
        }
    }

    /// Polls until the sentinel comes back: returns every pending event in
    /// order, then the sentinel, and leaves the queue empty.
    pub fn drain(&mut self) -> (r: Vec<EngineEvent>)
        requires
            old(self).wf(),
        ensures
            final(self).wf(),
            r@ == old(self)@.push(EngineEvent::Empty),
            final(self)@.len() == 0,
    {
        let ghost start = self@;
        let mut r: Vec<EngineEvent> = Vec::new();
        loop
            invariant
                start == old(self)@,
                start == r@ + self@,
                self.wf(),
            decreases self@.len(),
        {
            let ghost before = self@;
            let e = self.poll();
            if matches!(e, EngineEvent::Empty) {
                proof {
                    assert(r@ =~= start);
                    assert(e == EngineEvent::Empty);
                }
                r.push(e);
                return r;
            }
            r.push(e);
            proof {
                assert(start =~= r@ + self@) by {
                    assert(before =~= seq![e] + self@);
                }
            }
        }
    }
}

} // verus!
