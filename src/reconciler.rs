use vstd::prelude::*;
use crate::frame::{surface_target, FrameTarget};

verus! {

/// Life of the engine's render context: created before the loop starts,
/// destroyed once at shutdown, never back.
#[derive(Clone, Copy, Debug, PartialEq, Eq, Structural)]
pub enum ContextStatus {
    Created,
    Destroyed,
}

/// Life of the engine handle: running until shutdown, then destroyed once.
#[derive(Clone, Copy, Debug, PartialEq, Eq, Structural)]
pub enum EngineStatus {
    Running,
    Destroyed,
}

/// What the control loop reacts to: the window's events, the two signals that
/// the engine's callbacks enqueue, the overlay's quit control, and the moment
/// the loop runs out of pending signals (with the surface's current size).
#[derive(Clone, Copy, Debug, PartialEq, Eq, Structural)]
pub enum LoopEvent {
    CloseRequested,
    WindowInput,
    RenderReady,
    EngineEventsPending,
    QuitActivated,
    SurfaceExposed,
    Idle { width: i32, height: i32 },
}

/// What the loop asks its surroundings to do, in order.
#[derive(Clone, Copy, Debug, PartialEq, Eq, Structural)]
pub enum Action {
    /// Hand the window event to the overlay's hit-testing.
    ForwardInput,
    /// Tell the render context that its update signal was consumed.
    AcknowledgeUpdate,
    /// Poll the engine's event queue until it is empty.
    DrainEngineEvents,
    /// Draw the current video frame into the described framebuffer.
    Render(FrameTarget),
    /// Draw the overlay on top of the video frame.
    DrawOverlay,
    /// Switch off sRGB conversion and blending left on by the overlay.
    ResetGpuState,
    /// Swap the surface's buffers.
    Present,
    DestroyRenderContext,
    DestroyEngine,
    /// Stop the loop.
    Exit,
}

/// State of the single-threaded control loop.
#[derive(Clone, Copy, Debug, PartialEq, Eq, Structural)]
pub struct Reconciler {
    pub render_context: ContextStatus,
    pub engine: EngineStatus,
    /// A redraw was asked for and has not happened yet.
    pub redraw_pending: bool,
    pub exited: bool,
}

/// The actions of a redraw, in the order in which they must run.
pub open spec fn redraw_actions(width: i32, height: i32) -> Seq<Action> {
    seq![Action::Render(surface_target(width, height)), Action::DrawOverlay, Action::ResetGpuState, Action::Present]
}

/// Shutdown: the render context goes first, then the engine, each only if it
/// is still alive.
pub open spec fn teardown_actions(s: Reconciler) -> Seq<Action> {
    (if s.render_context == ContextStatus::Created { seq![Action::DestroyRenderContext] } else { seq![] })
        + (if s.engine == EngineStatus::Running { seq![Action::DestroyEngine] } else { seq![] })
        + seq![Action::Exit]
}

/// One transition of the loop: the next state and the actions to perform.
/// After exit every event is discarded.
pub open spec fn next(s: Reconciler, e: LoopEvent) -> (Reconciler, Seq<Action>) {
    if s.exited {
        (s, seq![])
    } else {
        match e {
            LoopEvent::CloseRequested | LoopEvent::QuitActivated => (
                Reconciler {
                    render_context: ContextStatus::Destroyed,
                    engine: EngineStatus::Destroyed,
                    redraw_pending: false,
                    exited: true,
                },
                teardown_actions(s),
            ),
            LoopEvent::WindowInput => (
                Reconciler { redraw_pending: true, ..s },
                seq![Action::ForwardInput],
            ),
            LoopEvent::SurfaceExposed => (Reconciler { redraw_pending: true, ..s }, seq![]),
            LoopEvent::RenderReady => if s.render_context == ContextStatus::Created {
                (Reconciler { redraw_pending: true, ..s }, seq![Action::AcknowledgeUpdate])
            } else {
                (s, seq![])
            },
            LoopEvent::EngineEventsPending => if s.engine == EngineStatus::Running {
                (s, seq![Action::DrainEngineEvents])
            } else {
                (s, seq![])
            },
            LoopEvent::Idle { width, height } => if s.redraw_pending && s.render_context
                == ContextStatus::Created {
                (Reconciler { redraw_pending: false, ..s }, redraw_actions(width, height))
            } else {
                (s, seq![])
            },
        }
    }
}

/// The state reached and the actions asked for, over a sequence of events
/// handled in order.
pub open spec fn run(s: Reconciler, events: Seq<LoopEvent>) -> (Reconciler, Seq<Action>)
    decreases events.len(),
{
    if events.len() == 0 {
        (s, seq![])
    } else {
        let before = run(s, events.drop_last());
        let step = next(before.0, events.last());
        (step.0, before.1 + step.1)
    }
}

impl Reconciler {
    /// Both handles are alive exactly while the loop has not exited.
    pub open spec fn wf(&self) -> bool {
        &&& (self.render_context == ContextStatus::Destroyed) == self.exited
        &&& (self.engine == EngineStatus::Destroyed) == self.exited
        &&& self.exited ==> !self.redraw_pending
    }

    /// The loop's state once the engine is initialized and the render context
    /// created; a first redraw is pending, so the surface is drawn before any
    /// media frame arrives.
    pub fn new() -> (r: Reconciler)
        ensures
            r.wf(),
            r == (Reconciler {
                render_context: ContextStatus::Created,
                engine: EngineStatus::Running,
                redraw_pending: true,
                exited: false,
            }),
    {
        Reconciler {
            render_context: ContextStatus::Created,
            engine: EngineStatus::Running,
            redraw_pending: true,
            exited: false,
        }
    }

    /// Handles one event and returns the actions to perform, in order.
    pub fn step(&mut self, e: LoopEvent) -> (r: Vec<Action>)
        ensures
            (*final(self), r@) == next(*old(self), e),
            old(self).wf() ==> final(self).wf(),
    {
        if self.exited {
            return Vec::new();
        }
        match e {
            LoopEvent::CloseRequested | LoopEvent::QuitActivated => {
                let mut r: Vec<Action> = Vec::new();
                if self.render_context == ContextStatus::Created {
                    r.push(Action::DestroyRenderContext);
                }
                if self.engine == EngineStatus::Running {
                    r.push(Action::DestroyEngine);
                }
                r.push(Action::Exit);
                self.render_context = ContextStatus::Destroyed;
                self.engine = EngineStatus::Destroyed;
                self.redraw_pending = false;
                self.exited = true;
                proof {
                    assert(r@ =~= teardown_actions(*old(self)));
                }
                r
            },
            LoopEvent::WindowInput => {
                self.redraw_pending = true;
                vec![Action::ForwardInput]
            },
            LoopEvent::SurfaceExposed => {
                self.redraw_pending = true;
                Vec::new()
            },
            LoopEvent::RenderReady => {
                if self.render_context == ContextStatus::Created {
                    self.redraw_pending = true;
                    vec![Action::AcknowledgeUpdate]
                } else {
                    Vec::new()
                }
            },
            LoopEvent::EngineEventsPending => {
                if self.engine == EngineStatus::Running {
                    vec![Action::DrainEngineEvents]
                } else {
                    Vec::new()
                }
            },
            LoopEvent::Idle { width, height } => {
                if self.redraw_pending && self.render_context == ContextStatus::Created {
                    self.redraw_pending = false;
                    let r = vec![
                        Action::Render(FrameTarget::for_surface(width, height)),
                        Action::DrawOverlay,
                        Action::ResetGpuState,
                        Action::Present,
                    ];
                    proof {
                        assert(r@ =~= redraw_actions(width, height));
                    }
                    r
                } else {
                    Vec::new()
                }
            },
        }
    }

    /// Handles the events in order and returns all the actions asked for.
    pub fn step_all(&mut self, events: &Vec<LoopEvent>) -> (r: Vec<Action>)
        ensures
            (*final(self), r@) == run(*old(self), events@),
    {
        let mut r: Vec<Action> = Vec::new();
        let mut i: usize = 0;
        while i < events.len()
            invariant
                i <= events@.len(),
                (*self, r@) == run(*old(self), events@.take(i as int)),
            decreases events@.len() - i,
        {
            let acts = self.step(events[i]);
            proof {
                assert(events@.take(i as int + 1).drop_last() =~= events@.take(i as int));
            }
            let mut k: usize = 0;
            let ghost r0 = r@;
            while k < acts.len()
                invariant
                    k <= acts@.len(),
                    r@ == r0 + acts@.take(k as int),
                decreases acts@.len() - k,
            {
                r.push(acts[k]);
                k = k + 1;
                proof {
                    assert(r@ =~= r0 + acts@.take(k as int));
                }
            }
            proof {
                assert(acts@.take(acts@.len() as int) =~= acts@);
            }
            i = i + 1;
        }
        proof {
            assert(events@.take(events@.len() as int) =~= events@);
        }
        r
    }
}

} // verus!
