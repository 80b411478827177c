use vstd::prelude::*;
use crate::reconciler::{next, redraw_actions, run, teardown_actions, Action, ContextStatus, EngineStatus, LoopEvent, Reconciler};

verus! {

/// Once the render context is destroyed, nothing later renders with it,
/// acknowledges an update on it, or destroys it again.
pub open spec fn no_use_after_teardown(t: Seq<Action>) -> bool {
    forall|i: int, j: int|
        0 <= i < j < t.len() && #[trigger] t[i] == Action::DestroyRenderContext ==> {
            &&& !(#[trigger] t[j] is Render)
            &&& t[j] != Action::AcknowledgeUpdate
            &&& t[j] != Action::DestroyRenderContext
        }
}

/// Every video draw is followed at once by the overlay draw, the state reset
/// and the present; every overlay draw and every present belongs to such a
/// group.
pub open spec fn draw_ordered(t: Seq<Action>) -> bool {
    forall|i: int| 0 <= i < t.len() ==> {
        &&& (#[trigger] t[i] is Render ==> i + 3 < t.len() && t[i + 1] == Action::DrawOverlay && t[i + 2]
            == Action::ResetGpuState && t[i + 3] == Action::Present)
        &&& (t[i] == Action::DrawOverlay ==> 1 <= i && t[i - 1] is Render && i + 2 < t.len() && t[i + 2]
            == Action::Present)
        &&& (t[i] == Action::Present ==> 3 <= i && t[i - 3] is Render && t[i - 2] == Action::DrawOverlay)
    }
}

/// How many video draws a sequence of actions holds.
pub open spec fn redraw_count(t: Seq<Action>) -> nat
    decreases t.len(),
{
    if t.len() == 0 {
        0
    } else {
        redraw_count(t.drop_last()) + if t.last() is Render { 1nat } else { 0nat }
    }
}

/// How many times a sequence of events lets the loop go idle.
pub open spec fn idle_count(events: Seq<LoopEvent>) -> nat
    decreases events.len(),
{
    if events.len() == 0 {
        0
    } else {
        idle_count(events.drop_last()) + if events.last() is Idle { 1nat } else { 0nat }
    }
}

proof fn lemma_redraw_count_add(a: Seq<Action>, b: Seq<Action>)
    ensures
        redraw_count(a + b) == redraw_count(a) + redraw_count(b),
    decreases b.len(),
{
    if b.len() > 0 {
        lemma_redraw_count_add(a, b.drop_last());
        assert((a + b).drop_last() =~= a + b.drop_last());
    } else {
        assert(a + b =~= a);
    }
}

/// The actions of one transition, sorted by what they can hold.
proof fn lemma_next_shape(s: Reconciler, e: LoopEvent)
    ensures
        ({
            let (s2, a) = next(s, e);
            ||| a == redraw_actions(e->width, e->height) && e is Idle && s.render_context
                == ContextStatus::Created && s2.render_context == ContextStatus::Created
            ||| a == teardown_actions(s) && s2.render_context == ContextStatus::Destroyed
            ||| a.len() <= 1 && s2.render_context == s.render_context && (forall|k: int|
                0 <= k < a.len() ==> a[k] == Action::ForwardInput || a[k] == Action::DrainEngineEvents
                    || (a[k] == Action::AcknowledgeUpdate && s.render_context == ContextStatus::Created))
        }),
{
}

proof fn lemma_next_keeps_teardown(s: Reconciler, e: LoopEvent)
    ensures
        ({
            let (s2, a) = next(s, e);
            &&& no_use_after_teardown(a)
            &&& (exists|i: int| 0 <= i < a.len() && a[i] == Action::DestroyRenderContext) ==> s2.render_context
                == ContextStatus::Destroyed
            &&& s.render_context == ContextStatus::Destroyed ==> s2.render_context == ContextStatus::Destroyed
                && forall|k: int|
                0 <= k < a.len() ==> !(#[trigger] a[k] is Render) && a[k] != Action::AcknowledgeUpdate && a[k]
                    != Action::DestroyRenderContext
        }),
{
    lemma_next_shape(s, e);
    let a = next(s, e).1;
    if e is Idle && a == redraw_actions(e->width, e->height) {
        assert(a[0] is Render);
    }
}

/// For every starting state and every sequence of events, the render context
/// is never rendered with, acknowledged or destroyed again after it has been
/// destroyed.
pub proof fn lemma_no_use_after_teardown(s: Reconciler, events: Seq<LoopEvent>)
    ensures
        no_use_after_teardown(run(s, events).1),
        (exists|i: int| 0 <= i < run(s, events).1.len() && run(s, events).1[i] == Action::DestroyRenderContext)
            ==> run(s, events).0.render_context == ContextStatus::Destroyed,
    decreases events.len(),
{
    if events.len() > 0 {
        let before = run(s, events.drop_last());
        lemma_no_use_after_teardown(s, events.drop_last());
        let (s1, t1) = before;
        let (s2, a) = next(s1, events.last());
        lemma_next_keeps_teardown(s1, events.last());
        let t = t1 + a;
        assert(run(s, events).1 == t);
        assert forall|i: int, j: int|
            0 <= i < j < t.len() && #[trigger] t[i] == Action::DestroyRenderContext implies {
                &&& !(#[trigger] t[j] is Render)
                &&& t[j] != Action::AcknowledgeUpdate
                &&& t[j] != Action::DestroyRenderContext
            } by {
            if j < t1.len() {
                assert(t1[i] == t[i] && t1[j] == t[j]);
            } else if i < t1.len() {
                assert(t1[i] == t[i]);
                assert(a[j - t1.len()] == t[j]);
            } else {
                assert(a[i - t1.len()] == t[i]);
                assert(a[j - t1.len()] == t[j]);
            }
        }
        if exists|i: int| 0 <= i < t.len() && t[i] == Action::DestroyRenderContext {
            let i = choose|i: int| 0 <= i < t.len() && t[i] == Action::DestroyRenderContext;
            if i < t1.len() {
                assert(t1[i] == t[i]);
            } else {
                assert(a[i - t1.len()] == t[i]);
            }
        }
    }
}

proof fn lemma_draw_ordered_add(a: Seq<Action>, b: Seq<Action>)
    requires
        draw_ordered(a),
        draw_ordered(b),
    ensures
        draw_ordered(a + b),
{
    let t = a + b;
    assert forall|i: int| 0 <= i < t.len() implies {
        &&& (#[trigger] t[i] is Render ==> i + 3 < t.len() && t[i + 1] == Action::DrawOverlay && t[i + 2]
            == Action::ResetGpuState && t[i + 3] == Action::Present)
        &&& (t[i] == Action::DrawOverlay ==> 1 <= i && t[i - 1] is Render && i + 2 < t.len() && t[i + 2]
            == Action::Present)
        &&& (t[i] == Action::Present ==> 3 <= i && t[i - 3] is Render && t[i - 2] == Action::DrawOverlay)
    } by {
        if i < a.len() {
            assert(a[i] == t[i]);
        } else {
            assert(b[i - a.len()] == t[i]);
        }
    }
}

/// Over any sequence of events, each redraw draws the video frame, then the
/// overlay, then resets the GPU state, then presents, with nothing between.
pub proof fn lemma_draw_order(s: Reconciler, events: Seq<LoopEvent>)
    ensures
        draw_ordered(run(s, events).1),
    decreases events.len(),
{
    if events.len() > 0 {
        lemma_draw_order(s, events.drop_last());
        let (s1, t1) = run(s, events.drop_last());
        let e = events.last();
        lemma_next_shape(s1, e);
        let a = next(s1, e).1;
        if e is Idle && a == redraw_actions(e->width, e->height) {
            assert(a[0] is Render);
            assert(draw_ordered(a));
        } else if a == teardown_actions(s1) {
            assert forall|k: int| 0 <= k < a.len() implies !(#[trigger] a[k] is Render) && a[k]
                != Action::DrawOverlay && a[k] != Action::Present by {
                assert(a[k] == Action::DestroyRenderContext || a[k] == Action::DestroyEngine || a[k]
                    == Action::Exit);
            }
        }
        lemma_draw_ordered_add(t1, a);
    }
}

/// However many signals arrive between two idle moments, the loop redraws at
/// most once per idle moment.
pub proof fn lemma_redraws_coalesce(s: Reconciler, events: Seq<LoopEvent>)
    ensures
        redraw_count(run(s, events).1) <= idle_count(events),
    decreases events.len(),
{
    if events.len() > 0 {
        lemma_redraws_coalesce(s, events.drop_last());
        let (s1, t1) = run(s, events.drop_last());
        let e = events.last();
        lemma_next_shape(s1, e);
        let a = next(s1, e).1;
        lemma_redraw_count_add(t1, a);
        if e is Idle && a == redraw_actions(e->width, e->height) {
            reveal_with_fuel(redraw_count, 5);
            assert(a.drop_last().drop_last().drop_last().drop_last() =~= seq![]);
        } else if a == teardown_actions(s1) {
            reveal_with_fuel(redraw_count, 4);
            assert(a.len() <= 3);
            assert forall|k: int| 0 <= k < a.len() implies !(#[trigger] a[k] is Render) by {
                assert(a[k] == Action::DestroyRenderContext || a[k] == Action::DestroyEngine || a[k]
                    == Action::Exit);
            }
            if a.len() == 3 {
                assert(a.drop_last().drop_last().drop_last() =~= seq![]);
            } else if a.len() == 2 {
                assert(a.drop_last().drop_last() =~= seq![]);
            } else {
                assert(a.drop_last() =~= seq![]);
            }
        } else {
            reveal_with_fuel(redraw_count, 2);
            if a.len() == 1 {
                assert(a.drop_last() =~= seq![]);
            }
        }
    }
}

/// A close request from the window and the overlay's quit control end a
/// running loop the same way: the render context is destroyed, then the
/// engine, then the loop exits.
pub proof fn lemma_teardown_order(s: Reconciler, e: LoopEvent)
    requires
        s.wf(),
        !s.exited,
        e == LoopEvent::CloseRequested || e == LoopEvent::QuitActivated,
    ensures
        next(s, e).1 == seq![Action::DestroyRenderContext, Action::DestroyEngine, Action::Exit],
        next(s, e).0.render_context == ContextStatus::Destroyed,
        next(s, e).0.engine == EngineStatus::Destroyed,
        next(s, e).0.exited,
{
    assert(teardown_actions(s) =~= seq![Action::DestroyRenderContext, Action::DestroyEngine, Action::Exit]);
}

/// A redraw once asked for is owed: while the loop runs, events that neither
/// let it go idle nor close it leave the state as it is, and the next idle
/// moment draws. The loop starts with a redraw pending, so its first idle
/// moment draws the initial frame whether or not a media frame has arrived.
pub proof fn lemma_pending_redraw_is_drawn(s: Reconciler, events: Seq<LoopEvent>, width: i32, height: i32)
    requires
        s.wf(),
        !s.exited,
        s.redraw_pending,
        forall|k: int|
            0 <= k < events.len() ==> !(#[trigger] events[k] is Idle) && events[k] != LoopEvent::CloseRequested
                && events[k] != LoopEvent::QuitActivated,
    ensures
        run(s, events).0 == s,
        next(run(s, events).0, LoopEvent::Idle { width, height }).1 == redraw_actions(width, height),
    decreases events.len(),
{
    if events.len() > 0 {
        let rest = events.drop_last();
        assert forall|k: int| 0 <= k < rest.len() implies !(#[trigger] rest[k] is Idle) && rest[k]
            != LoopEvent::CloseRequested && rest[k] != LoopEvent::QuitActivated by {
            assert(rest[k] == events[k]);
        }
        lemma_pending_redraw_is_drawn(s, rest, width, height);
        assert(!(events[events.len() - 1] is Idle));
    }
}

/// A Render-Ready signal on a running loop is acknowledged and asks for a
/// redraw, which the next idle moment then draws.
pub proof fn lemma_render_ready_is_drawn(s: Reconciler, width: i32, height: i32)
    requires
        s.wf(),
        !s.exited,
    ensures
        next(s, LoopEvent::RenderReady).1 == seq![Action::AcknowledgeUpdate],
        next(s, LoopEvent::RenderReady).0.redraw_pending,
        next(next(s, LoopEvent::RenderReady).0, LoopEvent::Idle { width, height }).1 == redraw_actions(
            width,
            height,
        ),
{
}

/// Each transition keeps both handles alive exactly while the loop runs.
pub proof fn lemma_run_keeps_wf(s: Reconciler, events: Seq<LoopEvent>)
    requires
        s.wf(),
    ensures
        run(s, events).0.wf(),
    decreases events.len(),
{
    if events.len() > 0 {
        lemma_run_keeps_wf(s, events.drop_last());
    }
}

/// From a well-formed state, whatever the events, the engine is destroyed
/// only after the render context has been.
pub proof fn lemma_engine_outlives_render_context(s: Reconciler, events: Seq<LoopEvent>)
    requires
        s.wf(),
    ensures
        forall|j: int|
            0 <= j < run(s, events).1.len() && #[trigger] run(s, events).1[j] == Action::DestroyEngine ==> exists|
                i: int,
            |
                0 <= i < j && run(s, events).1[i] == Action::DestroyRenderContext,
    decreases events.len(),
{
    if events.len() > 0 {
        lemma_engine_outlives_render_context(s, events.drop_last());
        lemma_run_keeps_wf(s, events.drop_last());
        let (s1, t1) = run(s, events.drop_last());
        let e = events.last();
        let a = next(s1, e).1;
        let t = t1 + a;
        assert(run(s, events).1 == t);
        if !s1.exited && (e == LoopEvent::CloseRequested || e == LoopEvent::QuitActivated) {
            lemma_teardown_order(s1, e);
        }
        assert forall|j: int| 0 <= j < t.len() && #[trigger] t[j] == Action::DestroyEngine implies exists|i: int|
            0 <= i < j && t[i] == Action::DestroyRenderContext by {
            if j < t1.len() {
                assert(t1[j] == t[j]);
                let i = choose|i: int| 0 <= i < j && t1[i] == Action::DestroyRenderContext;
                assert(t[i] == t1[i]);
            } else {
                assert(a[j - t1.len()] == t[j]);
                assert(j - t1.len() == 1);
                assert(t[t1.len() as int] == a[0]);
            }
        }
    }
}

} // verus!
