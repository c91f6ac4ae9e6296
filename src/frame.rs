//! The decisions of the frame loop: which input events end the loop, and
//! which viewport the next draw uses.

use vstd::prelude::*;

verus! {

/// The keys the frame loop tells apart.
#[derive(Clone, Copy, Debug, PartialEq, Eq, Structural)]
pub enum Key {
    Escape,
    Other,
}

/// One input event, as the windowing layer reports it.
#[derive(Clone, Copy, Debug, PartialEq, Eq, Structural)]
pub enum Event {
    Quit,
    KeyDown { key: Option<Key> },
    WindowResized { width: i32, height: i32 },
    Other,
}

/// The pixel rectangle drawn into, anchored at the origin.
#[derive(Clone, Copy, Debug, PartialEq, Eq, Structural)]
pub struct Viewport {
    pub width: i32,
    pub height: i32,
}

/// What the loop does after draining one iteration's events.
#[derive(Clone, Copy, Debug, PartialEq, Eq, Structural)]
pub enum FrameStep {
    /// Leave the loop before drawing.
    Quit,
    /// Draw one frame into `viewport`; `resized` tells whether it changed.
    Draw { viewport: Viewport, resized: bool },
}

/// Events that end the loop: a quit request or the escape key.
pub open spec fn is_quit(e: Event) -> bool {
    e == Event::Quit || e == (Event::KeyDown { key: Some(Key::Escape) })
}

/// The step that follows events `events` when the viewport is `current`
/// and `resized` tells whether it already changed in this iteration.
/// Events are handled in order; the first quit event ends the loop.
pub open spec fn spec_step(current: Viewport, resized: bool, events: Seq<Event>) -> FrameStep
    decreases events.len(),
{
    if events.len() == 0 {
        FrameStep::Draw { viewport: current, resized }
    } else if is_quit(events[0]) {
        FrameStep::Quit
    } else {
        match events[0] {
            Event::WindowResized { width, height } => spec_step(
                Viewport { width, height },
                true,
                events.drop_first(),
            ),
            _ => spec_step(current, resized, events.drop_first()),
        }
    }
}

/// Once a quit event is among an iteration's events, that iteration draws
/// nothing and the loop ends.
pub proof fn lemma_quit_ends_loop(current: Viewport, resized: bool, events: Seq<Event>, i: int)
    requires
        0 <= i < events.len(),
        is_quit(events[i]),
    ensures
        spec_step(current, resized, events) == FrameStep::Quit,
    decreases i,
{
    if !is_quit(events[0]) {
        assert(events.drop_first()[i - 1] == events[i]);
        match events[0] {
            Event::WindowResized { width, height } => {
                lemma_quit_ends_loop(Viewport { width, height }, true, events.drop_first(), i - 1);
            },
            _ => {
                lemma_quit_ends_loop(current, resized, events.drop_first(), i - 1);
            },
        }
    }
}

/// Drains one iteration's events: quit on the first quit event, else
/// draw into the viewport the last resize event set (or `current`).
pub fn step_frame(current: Viewport, events: &Vec<Event>) -> (r: FrameStep)
    ensures
        r == spec_step(current, false, events@),
{
    let mut viewport = current;
    let mut resized = false;
    let mut i: usize = 0;
    assert(events@.skip(0) =~= events@);
    while i < events.len()
        invariant
            i <= events@.len(),
            spec_step(viewport, resized, events@.skip(i as int)) == spec_step(
                current,
                false,
                events@,
            ),
        decreases events@.len() - i,
    {
        let e = events[i];
        assert(events@.skip(i as int).drop_first() =~= events@.skip(i + 1));
        assert(events@.skip(i as int)[0] == e);
        match e {
            Event::Quit => {
                return FrameStep::Quit;
            },
            Event::KeyDown { key: Some(Key::Escape) } => {
                return FrameStep::Quit;
            },
            Event::WindowResized { width, height } => {
                viewport = Viewport { width, height };
                resized = true;
            },
            _ => {},
        }
        i = i + 1;
    }
    assert(events@.skip(i as int) =~= Seq::<Event>::empty());
    FrameStep::Draw { viewport, resized }
}

/// Vertices drawn each frame: one triangle.
pub const TRIANGLE_VERTEX_COUNT: i32 = 3;

} // verus!
