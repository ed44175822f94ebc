//! The render loop's state machine: which events quit it, and how one
//! frame's batch of polled events transforms the view.
//!
//! Each frame the loop drains the window's event queue, applies every
//! event of the batch to the view in order, and leaves the running phase
//! exactly when the batch holds a quit signal: the close button or the
//! Escape key. Events after a quit signal in the same batch still reach
//! the view, as the drained queue is processed to its end.

use vstd::prelude::*;

use crate::view::key_step;
use crate::view::Key;
use crate::view::ViewModel;
use crate::view::ViewState;
use crate::view::DIM_MAX;
use crate::view::handle_input;

verus! {

/// An event drained from the window's queue, reduced to what the loop
/// reacts to. Everything else is `Other`.
#[derive(Clone, Copy, PartialEq, Eq, Structural, Debug)]
pub enum Event {
    /// The window's close button or close signal.
    CloseRequested,
    /// A keyboard key went down or up.
    KeyPress(Key),
    /// The window was resized to the given width and height. The window
    /// is created non-resizable, and the loop ignores this event.
    Resized(u64, u64),
    /// Any other window or device event.
    Other,
}

/// The phase of the render loop's lifecycle.
#[derive(Clone, Copy, PartialEq, Eq, Structural, Debug)]
pub enum Phase {
    /// Window and GPU resources are being created.
    Initializing,
    /// Frames are being produced; self-loops until a quit signal.
    Running,
    /// A quit signal arrived; no further frame is produced.
    Terminated,
}

/// Does this event ask the loop to quit?
pub open spec fn is_quit(e: Event) -> bool {
    e == Event::CloseRequested || e == Event::KeyPress(Key::Escape)
}

/// What one event does to the view: key presses act on it, everything
/// else leaves it unchanged.
pub open spec fn event_step(v: ViewModel, e: Event) -> ViewModel {
    match e {
        Event::KeyPress(k) => key_step(v, k),
        _ => v,
    }
}

/// What a whole polled batch does to the view, first event first.
pub open spec fn batch_step(v: ViewModel, events: Seq<Event>) -> ViewModel
    decreases events.len(),
{
    if events.len() == 0 {
        v
    } else {
        batch_step(event_step(v, events[0]), events.drop_first())
    }
}

/// Does the batch hold a quit signal anywhere?
pub open spec fn batch_has_quit(events: Seq<Event>) -> bool {
    exists|i: int| 0 <= i < events.len() && is_quit(events[i])
}

/// Appending one event to a batch applies it after the batch.
pub proof fn lemma_batch_step_snoc(v: ViewModel, events: Seq<Event>, e: Event)
    ensures
        batch_step(v, events.push(e)) == event_step(batch_step(v, events), e),
    decreases events.len(),
{
    reveal_with_fuel(batch_step, 3);
    if events.len() == 0 {
        assert(events.push(e)[0] == e);
        assert(events.push(e).drop_first() =~= Seq::<Event>::empty());
    } else {
        assert(events.push(e)[0] == events[0]);
        assert(events.push(e).drop_first() =~= events.drop_first().push(e));
        lemma_batch_step_snoc(event_step(v, events[0]), events.drop_first(), e);
    }
}

/// The render loop's own state: its lifecycle phase and the view it
/// redraws each frame.
#[derive(Clone, Copy, PartialEq, Eq, Structural, Debug)]
pub struct RenderLoop {
    /// Where in its lifecycle the loop stands.
    pub phase: Phase,
    /// The view the shader is parameterized with each frame.
    pub view: ViewState,
}

impl RenderLoop {
    /// Well-formedness of the loop's state.
    pub open spec fn wf(self) -> bool {
        self.view@.wf()
    }

    /// A fresh loop for a window of the given size, still initializing.
    pub fn new(width: u64, height: u64) -> (r: RenderLoop)
        requires
            width <= DIM_MAX,
            height <= DIM_MAX,
        ensures
            r.phase == Phase::Initializing,
            r.view@ == crate::view::initial_view(width as int, height as int),
            r.wf(),
    {
        RenderLoop { phase: Phase::Initializing, view: ViewState::new(width, height) }
    }

    /// Resource creation succeeded: enter the running phase.
    pub fn start(&mut self)
        requires
            old(self).phase == Phase::Initializing,
        ensures
            final(self).phase == Phase::Running,
            final(self).view == old(self).view,
    {
        self.phase = Phase::Running;
    }

    /// One frame's event handling: apply the whole drained batch to the
    /// view in order, and leave the running phase exactly when the batch
    /// holds a quit signal — whatever else the batch holds.
    pub fn step_frame(&mut self, events: &Vec<Event>)
        requires
            old(self).wf(),
            old(self).phase == Phase::Running,
        ensures
            final(self).view@ == batch_step(old(self).view@, events@),
            final(self).phase == (if batch_has_quit(events@) {
                Phase::Terminated
            } else {
                Phase::Running
            }),
            final(self).view.width == old(self).view.width,
            final(self).view.height == old(self).view.height,
            final(self).view.max_iterations == old(self).view.max_iterations,
            final(self).wf(),
    {
        let ghost v0 = self.view@;
        let ghost w0 = self.view.width;
        let ghost h0 = self.view.height;
        let ghost m0 = self.view.max_iterations;
        let mut running: bool = true;
        let mut i: usize = 0;
        while i < events.len()
            invariant
                0 <= i <= events@.len(),
                self.view@ == batch_step(v0, events@.take(i as int)),
                self.view@.wf(),
                self.view.width == w0,
                self.view.height == h0,
                self.view.max_iterations == m0,
                self.phase == Phase::Running,
                running == !batch_has_quit(events@.take(i as int)),
            decreases events@.len() - i,
        {
            let e: Event = events[i];
            proof {
                assert(events@.take(i + 1) =~= events@.take(i as int).push(e));
                lemma_batch_step_snoc(v0, events@.take(i as int), e);
                if is_quit(e) {
                    assert(events@.take(i + 1)[i as int] == e);
                    assert(batch_has_quit(events@.take(i + 1)));
                } else {
                    assert forall|j: int|
                        0 <= j < events@.take(i + 1).len() && is_quit(
                            #[trigger] events@.take(i + 1)[j],
                        ) implies batch_has_quit(events@.take(i as int)) by {
                        assert(events@.take(i as int)[j] == events@.take(i + 1)[j]);
                    }
                }
            }
            match e {
                Event::CloseRequested => {
                    running = false;
                },
                Event::KeyPress(k) => {
                    if k == Key::Escape {
                        running = false;
                    } else {
                        handle_input(k, &mut self.view);
                    }
                },
                _ => {},
            }
            i = i + 1;
        }
        proof {
            assert(events@.take(events@.len() as int) =~= events@);
        }
        if !running {
            self.phase = Phase::Terminated;
        }
    }
}

} // verus!
