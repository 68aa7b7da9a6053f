//! The render loop as a state machine. The worker that owns the terminal
//! calls [`RenderLoop::step`] once per frame with the signals that arrived
//! since the last call, writes the line it gets back, and waits.

use crate::event::{views, Event, EventView};
use crate::spinners::Frames;
use crate::text::{compose_frame_line, frame_line};
use vstd::arithmetic::div_mod::{lemma_mod_self_0, lemma_small_mod};
use vstd::prelude::*;

verus! {

/// What the worker does for one frame: write `line`, then wait `wait`
/// milliseconds.
#[derive(Debug, Clone, PartialEq, Eq)]
pub struct Tick {
    /// The text to write: carriage return, glyph, a space, the message.
    pub line: String,
    /// The pause after the write, in milliseconds.
    pub wait: u64,
}

/// The mathematical value of a [`Tick`].
pub struct TickView {
    /// The text to write.
    pub line: Seq<char>,
    /// The pause after the write, in milliseconds.
    pub wait: u64,
}

impl View for Tick {
    type V = TickView;

    open spec fn view(&self) -> TickView {
        TickView { line: self.line@, wait: self.wait }
    }
}

/// The value of an optional tick.
pub open spec fn tick_view(tick: Option<Tick>) -> Option<TickView> {
    match tick {
        Some(t) => Some(t@),
        None => None,
    }
}

/// The mathematical value of a [`RenderLoop`].
pub struct LoopView {
    /// The frames being played.
    pub frames: Seq<&'static str>,
    /// The index of the frame on screen; `None` while no frame of `frames`
    /// has been rendered yet.
    pub shown: Option<nat>,
    /// The message behind the glyph.
    pub message: Seq<char>,
    /// The pause between frames, in milliseconds.
    pub interval: u64,
    /// Whether the loop still renders; false once it has seen a stop signal.
    pub alive: bool,
}

impl LoopView {
    /// Validity: there is a frame to play, the interval is positive, and the
    /// frame on screen is one of the frames.
    pub open spec fn wf(self) -> bool {
        &&& self.frames.len() > 0
        &&& self.interval > 0
        &&& (self.shown matches Some(i) ==> i < self.frames.len())
    }

    /// The state after one signal. A stopped loop ignores every signal; a
    /// zero interval and an empty frame sequence are ignored, so that the
    /// loop keeps its last good state.
    pub open spec fn apply(self, ev: EventView) -> LoopView {
        if !self.alive {
            self
        } else {
            match ev {
                EventView::Stop => LoopView { alive: false, ..self },
                EventView::SetMessage(text) => LoopView { message: text, ..self },
                EventView::SetInterval(ms) => if ms > 0 {
                    LoopView { interval: ms, ..self }
                } else {
                    self
                },
                EventView::SetFrames(frames) => if frames.len() > 0 {
                    LoopView { frames: frames, shown: None, ..self }
                } else {
                    self
                },
            }
        }
    }

    /// The state after a batch of signals, applied in order.
    pub open spec fn apply_all(self, evs: Seq<EventView>) -> LoopView
        decreases evs.len(),
    {
        if evs.len() == 0 {
            self
        } else {
            self.apply_all(evs.drop_last()).apply(evs.last())
        }
    }

    /// The index of the frame to render next: the first frame when none of
    /// the current frames was rendered yet, else the one after the frame on
    /// screen, wrapping to the first after the last.
    pub open spec fn next_index(self) -> nat {
        match self.shown {
            None => 0,
            Some(i) => (i + 1) % self.frames.len(),
        }
    }

    /// The state after one call of [`RenderLoop::step`]: the batch is
    /// applied, and a loop that is still alive moves to its next frame.
    pub open spec fn step(self, evs: Seq<EventView>) -> LoopView {
        let s = self.apply_all(evs);
        if s.alive {
            LoopView { shown: Some(s.next_index()), ..s }
        } else {
            s
        }
    }

    /// The state after `n` steps in a row during which no signal arrived.
    pub open spec fn idle(self, n: nat) -> LoopView
        decreases n,
    {
        if n == 0 {
            self
        } else {
            self.idle((n - 1) as nat).step(Seq::empty())
        }
    }

    /// What is on screen: the tick of the frame last rendered, or `None`
    /// where the loop has stopped or has rendered none of its frames yet.
    pub open spec fn rendered(self) -> Option<TickView> {
        if self.alive && self.shown is Some {
            Some(
                TickView {
                    line: frame_line(self.frames[self.shown->0 as int]@, self.message),
                    wait: self.interval,
                },
            )
        } else {
            None
        }
    }
}

/// The state of one render loop.
#[derive(Debug)]
pub struct RenderLoop {
    frames: Frames,
    shown: Option<usize>,
    message: String,
    interval: u64,
    alive: bool,
}

impl View for RenderLoop {
    type V = LoopView;

    closed spec fn view(&self) -> LoopView {
        LoopView {
            frames: self.frames@,
            shown: match self.shown {
                Some(i) => Some(i as nat),
                None => None,
            },
            message: self.message@,
            interval: self.interval,
            alive: self.alive,
        }
    }
}

impl RenderLoop {
    #[verifier::type_invariant]
    closed spec fn inv(&self) -> bool {
        self@.wf()
    }

    /// A loop that is about to render the first of `frames`.
    pub(crate) fn launch(frames: Frames, message: String, interval: u64) -> (r: RenderLoop)
        requires
            frames@.len() > 0,
            interval > 0,
        ensures
            r@ == (LoopView {
                frames: frames@,
                shown: None,
                message: message@,
                interval: interval,
                alive: true,
            }),
    {
        RenderLoop { frames, shown: None, message, interval, alive: true }
    }

    /// Whether the loop still renders.
    pub fn is_alive(&self) -> (r: bool)
        ensures
            r == self@.alive,
            self@.wf(),
    {
        proof {
            use_type_invariant(self);
        }
        self.alive
    }

    /// Applies one signal.
    pub fn apply(&mut self, ev: &Event)
        ensures
            final(self)@ == old(self)@.apply(ev@),
            final(self)@.wf(),
    {
        proof {
            use_type_invariant(&*self);
        }
        if !self.alive {
            return ;
        }
        match ev {
            Event::Stop => {
                self.alive = false;
            },
            Event::SetMessage(text) => {
                self.message = text.clone();
            },
            Event::SetInterval(ms) => {
                if *ms > 0 {
                    self.interval = *ms;
                }
            },
            Event::SetFrames(frames) => {
                if frames.len() > 0 {
                    self.shown = None;
                    self.frames = *frames;
                }
            },
        }
    }

    /// One turn of the loop, taken after the pause of the previous frame:
    /// applies the signals that arrived meanwhile, in order, and moves to
    /// the next frame. Returns the tick to perform, or `None` once the loop
    /// has seen a stop signal: it then renders nothing any more.
    pub fn step(&mut self, events: &[Event]) -> (r: Option<Tick>)
        ensures
            final(self)@ == old(self)@.step(views(events@)),
            tick_view(r) == final(self)@.rendered(),
            final(self)@.wf(),
    {
        let ghost evs = views(events@);
        let mut i: usize = 0;
        while i < events.len()
            invariant
                i <= events@.len(),
                evs == views(events@),
                self@ == old(self)@.apply_all(evs.take(i as int)),
            decreases events@.len() - i,
        {
            self.apply(&events[i]);
            proof {
                assert(evs.take(i + 1).drop_last() =~= evs.take(i as int));
                assert(evs.take(i + 1).last() == events@[i as int]@);
            }
            i += 1;
        }
        proof {
            use_type_invariant(&*self);
            assert(evs.take(i as int) =~= evs);
        }
        if !self.alive {
            return None;
        }
        let n = self.frames.len();
        let next: usize = match self.shown {
            None => 0,
            Some(k) => if k + 1 < n {
                proof {
                    lemma_small_mod((k + 1) as nat, n as nat);
                }
                k + 1
            } else {
                proof {
                    lemma_mod_self_0(n as int);
                }
                0
            },
        };
        self.shown = Some(next);
        let line = compose_frame_line(self.frames[next], self.message.as_str());
        Some(Tick { line, wait: self.interval })
    }
}

} // verus!
