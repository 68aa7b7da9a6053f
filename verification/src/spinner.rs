//! The spinner handle: the state that the foreground owns. Every control
//! operation updates that state and says which signal, if any, the running
//! render loop must be sent.

use crate::error::{SpinnerError, SpinnerErrorView};
use crate::event::{signal_view, Event, EventView};
use crate::render::{LoopView, RenderLoop};
use crate::spinners::Spinners;
use crate::text::{capitalize, compose_final_line, compose_frame_line, final_line, frame_line};
use vstd::prelude::*;
use vstd::string::*;

verus! {

/// What ends a run: the signal to send to the render loop, if one is
/// running, and the line to write once that loop has ceased writing.
#[derive(Debug, Clone, PartialEq, Eq)]
pub struct Finish {
    /// The stop signal for the running loop; `None` where none was running.
    pub signal: Option<Event>,
    /// The line that replaces the spinner.
    pub line: String,
}

/// The mathematical value of a [`Spinner`].
pub struct SpinnerView {
    /// The active animation.
    pub spinner: Spinners,
    /// The message shown behind the glyph.
    pub message: Seq<char>,
    /// The pause between frames, in milliseconds.
    pub interval: u64,
    /// Whether a render loop is running for this spinner.
    pub running: bool,
}

impl SpinnerView {
    /// Validity: the interval is positive.
    pub open spec fn wf(self) -> bool {
        self.interval > 0
    }

    /// A new spinner: stopped, at the animation's default interval.
    pub open spec fn fresh(spinner: Spinners, message: Seq<char>) -> SpinnerView {
        SpinnerView {
            spinner: spinner,
            message: message,
            interval: spinner.default_interval() as u64,
            running: false,
        }
    }

    /// The signal that delivers `ev` to the render loop: `ev` itself while a
    /// loop is running, nothing otherwise.
    pub open spec fn signal(self, ev: EventView) -> Option<EventView> {
        if self.running {
            Some(ev)
        } else {
            None
        }
    }

    /// The render loop that a start of this spinner hands out: it plays the
    /// active animation from its first frame, with the current message and
    /// interval.
    pub open spec fn render_loop(self) -> LoopView {
        LoopView {
            frames: self.spinner.frames(),
            shown: None,
            message: self.message,
            interval: self.interval,
            alive: true,
        }
    }
}

/// A terminal spinner: one animation, a message, a cadence, and whether a
/// render loop is running for it.
#[derive(Debug)]
pub struct Spinner {
    spinner: Spinners,
    interval: u64,
    message: String,
    running: bool,
}

impl View for Spinner {
    type V = SpinnerView;

    closed spec fn view(&self) -> SpinnerView {
        SpinnerView {
            spinner: self.spinner,
            message: self.message@,
            interval: self.interval,
            running: self.running,
        }
    }
}

impl Clone for Spinner {
    fn clone(&self) -> (r: Spinner)
        ensures
            r@ == self@,
    {
        proof {
            use_type_invariant(self);
        }
        Spinner {
            spinner: self.spinner,
            interval: self.interval,
            message: self.message.clone(),
            running: self.running,
        }
    }
}

impl From<Spinners> for Spinner {
    /// A stopped spinner for `spinner`, without a message.
    fn from(spinner: Spinners) -> (r: Spinner)
        ensures
            r@ == SpinnerView::fresh(spinner, Seq::empty()),
    {
        proof {
            reveal_strlit("");
            assert(""@ =~= Seq::<char>::empty());
        }
        Spinner::new(spinner, "")
    }
}

impl vstd::std_specs::convert::FromSpecImpl<Spinners> for Spinner {
    open spec fn obeys_from_spec() -> bool {
        false
    }

    open spec fn from_spec(spinner: Spinners) -> Spinner {
        arbitrary()
    }
}

impl Spinner {
    #[verifier::type_invariant]
    closed spec fn inv(&self) -> bool {
        self@.wf()
    }

    /// Creates a stopped spinner for `spinner` with `message`, at the
    /// animation's default interval: 1000 ms divided by its frame count,
    /// rounded down.
    pub fn new(spinner: Spinners, message: &str) -> (r: Spinner)
        ensures
            r@ == SpinnerView::fresh(spinner, message@),
            r@.wf(),
    {
        Spinner {
            spinner,
            interval: spinner.interval(),
            message: String::from_str(message),
            running: false,
        }
    }

    /// Creates a stopped spinner for the animation registered under `name`.
    pub fn from_name(name: &str, message: &str) -> (r: Result<Spinner, SpinnerError>)
        ensures
            r is Ok <==> Spinners::registered(name@),
            r matches Ok(sp) ==> Spinners::resolve(name@) matches Some(s) && sp@
                == SpinnerView::fresh(s, message@),
            r matches Err(e) ==> e@ == SpinnerErrorView::UnknownAnimation(name@),
    {
        match Spinners::lookup(name) {
            Ok(spinner) => Ok(Spinner::new(spinner, message)),
            Err(e) => Err(e),
        }
    }

    /// Starts the spinner. Where no render loop is running, returns the
    /// state of a new one, to be handed to the worker that renders it; where
    /// one is running already, changes nothing and returns `None`.
    pub fn start(&mut self) -> (r: Option<RenderLoop>)
        ensures
            final(self)@ == (SpinnerView { running: true, ..old(self)@ }),
            r is Some <==> !old(self)@.running,
            r matches Some(lp) ==> lp@ == old(self)@.render_loop() && lp@.wf(),
    {
        proof {
            use_type_invariant(&*self);
        }
        if self.running {
            return None;
        }
        self.running = true;
        Some(RenderLoop::launch(self.spinner.get_frames(), self.message.clone(), self.interval))
    }

    /// Stops the spinner. Returns the stop signal for the running render
    /// loop, or `None` where none was running.
    pub fn stop(&mut self) -> (r: Option<Event>)
        ensures
            final(self)@ == (SpinnerView { running: false, ..old(self)@ }),
            signal_view(r) == old(self)@.signal(EventView::Stop),
    {
        proof {
            use_type_invariant(&*self);
        }
        if self.running {
            self.running = false;
            Some(Event::Stop)
        } else {
            None
        }
    }

    /// Stops the spinner and replaces it with `text`.
    pub fn stop_with_message(&mut self, text: &str) -> (r: Finish)
        ensures
            final(self)@ == (SpinnerView { running: false, ..old(self)@ }),
            signal_view(r.signal) == old(self)@.signal(EventView::Stop),
            r.line@ == final_line(text@),
    {
        let signal = self.stop();
        Finish { signal, line: compose_final_line(text) }
    }

    /// Stops the spinner and replaces the glyph with `symbol`, in front of
    /// the current message.
    pub fn stop_with_symbol(&mut self, symbol: &str) -> (r: Finish)
        ensures
            final(self)@ == (SpinnerView { running: false, ..old(self)@ }),
            signal_view(r.signal) == old(self)@.signal(EventView::Stop),
            r.line@ == frame_line(symbol@, old(self)@.message),
    {
        let signal = self.stop();
        Finish { signal, line: compose_frame_line(symbol, self.message.as_str()) }
    }

    /// Sets the pause between frames, in milliseconds. Zero is rejected and
    /// changes nothing. Returns the signal for the running render loop, if
    /// there is one.
    pub fn set_interval(&mut self, interval: u64) -> (r: Result<Option<Event>, SpinnerError>)
        ensures
            r is Ok <==> interval > 0,
            r matches Ok(signal) ==> final(self)@ == (SpinnerView {
                interval: interval,
                ..old(self)@
            }) && signal_view(signal) == old(self)@.signal(EventView::SetInterval(interval)),
            r matches Err(e) ==> final(self)@ == old(self)@ && e@
                == SpinnerErrorView::InvalidInterval,
    {
        proof {
            use_type_invariant(&*self);
        }
        if interval == 0 {
            return Err(SpinnerError::InvalidInterval);
        }
        self.interval = interval;
        if self.running {
            Ok(Some(Event::SetInterval(interval)))
        } else {
            Ok(None)
        }
    }

    /// Sets the message. Returns the signal for the running render loop, if
    /// there is one.
    pub fn set_message(&mut self, message: &str) -> (r: Option<Event>)
        ensures
            final(self)@ == (SpinnerView { message: message@, ..old(self)@ }),
            signal_view(r) == old(self)@.signal(EventView::SetMessage(message@)),
    {
        proof {
            use_type_invariant(&*self);
        }
        self.message = String::from_str(message);
        if self.running {
            Some(Event::SetMessage(String::from_str(message)))
        } else {
            None
        }
    }

    /// Sets the animation; the interval stays as it is. Returns the signal
    /// for the running render loop, if there is one.
    pub fn set_spinner(&mut self, spinner: Spinners) -> (r: Option<Event>)
        ensures
            final(self)@ == (SpinnerView { spinner: spinner, ..old(self)@ }),
            signal_view(r) == old(self)@.signal(EventView::SetFrames(spinner.frames())),
    {
        proof {
            use_type_invariant(&*self);
        }
        self.spinner = spinner;
        if self.running {
            Some(Event::SetFrames(spinner.get_frames()))
        } else {
            None
        }
    }

    /// The name of the active animation with its first letter in upper case.
    pub fn get_name(&self) -> (r: String)
        ensures
            r@ == capitalize(self@.spinner.name()@),
    {
        self.spinner.display_name()
    }

    /// The active animation.
    pub fn spinner(&self) -> (r: Spinners)
        ensures
            r == self@.spinner,
    {
        self.spinner
    }

    /// The current message.
    pub fn message(&self) -> (r: &str)
        ensures
            r@ == self@.message,
    {
        self.message.as_str()
    }

    /// The pause between frames, in milliseconds.
    pub fn interval(&self) -> (r: u64)
        ensures
            r == self@.interval,
            r > 0,
    {
        proof {
            use_type_invariant(self);
        }
        self.interval
    }

    /// Whether a render loop is running for this spinner.
    pub fn is_running(&self) -> (r: bool)
        ensures
            r == self@.running,
    {
        self.running
    }
}

} // verus!
