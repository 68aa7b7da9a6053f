//! What holds of the catalog, of the spinner handle and of the render loop,
//! stated over their mathematical values and proved.

use crate::event::EventView;
use crate::render::{LoopView, TickView};
use crate::spinner::SpinnerView;
use crate::spinners::{lemma_frame_counts, lemma_name_initial, lemma_names_distinct, Spinners};
use crate::text::{capitalize, frame_line};
use vstd::arithmetic::div_mod::{lemma_add_mod_noop_right, lemma_mod_bound, lemma_small_mod};
use vstd::prelude::*;

verus! {

/// Whether the handle `h` and the render loop `l` agree: the loop plays the
/// handle's animation, with its message and interval, and is alive exactly
/// while the handle counts it as running.
pub open spec fn in_sync(h: SpinnerView, l: LoopView) -> bool {
    &&& l.frames == h.spinner.frames()
    &&& l.message == h.message
    &&& l.interval == h.interval
    &&& l.alive == h.running
}

/// Every identifier resolves to the animation that bears it, and to no
/// other: looking up the name of an animation gives that animation back.
pub proof fn law_name_round_trip(s: Spinners)
    ensures
        Spinners::registered(s.name()@),
        Spinners::resolve(s.name()@) == Some(s),
{
    let t = choose|t: Spinners| t.name()@ == s.name()@;
    lemma_names_distinct(s, t);
}

/// The display name of an animation is its identifier with the first letter
/// in upper case and the rest unchanged. Identifiers are matched exactly,
/// case included, so no display name is an identifier itself.
pub proof fn law_display_name(s: Spinners)
    ensures
        capitalize(s.name()@).len() == s.name()@.len(),
        'A' <= capitalize(s.name()@)[0] <= 'Z',
        capitalize(s.name()@)[0] as u32 == s.name()@[0] as u32 - 32,
        forall|i: int| 1 <= i < s.name()@.len() ==> capitalize(s.name()@)[i] == s.name()@[i],
        !Spinners::registered(capitalize(s.name()@)),
{
    lemma_name_initial(s);
    if Spinners::registered(capitalize(s.name()@)) {
        let t = choose|t: Spinners| t.name()@ == capitalize(s.name()@);
        lemma_name_initial(t);
    }
}

/// A name resolves exactly when it is registered, and what it resolves to
/// bears that name and has at least one frame.
pub proof fn law_lookup_total(name: Seq<char>)
    ensures
        Spinners::resolve(name) is Some <==> Spinners::registered(name),
        Spinners::resolve(name) matches Some(s) ==> s.name()@ == name && s.frames().len() >= 1,
{
    if Spinners::registered(name) {
        lemma_frame_counts(Spinners::resolve(name)->0);
    }
}

/// A new spinner is stopped, and its interval is 1000 ms divided by the
/// frame count of its animation, rounded down; that is at least 1 ms.
pub proof fn law_default_interval(s: Spinners, message: Seq<char>)
    ensures
        SpinnerView::fresh(s, message).interval == 1000nat / s.frames().len(),
        SpinnerView::fresh(s, message).interval >= 1,
        SpinnerView::fresh(s, message).wf(),
        !SpinnerView::fresh(s, message).running,
{
    lemma_frame_counts(s);
    let n = s.frames().len();
    assert(1 <= 1000nat / n <= 1000) by (nonlinear_arith)
        requires
            1 <= n <= 1000,
    ;
}

/// A batch that ends in `ev` is the batch before it, then `ev`.
pub proof fn law_apply_all_push(l: LoopView, evs: Seq<EventView>, ev: EventView)
    ensures
        l.apply_all(evs.push(ev)) == l.apply_all(evs).apply(ev),
{
    assert(evs.push(ev).drop_last() =~= evs);
}

/// A valid loop stays valid, whatever signals it is given.
pub proof fn law_step_keeps_valid(l: LoopView, evs: Seq<EventView>)
    requires
        l.wf(),
    ensures
        l.apply_all(evs).wf(),
        l.step(evs).wf(),
    decreases evs.len(),
{
    if evs.len() > 0 {
        law_step_keeps_valid(l, evs.drop_last());
    }
    let s = l.apply_all(evs);
    if s.alive {
        if s.shown is Some {
            lemma_mod_bound((s.shown->0 + 1) as int, s.frames.len() as int);
        }
    }
}

/// A loop that has stopped ignores every signal and renders nothing.
pub proof fn law_stopped_stays_silent(l: LoopView, evs: Seq<EventView>)
    requires
        !l.alive,
    ensures
        l.apply_all(evs) == l,
        l.step(evs) == l,
        l.step(evs).rendered() is None,
    decreases evs.len(),
{
    if evs.len() > 0 {
        law_stopped_stays_silent(l, evs.drop_last());
    }
}

/// A batch that holds a stop signal stops the loop: the step that reads it
/// renders no frame, and by `law_stopped_stays_silent` none follows.
pub proof fn law_stop_ends_rendering(l: LoopView, evs: Seq<EventView>)
    requires
        evs.contains(EventView::Stop),
    ensures
        !l.step(evs).alive,
        l.step(evs).rendered() is None,
    decreases evs.len(),
{
    let before = evs.drop_last();
    if evs.last() != EventView::Stop {
        let i = choose|i: int| 0 <= i < evs.len() && evs[i] == EventView::Stop;
        assert(before[i] == EventView::Stop);
        law_stop_ends_rendering(l, before);
    }
}

/// Start, then stop at once: the handle issues the stop signal and counts
/// no loop as running; the loop that reads the signal at its first turn
/// renders no frame at all, and one that reads it at its second turn has
/// rendered exactly the first frame.
pub proof fn law_start_then_stop(h: SpinnerView)
    requires
        h.wf(),
        !h.running,
    ensures
        (SpinnerView { running: true, ..h }).signal(EventView::Stop) == Some(EventView::Stop),
        h.render_loop().step(seq![EventView::Stop]).rendered() is None,
        !h.render_loop().step(seq![EventView::Stop]).alive,
        h.render_loop().step(seq![]).step(seq![EventView::Stop]).rendered() is None,
        !h.render_loop().step(seq![]).step(seq![EventView::Stop]).alive,
{
    let stop = seq![EventView::Stop];
    assert(stop[0] == EventView::Stop);
    law_stop_ends_rendering(h.render_loop(), stop);
    law_stop_ends_rendering(h.render_loop().step(seq![]), stop);
}

/// The loop that a start hands out agrees with the handle, and its first
/// frame is the first glyph of the animation with the handle's message: a
/// message set before the start is on the first frame.
pub proof fn law_first_frame(h: SpinnerView, message: Seq<char>)
    requires
        h.wf(),
    ensures
        in_sync(SpinnerView { running: true, ..h }, h.render_loop()),
        (SpinnerView { message: message, ..h }).render_loop().step(seq![]).rendered() == Some(
            TickView { line: frame_line(h.spinner.frames()[0]@, message), wait: h.interval },
        ),
{
    lemma_frame_counts(h.spinner);
}

/// A batch that ends in a change of animation switches the glyphs at once
/// and restarts at the first frame of the new animation, wherever the old
/// one stood.
pub proof fn law_new_frames_restart(l: LoopView, evs: Seq<EventView>, frames: Seq<&'static str>)
    requires
        l.wf(),
        l.apply_all(evs).alive,
        frames.len() > 0,
    ensures
        l.step(evs.push(EventView::SetFrames(frames))).frames == frames,
        l.step(evs.push(EventView::SetFrames(frames))).shown == Some(0nat),
        l.step(evs.push(EventView::SetFrames(frames))).rendered() == Some(
            TickView {
                line: frame_line(frames[0]@, l.apply_all(evs).message),
                wait: l.apply_all(evs).interval,
            },
        ),
{
    law_apply_all_push(l, evs, EventView::SetFrames(frames));
}

/// Where two signals in a row set the same field, the later one wins.
pub proof fn law_last_write_wins(l: LoopView, first: EventView, second: EventView)
    requires
        l.wf(),
        (first is SetMessage && second is SetMessage) || (first is SetInterval && second
            is SetInterval && second->SetInterval_0 > 0) || (first is SetFrames && second
            is SetFrames && second->SetFrames_0.len() > 0),
    ensures
        l.apply(first).apply(second) == l.apply(second),
{
}

/// Left alone, a loop plays its frames in order, for ever: its `n`-th step
/// renders the frame at `n - 1` modulo the frame count, so the first frame
/// follows the last; message and interval stay as they are.
pub proof fn law_frames_cycle(l: LoopView, n: nat)
    requires
        l.wf(),
        l.alive,
        l.shown is None,
        n >= 1,
    ensures
        l.idle(n) == (LoopView { shown: Some(((n - 1) % (l.frames.len() as int)) as nat), ..l }),
        l.idle(n).rendered() == Some(
            TickView {
                line: frame_line(l.frames[(n - 1) % (l.frames.len() as int)]@, l.message),
                wait: l.interval,
            },
        ),
    decreases n,
{
    let len = l.frames.len() as int;
    lemma_mod_bound(n - 1, len);
    if n == 1 {
        lemma_small_mod(0, len as nat);
    } else {
        law_frames_cycle(l, (n - 1) as nat);
        lemma_add_mod_noop_right(1, n - 2, len);
    }
}

/// A handle and the loop it started agree at every turn of the loop: where
/// the loop, once it has applied the signals that are pending, agrees with
/// the handle, it still does so when the handle changes its message, its
/// interval or its animation, or stops, and the signal issued for that
/// joins the pending ones; and the loop's next step, which reads them all,
/// leaves it in agreement with the handle.
pub proof fn law_signals_keep_in_sync(
    h: SpinnerView,
    l: LoopView,
    pending: Seq<EventView>,
    message: Seq<char>,
    interval: u64,
    spinner: Spinners,
)
    requires
        h.wf(),
        h.running,
        in_sync(h, l.apply_all(pending)),
        interval > 0,
    ensures
        in_sync(
            SpinnerView { message: message, ..h },
            l.apply_all(pending.push(EventView::SetMessage(message))),
        ),
        in_sync(
            SpinnerView { interval: interval, ..h },
            l.apply_all(pending.push(EventView::SetInterval(interval))),
        ),
        in_sync(
            SpinnerView { spinner: spinner, ..h },
            l.apply_all(pending.push(EventView::SetFrames(spinner.frames()))),
        ),
        in_sync(
            SpinnerView { running: false, ..h },
            l.apply_all(pending.push(EventView::Stop)),
        ),
        in_sync(h, l.step(pending)),
{
    lemma_frame_counts(spinner);
    law_apply_all_push(l, pending, EventView::SetMessage(message));
    law_apply_all_push(l, pending, EventView::SetInterval(interval));
    law_apply_all_push(l, pending, EventView::SetFrames(spinner.frames()));
    law_apply_all_push(l, pending, EventView::Stop);
}

} // verus!
