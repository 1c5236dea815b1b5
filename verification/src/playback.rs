//! Playing the resolved frames.
//!
//! A `FrameAnimation` owns the frame sequence, a cursor into it and a
//! repeating interval timer. Each tick adds the elapsed time to the timer;
//! when the interval is reached the cursor moves on by one frame, wrapping
//! at the end, and what is left over after whole intervals is kept for the
//! next tick. A tick fires at most once, however long it was.
//!
//! Times are in nanoseconds.

use crate::resolver::ResolutionError;
use vstd::arithmetic::div_mod::{
    lemma_add_mod_noop_right, lemma_fundamental_div_mod, lemma_fundamental_div_mod_converse,
};
use vstd::prelude::*;

verus! {

/// The number of nanoseconds in a millisecond.
pub const NANOS_PER_MILLI: u64 = 1_000_000;

/// The time between two frames at `fps` frames per second, in nanoseconds:
/// a whole number of milliseconds, rounded down.
pub open spec fn interval_for(fps: u32) -> nat
    recommends
        fps > 0,
{
    ((1000int / (fps as int)) * 1_000_000) as nat
}

/// What a playback state is made of: the number of frames, the frame shown,
/// the timer's interval and the time the timer has gathered.
pub struct PlaybackState {
    pub len: nat,
    pub current: nat,
    pub interval: nat,
    pub elapsed: nat,
}

/// One call of the playback function: the time since the previous call and
/// the host's two flags.
pub struct Tick {
    pub delta: nat,
    pub paused: bool,
    pub hidden: bool,
}

impl PlaybackState {
    /// The states that playback can be in: there is a frame to show, the
    /// cursor points at one, and the timer holds less than one interval.
    pub open spec fn wf(self) -> bool {
        &&& self.len > 0
        &&& self.current < self.len
        &&& self.interval > 0 ==> self.elapsed < self.interval
        &&& self.interval == 0 ==> self.elapsed == 0
    }

    /// The state in which playback begins.
    pub open spec fn initial(len: nat, interval: nat) -> PlaybackState {
        PlaybackState { len, current: 0, interval, elapsed: 0 }
    }

    /// Whether a tick of `delta` reaches the interval.
    pub open spec fn fires(self, delta: nat) -> bool {
        self.elapsed + delta >= self.interval
    }

    /// The state after the timer was advanced by `delta`.
    pub open spec fn ticked(self, delta: nat) -> PlaybackState {
        let total = self.elapsed + delta;
        if total >= self.interval {
            PlaybackState {
                current: (self.current + 1) % self.len,
                elapsed: if self.interval == 0 {
                    0
                } else {
                    total % self.interval
                },
                ..self
            }
        } else {
            PlaybackState { elapsed: total, ..self }
        }
    }

    /// The state after one call of the playback function.
    pub open spec fn step(self, tick: Tick) -> PlaybackState {
        if tick.paused || tick.hidden {
            self
        } else {
            self.ticked(tick.delta)
        }
    }

    /// The state after a series of calls, in order.
    pub open spec fn run(self, ticks: Seq<Tick>) -> PlaybackState
        decreases ticks.len(),
    {
        if ticks.len() == 0 {
            self
        } else {
            self.run(ticks.drop_last()).step(ticks.last())
        }
    }
}

/// The time that a series of calls reports in all.
pub open spec fn total_elapsed(ticks: Seq<Tick>) -> nat
    decreases ticks.len(),
{
    if ticks.len() == 0 {
        0
    } else {
        total_elapsed(ticks.drop_last()) + ticks.last().delta
    }
}

/// One call leaves a playable state playable, with the same frames and the
/// same interval.
pub proof fn lemma_step_keeps_wf(state: PlaybackState, tick: Tick)
    requires
        state.wf(),
    ensures
        state.step(tick).wf(),
        state.step(tick).len == state.len,
        state.step(tick).interval == state.interval,
{
    if !tick.paused && !tick.hidden && state.fires(tick.delta) {
        let len = state.len as int;
        let next = state.current as int + 1;
        if next == len {
            lemma_fundamental_div_mod_converse(next, len, 1, 0);
        } else {
            lemma_fundamental_div_mod_converse(next, len, 0, next);
        }
    }
}

/// Any series of calls leaves a playable state playable, with the same
/// frames and the same interval.
pub proof fn lemma_run_keeps_wf(state: PlaybackState, ticks: Seq<Tick>)
    requires
        state.wf(),
    ensures
        state.run(ticks).wf(),
        state.run(ticks).len == state.len,
        state.run(ticks).interval == state.interval,
    decreases ticks.len(),
{
    if ticks.len() > 0 {
        lemma_run_keeps_wf(state, ticks.drop_last());
        lemma_step_keeps_wf(state.run(ticks.drop_last()), ticks.last());
    }
}

/// While the animation is paused or hidden, no amount of elapsed time moves
/// it: after any number of calls the state is what it was.
pub proof fn lemma_paused_playback_stands_still(state: PlaybackState, ticks: Seq<Tick>)
    requires
        forall|i: int| 0 <= i < ticks.len() ==> ticks[i].paused || ticks[i].hidden,
    ensures
        state.run(ticks) == state,
    decreases ticks.len(),
{
    if ticks.len() > 0 {
        lemma_paused_playback_stands_still(state, ticks.drop_last());
    }
}

/// Calls that report no elapsed time change nothing, however many there
/// are, provided the interval is not zero. (With a zero interval every
/// call reaches the interval, and so every call moves on by a frame.)
pub proof fn lemma_zero_time_changes_nothing(state: PlaybackState, ticks: Seq<Tick>)
    requires
        state.wf(),
        state.interval > 0,
        forall|i: int| 0 <= i < ticks.len() ==> ticks[i].delta == 0,
    ensures
        state.run(ticks) == state,
    decreases ticks.len(),
{
    if ticks.len() > 0 {
        lemma_zero_time_changes_nothing(state, ticks.drop_last());
    }
}

/// Played from the start with calls that are never paused, never hidden and
/// never longer than one interval, the frame shown after a total time `T`
/// is number `(T / interval) % len`, and the timer holds `T % interval`.
pub proof fn lemma_frame_after_elapsed(len: nat, interval: nat, ticks: Seq<Tick>)
    requires
        len > 0,
        interval > 0,
        forall|i: int|
            0 <= i < ticks.len() ==> !ticks[i].paused && !ticks[i].hidden && ticks[i].delta
                <= interval,
    ensures
        PlaybackState::initial(len, interval).run(ticks).current == (total_elapsed(ticks)
            / interval) % len,
        PlaybackState::initial(len, interval).run(ticks).elapsed == total_elapsed(ticks)
            % interval,
    decreases ticks.len(),
{
    let start = PlaybackState::initial(len, interval);
    let span = interval as int;
    if ticks.len() == 0 {
        lemma_fundamental_div_mod_converse(0, span, 0, 0);
        lemma_fundamental_div_mod_converse(0, len as int, 0, 0);
    } else {
        let earlier = ticks.drop_last();
        let delta = ticks.last().delta as int;
        lemma_frame_after_elapsed(len, interval, earlier);
        lemma_run_keeps_wf(start, earlier);
        let before = start.run(earlier);
        let time = total_elapsed(earlier) as int;
        let whole = time / span;
        let rest = time % span;
        lemma_fundamental_div_mod(time, span);
        assert(time == whole * span + rest) by (nonlinear_arith)
            requires
                time == span * whole + rest,
        ;
        if rest + delta < span {
            lemma_fundamental_div_mod_converse(time + delta, span, whole, rest + delta);
        } else {
            assert(time + delta == (whole + 1) * span + (rest + delta - span))
                by (nonlinear_arith)
                requires
                    time == whole * span + rest,
            ;
            lemma_fundamental_div_mod_converse(
                time + delta,
                span,
                whole + 1,
                rest + delta - span,
            );
            lemma_fundamental_div_mod_converse(rest + delta, span, 1, rest + delta - span);
            lemma_add_mod_noop_right(1, whole, len as int);
        }
    }
}

/// The flags that the host's input handling sets and playback only reads.
#[derive(Clone, Copy, Debug, PartialEq, Eq, Structural)]
pub struct PlaybackControl {
    /// Playback is paused.
    pub paused: bool,
    /// The animation is not shown.
    pub hidden: bool,
}

/// A frame sequence being played. `H` is whatever the renderer hands out
/// for a frame; playback never looks inside it.
pub struct FrameAnimation<H> {
    frames: Vec<H>,
    current: usize,
    interval: u64,
    elapsed: u64,
}

impl<H> View for FrameAnimation<H> {
    type V = PlaybackState;

    closed spec fn view(&self) -> PlaybackState {
        PlaybackState {
            len: self.frames@.len(),
            current: self.current as nat,
            interval: self.interval as nat,
            elapsed: self.elapsed as nat,
        }
    }
}

impl<H> FrameAnimation<H> {
    #[verifier::type_invariant]
    spec fn inv(self) -> bool {
        self@.wf()
    }

    /// The frames, in playing order.
    pub closed spec fn frame_seq(self) -> Seq<H> {
        self.frames@
    }

    /// Sets the rate: the interval becomes `1000 / fps` milliseconds,
    /// rounded down, and the timer starts over from zero. The frames and
    /// the cursor stay as they are.
    pub fn set_fps(&mut self, fps: u32)
        requires
            fps > 0,
        ensures
            final(self)@ == (PlaybackState {
                interval: interval_for(fps),
                elapsed: 0,
                ..old(self)@
            }),
            final(self).frame_seq() == old(self).frame_seq(),
            final(self)@.wf(),
    {
        proof {
            use_type_invariant(&*self);
        }
        let millis: u64 = 1000 / (fps as u64);
        self.elapsed = 0;
        self.interval = millis * NANOS_PER_MILLI;
    }

    /// The frames, in playing order.
    pub fn frames(&self) -> (frames: &Vec<H>)
        ensures
            frames@ == self.frame_seq(),
            frames@.len() == self@.len,
            frames@.len() > 0,
    {
        proof {
            use_type_invariant(self);
        }
        &self.frames
    }

    /// The index of the frame shown.
    pub fn current(&self) -> (index: usize)
        ensures
            index == self@.current,
            index < self.frame_seq().len(),
    {
        proof {
            use_type_invariant(self);
        }
        self.current
    }

    /// The frame shown.
    pub fn current_frame(&self) -> (frame: &H)
        ensures
            *frame == self.frame_seq()[self@.current as int],
    {
        proof {
            use_type_invariant(self);
        }
        &self.frames[self.current]
    }

    /// The timer's interval, in nanoseconds.
    pub fn interval_nanos(&self) -> (nanos: u64)
        ensures
            nanos == self@.interval,
    {
        self.interval
    }

    /// The time that the timer has gathered towards the next frame, in
    /// nanoseconds.
    pub fn elapsed_nanos(&self) -> (nanos: u64)
        ensures
            nanos == self@.elapsed,
    {
        self.elapsed
    }
}

/// Starts playback of `frames` at `fps` frames per second: the first frame
/// is shown and the timer stands at zero. A sequence without frames is
/// refused with `EmptyResolvedSequence`; nothing is ever played from it.
pub fn setup_animation<H>(frames: Vec<H>, fps: u32) -> (r: Result<
    FrameAnimation<H>,
    ResolutionError,
>)
    requires
        fps > 0,
    ensures
        frames@.len() == 0 <==> r is Err,
        r matches Err(error) ==> error == ResolutionError::EmptyResolvedSequence,
        r matches Ok(anim) ==> {
            &&& anim@ == PlaybackState::initial(frames@.len(), interval_for(fps))
            &&& anim.frame_seq() == frames@
            &&& anim@.wf()
        },
{
    if frames.len() == 0 {
        return Err(ResolutionError::EmptyResolvedSequence);
    }
    let millis: u64 = 1000 / (fps as u64);
    Ok(FrameAnimation { frames, current: 0, interval: millis * NANOS_PER_MILLI, elapsed: 0 })
}

/// Advances playback by one call of the host's update loop.
///
/// Nothing happens while the animation is paused or hidden. Otherwise
/// `delta_nanos` is added to the timer; if that reaches the interval, the
/// cursor moves to the next frame, wrapping after the last, and the timer
/// keeps what is left over after whole intervals. The result is the index
/// of the frame to show now, if it changed.
pub fn animate_frames<H>(
    delta_nanos: u64,
    anim_ctl: &PlaybackControl,
    anim: &mut FrameAnimation<H>,
) -> (shown: Option<usize>)
    ensures
        final(anim)@ == old(anim)@.step(
            Tick { delta: delta_nanos as nat, paused: anim_ctl.paused, hidden: anim_ctl.hidden },
        ),
        final(anim).frame_seq() == old(anim).frame_seq(),
        shown == if !anim_ctl.paused && !anim_ctl.hidden && old(anim)@.fires(delta_nanos as nat) {
            Some(final(anim)@.current as usize)
        } else {
            None::<usize>
        },
        anim_ctl.paused || anim_ctl.hidden ==> final(anim)@ == old(anim)@,
        shown is Some ==> final(anim)@.current == if old(anim)@.current + 1 == old(anim)@.len {
            0
        } else {
            old(anim)@.current + 1
        },
        final(anim)@.wf(),
{
    proof {
        use_type_invariant(&*anim);
    }
    if anim_ctl.paused || anim_ctl.hidden {
        return None;
    }
    let total: u128 = anim.elapsed as u128 + delta_nanos as u128;
    if total >= anim.interval as u128 {
        let len: usize = anim.frames.len();
        let next: usize = if anim.current + 1 == len {
            0
        } else {
            anim.current + 1
        };
        let rest: u64 = if anim.interval == 0 {
            0
        } else {
            (total % (anim.interval as u128)) as u64
        };
        proof {
            let len = anim.frames@.len() as int;
            if anim.current + 1 == len {
                lemma_fundamental_div_mod_converse(anim.current + 1, len, 1, 0);
            } else {
                lemma_fundamental_div_mod_converse(anim.current + 1, len, 0, anim.current + 1);
            }
        }
        anim.current = next;
        anim.elapsed = rest;
        Some(next)
    } else {
        anim.elapsed = total as u64;
        None
    }
}

} // verus!
