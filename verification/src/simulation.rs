//! The whole game state and its step function: keys come in, time passes,
//! and when a step is due the head moves, the body follows and the growth
//! that was asked for is applied.

use vstd::prelude::*;
use crate::chain::{
    contiguous, grown, lemma_grown_contiguous, lemma_grown_len, lemma_one_head,
    lemma_propagated_contiguous, propagated, Chain, Pose,
};
use crate::control::{steered, HeadController, KeysPressed};
use crate::grid::{Direction, GridCell};
use crate::growth::GrowthQueue;
use crate::render::{render_items, render_of, RenderItem};
use crate::scheduler::Scheduler;

verus! {

/// The time between two steps of the game logic, in microseconds.
pub const STEP_PERIOD: u64 = 500_000;

/// The game state as plain values: the body from head to tail, what the
/// player asked for since the last step, and the clock.
pub struct GameState {
    pub body: Seq<Pose>,
    pub pending_direction: Direction,
    pub pending_growth: nat,
    pub period: nat,
    pub elapsed: nat,
}

/// The state after the keys of one frame were handled: the space key asks
/// for one more segment, the steering keys replace the pending direction.
pub open spec fn after_keys(state: GameState, keys: KeysPressed) -> GameState {
    GameState {
        pending_direction: steered(state.pending_direction, keys),
        pending_growth: if keys.space {
            state.pending_growth + 1
        } else {
            state.pending_growth
        },
        ..state
    }
}

/// The state after one step of the game logic: the body moves with the head
/// steered as pending, then grows by what was asked for. The pending
/// direction stays, the growth requests are used up, the clock is left
/// alone.
pub open spec fn after_step(state: GameState) -> GameState {
    GameState {
        body: grown(propagated(state.body, state.pending_direction), state.pending_growth),
        pending_growth: 0,
        ..state
    }
}

/// The state after `delta` microseconds passed: if the clock reaches the
/// period, one step is taken and the clock starts again from zero;
/// otherwise only the clock moves.
pub open spec fn after_time(state: GameState, delta: nat) -> GameState {
    if state.elapsed + delta >= state.period {
        GameState { elapsed: 0, ..after_step(state) }
    } else {
        GameState { elapsed: state.elapsed + delta, ..state }
    }
}

/// What one frame brings: the keys that went down and the time it took, in
/// microseconds.
#[derive(Clone, Copy, Debug, PartialEq, Eq)]
pub struct Frame {
    pub keys: KeysPressed,
    pub delta: u64,
}

/// The state after one frame: first the keys are handled, then the time
/// passes.
pub open spec fn after_frame(state: GameState, frame: Frame) -> GameState {
    after_time(after_keys(state, frame.keys), frame.delta as nat)
}

/// The state after a run of frames, the first of them first.
pub open spec fn after_frames(state: GameState, frames: Seq<Frame>) -> GameState
    decreases frames.len(),
{
    if frames.len() == 0 {
        state
    } else {
        after_frame(after_frames(state, frames.drop_last()), frames.last())
    }
}

/// The game: chain, growth queue, head controller and scheduler, owned
/// together so that only a step changes the chain.
pub struct Simulation {
    chain: Chain,
    growth: GrowthQueue,
    head: HeadController,
    scheduler: Scheduler,
}

impl View for Simulation {
    type V = GameState;

    closed spec fn view(&self) -> GameState {
        GameState {
            body: self.chain@,
            pending_direction: self.head@,
            pending_growth: self.growth@,
            period: self.scheduler.period() as nat,
            elapsed: self.scheduler.elapsed() as nat,
        }
    }
}

impl Simulation {
    /// The chain of this game.
    pub closed spec fn spec_chain(&self) -> Chain {
        self.chain
    }

    /// The chain is well formed.
    pub open spec fn wf(&self) -> bool {
        self.spec_chain().wf()
    }

    /// A game whose snake has `length` segments, the head at `position`,
    /// all facing `facing`, which is also the direction of the first step.
    /// A step is due every `period` microseconds.
    pub fn new(position: GridCell, facing: Direction, length: usize, period: u64) -> (game:
        Simulation)
        requires
            length >= 1,
        ensures
            game.wf(),
            game@ == (GameState {
                body: grown(seq![Pose { cell: position, direction: facing }], (length - 1) as nat),
                pending_direction: facing,
                pending_growth: 0,
                period: period as nat,
                elapsed: 0,
            }),
            game@.body.len() == length,
    {
        Simulation {
            chain: Chain::with_length(position, facing, length),
            growth: GrowthQueue::new(),
            head: HeadController::new(facing),
            scheduler: Scheduler::new(period),
        }
    }

    /// The chain, for reading.
    pub fn chain(&self) -> (chain: &Chain)
        ensures
            *chain == self.spec_chain(),
            chain@ == self@.body,
            self.wf() ==> chain.wf(),
    {
        &self.chain
    }

    /// The number of growth requests that wait for the next step.
    pub fn pending_growth(&self) -> (n: usize)
        ensures
            n == self@.pending_growth,
    {
        self.growth.len()
    }

    /// The direction the head will take at the next step.
    pub fn pending_direction(&self) -> (direction: Direction)
        ensures
            direction == self@.pending_direction,
    {
        self.head.take_pending_direction()
    }

    /// The time counted since the last step, in microseconds.
    pub fn elapsed(&self) -> (e: u64)
        ensures
            e == self@.elapsed,
    {
        self.scheduler.elapsed()
    }

    /// Replaces the pending direction.
    pub fn set_pending_direction(&mut self, direction: Direction)
        ensures
            final(self)@ == (GameState { pending_direction: direction, ..old(self)@ }),
            final(self).spec_chain() == old(self).spec_chain(),
    {
        self.head.set_pending_direction(direction);
    }

    /// Asks for one more segment at the next step.
    pub fn enqueue_growth(&mut self)
        ensures
            final(self)@ == (GameState {
                pending_growth: old(self)@.pending_growth + 1,
                ..old(self)@
            }),
            final(self).spec_chain() == old(self).spec_chain(),
    {
        self.growth.enqueue_growth();
    }

    /// Handles the keys that went down in one frame. The chain is not
    /// touched: keys only change what the next step will do.
    pub fn keyboard(&mut self, keys: &KeysPressed)
        ensures
            final(self)@ == after_keys(old(self)@, *keys),
            final(self).spec_chain() == old(self).spec_chain(),
    {
        if keys.space {
            self.growth.enqueue_growth();
        }
        self.head.steer(keys);
    }

    /// Takes one step of the game logic, whatever the clock says.
    pub fn tick(&mut self)
        requires
            old(self).wf(),
        ensures
            final(self).wf(),
            final(self)@ == after_step(old(self)@),
    {
        let direction: Direction = self.head.take_pending_direction();
        self.chain.propagate(direction);
        self.growth.drain_and_apply(&mut self.chain);
    }

    /// Lets `delta` microseconds pass and takes a step if one is due.
    /// Returns whether it did. At most one step is taken per call.
    pub fn advance(&mut self, delta: u64) -> (stepped: bool)
        requires
            old(self).wf(),
        ensures
            final(self).wf(),
            stepped == (old(self)@.elapsed + delta >= old(self)@.period),
            final(self)@ == after_time(old(self)@, delta as nat),
    {
        let due: bool = self.scheduler.advance(delta);
        if due {
            self.tick();
        }
        due
    }

    /// Plays one frame: handles its keys, lets its time pass and takes a
    /// step if one is due. Returns whether it did.
    pub fn frame(&mut self, frame: &Frame) -> (stepped: bool)
        requires
            old(self).wf(),
        ensures
            final(self).wf(),
            stepped == (old(self)@.elapsed + frame.delta >= old(self)@.period),
            final(self)@ == after_frame(old(self)@, *frame),
    {
        self.keyboard(&frame.keys);
        self.advance(frame.delta)
    }

    /// Plays a run of frames in order. Whatever the frames hold, the chain
    /// is well formed afterwards.
    pub fn run(&mut self, frames: &Vec<Frame>)
        requires
            old(self).wf(),
        ensures
            final(self).wf(),
            final(self)@ == after_frames(old(self)@, frames@),
    {
        let n: usize = frames.len();
        let mut i: usize = 0;
        while i < n
            invariant
                n == frames@.len(),
                i <= n,
                self.wf(),
                self@ == after_frames(old(self)@, frames@.take(i as int)),
            decreases n - i,
        {
            assert(frames@.take(i + 1).drop_last() =~= frames@.take(i as int));
            self.frame(&frames[i]);
            i += 1;
        }
        assert(frames@.take(n as int) =~= frames@);
    }

    /// The records a renderer draws, head first.
    pub fn render(&self) -> (items: Vec<RenderItem>)
        requires
            self.wf(),
        ensures
            items@ == render_of(self@.body),
    {
        render_items(&self.chain)
    }
}

/// A well-formed game has a body of at least one segment.
pub proof fn lemma_body_not_empty(game: Simulation)
    requires
        game.wf(),
    ensures
        game@.body.len() >= 1,
{
    lemma_one_head(game.chain);
}

/// A step adds exactly as many segments as were asked for, and uses the
/// requests up.
pub proof fn lemma_step_length(state: GameState)
    ensures
        after_step(state).body.len() == state.body.len() + state.pending_growth,
        after_step(state).pending_growth == 0,
{
    lemma_grown_len(propagated(state.body, state.pending_direction), state.pending_growth);
}

/// Keys, steps and the passing of time keep a gap-free body gap-free.
pub proof fn lemma_body_stays_contiguous(state: GameState, keys: KeysPressed, delta: nat)
    requires
        state.body.len() >= 1,
        contiguous(state.body),
    ensures
        contiguous(after_keys(state, keys).body),
        contiguous(after_step(state).body),
        contiguous(after_time(state, delta).body),
{
    lemma_propagated_contiguous(state.body, state.pending_direction);
    lemma_grown_contiguous(
        propagated(state.body, state.pending_direction),
        state.pending_growth,
    );
}

/// However many frames are played and whatever they hold, the body never
/// gets shorter and a gap-free body stays gap-free.
pub proof fn lemma_frames_keep_body(state: GameState, frames: Seq<Frame>)
    requires
        state.body.len() >= 1,
        contiguous(state.body),
    ensures
        after_frames(state, frames).body.len() >= state.body.len(),
        contiguous(after_frames(state, frames).body),
    decreases frames.len(),
{
    if frames.len() > 0 {
        lemma_frames_keep_body(state, frames.drop_last());
        let before = after_frames(state, frames.drop_last());
        let keyed = after_keys(before, frames.last().keys);
        lemma_step_length(keyed);
        lemma_body_stays_contiguous(keyed, frames.last().keys, frames.last().delta as nat);
    }
}

/// Time that does not reach the period changes nothing but the clock; in
/// particular no time at all, on a clock that is short of its period,
/// changes nothing.
pub proof fn lemma_idle_time(state: GameState, delta: nat)
    requires
        state.elapsed + delta < state.period,
    ensures
        after_time(state, delta) == (GameState { elapsed: state.elapsed + delta, ..state }),
        delta == 0 ==> after_time(state, delta) == state,
{
}

} // verus!
