//! The simulation clock: elapsed time is collected for two tickers, and
//! each fires its step of the world once per full interval, keeping the
//! remainder for later. Time is counted in whole nanoseconds.

use crate::model::{EndReason, Status, WorldState};
use crate::wellformed::{lemma_steps_of_ended, lemma_steps_split};
use crate::world::World;
use rand::rngs::StdRng;
use vstd::prelude::*;

verus! {

/// The time between two movement steps, 0.45 s.
pub const MOVE_INTERVAL_NANOS: u64 = 450_000_000;

/// The time between two food steps, 3 s.
pub const FOOD_INTERVAL_NANOS: u64 = 3_000_000_000;

/// A clock as a mathematical value: the time each ticker has collected
/// since it last fired.
pub struct ClockState {
    pub move_elapsed: nat,
    pub food_elapsed: nat,
}

impl ClockState {
    /// Neither ticker holds a full interval.
    pub open spec fn wf(self) -> bool {
        self.move_elapsed < MOVE_INTERVAL_NANOS && self.food_elapsed < FOOD_INTERVAL_NANOS
    }

    /// A clock that has collected no time.
    pub open spec fn zero() -> ClockState {
        ClockState { move_elapsed: 0, food_elapsed: 0 }
    }

    /// How many movement steps are due once `elapsed` more nanoseconds
    /// have passed.
    pub open spec fn move_ticks(self, elapsed: nat) -> nat {
        (self.move_elapsed + elapsed) / (MOVE_INTERVAL_NANOS as nat)
    }

    /// How many food steps are due once `elapsed` more nanoseconds have
    /// passed.
    pub open spec fn food_ticks(self, elapsed: nat) -> nat {
        (self.food_elapsed + elapsed) / (FOOD_INTERVAL_NANOS as nat)
    }

    /// The clock after `elapsed` more nanoseconds, all due steps fired.
    pub open spec fn after(self, elapsed: nat) -> ClockState {
        ClockState {
            move_elapsed: (self.move_elapsed + elapsed) % (MOVE_INTERVAL_NANOS as nat),
            food_elapsed: (self.food_elapsed + elapsed) % (FOOD_INTERVAL_NANOS as nat),
        }
    }
}

/// `after` is a world that may be left when, on `before`, `moves`
/// movement steps fire and then `foods` food steps. Food steps after the
/// first change nothing, so one stands for all of them.
pub open spec fn ticks_lead_to(
    before: WorldState,
    moves: nat,
    foods: nat,
    after: WorldState,
) -> bool {
    if foods == 0 {
        after == before.steps(moves)
    } else {
        before.steps(moves).spawns_into(after)
    }
}

/// How many steps of each kind are due.
#[derive(Clone, Copy, Debug, PartialEq, Eq, Structural)]
pub struct Ticks {
    pub moves: u64,
    pub foods: u64,
}

/// The simulation clock.
pub struct Clock {
    move_elapsed: u64,
    food_elapsed: u64,
}

impl View for Clock {
    type V = ClockState;

    closed spec fn view(&self) -> ClockState {
        ClockState {
            move_elapsed: self.move_elapsed as nat,
            food_elapsed: self.food_elapsed as nat,
        }
    }
}

impl Clock {
    /// The invariant of the type: neither ticker holds a full interval.
    #[verifier::type_invariant]
    pub open spec fn wf(&self) -> bool {
        self@.wf()
    }

    /// A clock that has collected no time.
    pub fn new() -> (clock: Clock)
        ensures
            clock@ == ClockState::zero(),
    {
        Clock { move_elapsed: 0, food_elapsed: 0 }
    }

    /// The nanoseconds collected since the last movement step fired.
    pub fn move_elapsed_nanos(&self) -> (nanos: u64)
        ensures
            nanos == self@.move_elapsed,
    {
        self.move_elapsed
    }

    /// The nanoseconds collected since the last food step fired.
    pub fn food_elapsed_nanos(&self) -> (nanos: u64)
        ensures
            nanos == self@.food_elapsed,
    {
        self.food_elapsed
    }

    /// Forgets the time collected so far.
    pub fn reset(&mut self)
        ensures
            final(self)@ == ClockState::zero(),
    {
        proof {
            use_type_invariant(&*self);
        }
        self.move_elapsed = 0;
        self.food_elapsed = 0;
    }

    /// Adds `elapsed_nanos` to both tickers and takes from each the full
    /// intervals it then holds. Returns how many there were of each.
    pub fn tick(&mut self, elapsed_nanos: u64) -> (due: Ticks)
        ensures
            final(self)@ == old(self)@.after(elapsed_nanos as nat),
            due.moves == old(self)@.move_ticks(elapsed_nanos as nat),
            due.foods == old(self)@.food_ticks(elapsed_nanos as nat),
    {
        proof {
            use_type_invariant(&*self);
        }
        let move_total: u128 = self.move_elapsed as u128 + elapsed_nanos as u128;
        let food_total: u128 = self.food_elapsed as u128 + elapsed_nanos as u128;
        let moves: u128 = move_total / (MOVE_INTERVAL_NANOS as u128);
        let foods: u128 = food_total / (FOOD_INTERVAL_NANOS as u128);
        self.move_elapsed = (move_total % (MOVE_INTERVAL_NANOS as u128)) as u64;
        self.food_elapsed = (food_total % (FOOD_INTERVAL_NANOS as u128)) as u64;
        Ticks { moves: moves as u64, foods: foods as u64 }
    }

    /// Starts a session over: the world back to its initial state, the
    /// clock back to zero.
    pub fn restart(&mut self, world: &mut World)
        ensures
            final(self)@ == ClockState::zero(),
            final(world)@ == WorldState::initial(old(world)@.grid),
            final(world)@.wf(),
    {
        world.restart();
        self.reset();
    }

    /// Lets `elapsed_nanos` pass. Once the session has ended nothing
    /// happens. Otherwise both tickers collect the time; for each full
    /// movement interval one movement step fires, then a food step if at
    /// least one full food interval was collected. Returns the reason if
    /// the session ended.
    pub fn advance(
        &mut self,
        elapsed_nanos: u64,
        world: &mut World,
        rng: &mut StdRng,
    ) -> (ended: Option<EndReason>)
        ensures
            final(world)@.wf(),
            old(world)@.status != Status::Running ==> {
                &&& final(self)@ == old(self)@
                &&& final(world)@ == old(world)@
                &&& ended is None
            },
            old(world)@.status == Status::Running ==> {
                &&& final(self)@ == old(self)@.after(elapsed_nanos as nat)
                &&& ticks_lead_to(
                    old(world)@,
                    old(self)@.move_ticks(elapsed_nanos as nat),
                    old(self)@.food_ticks(elapsed_nanos as nat),
                    final(world)@,
                )
                &&& ended == final(world)@.end_reason()
            },
    {
        proof {
            use_type_invariant(&*world);
        }
        if !world.is_running() {
            return None;
        }
        let due = self.tick(elapsed_nanos);
        let mut fired: u64 = 0;
        while fired < due.moves && world.is_running()
            invariant
                fired <= due.moves,
                world@ == old(world)@.steps(fired as nat),
            decreases due.moves - fired,
        {
            world.step();
            fired += 1;
        }
        proof {
            let before = old(world)@;
            lemma_steps_split(before, fired as nat, (due.moves - fired) as nat);
            if fired < due.moves {
                lemma_steps_of_ended(world@, (due.moves - fired) as nat);
            }
            assert(world@ == before.steps(due.moves as nat));
            use_type_invariant(&*world);
        }
        let ended = world.end_reason();
        if due.foods > 0 {
            world.maybe_spawn_food(rng);
        }
        ended
    }
}

} // verus!
