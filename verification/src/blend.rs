//! The cross-fade between the old surface and a newly generated one.
//!
//! A blend factor travels between 0 and 1 and turns round at either end, for
//! as long as the surface is shown. The host adds the elapsed time to the
//! factor, and takes it away, in single precision; which of the two sums
//! counts, where the factor stops and when it turns is settled here, on bit
//! patterns.
use crate::binary32::{at_most, is_nan, le, less, rank, ONE, ZERO};
use vstd::prelude::*;

verus! {

/// The way the blend factor is travelling.
#[derive(Clone, Copy, Debug, PartialEq, Eq, Structural)]
pub enum Direction {
    /// Not travelling yet: the blend has been armed and has not ticked.
    Unset,
    /// Towards 1.
    Rising,
    /// Towards 0.
    Falling,
}

/// The blend factor, as the bit pattern of a single-precision number, and the
/// way it is travelling.
#[derive(Clone, Copy, Debug, PartialEq, Eq, Structural)]
pub struct BlendState {
    pub factor: u32,
    pub direction: Direction,
}

/// The direction that a tick travels in: towards 1 on the first tick, and
/// as the state says after it.
pub open spec fn heading_of(direction: Direction) -> Direction {
    if direction is Unset {
        Direction::Rising
    } else {
        direction
    }
}

/// The sum that counts on a tick: the raised one while rising, the lowered
/// one while falling.
pub open spec fn candidate_of(state: BlendState, raised: u32, lowered: u32) -> u32 {
    if heading_of(state.direction) is Rising {
        raised
    } else {
        lowered
    }
}

/// The state in which a tick ends that travelled in `heading` and reached
/// `candidate`. At 1 or beyond it the factor stops at 1 and turns to fall;
/// at 0 or beyond it the factor stops at 0 and turns to rise; between the
/// two, and for a NaN, it is the candidate, travelling on.
pub open spec fn settled(heading: Direction, candidate: u32) -> BlendState {
    if at_most(ONE, candidate) {
        BlendState { factor: ONE, direction: Direction::Falling }
    } else if at_most(candidate, ZERO) {
        BlendState { factor: ZERO, direction: Direction::Rising }
    } else {
        BlendState { factor: candidate, direction: heading }
    }
}

/// The state after one tick.
pub open spec fn next(state: BlendState, raised: u32, lowered: u32) -> BlendState {
    settled(heading_of(state.direction), candidate_of(state, raised, lowered))
}

/// The state after the first `ticks` ticks of a run, in which tick `k` is
/// given the sums `raised[k]` and `lowered[k]`.
pub open spec fn state_at(start: BlendState, raised: Seq<u32>, lowered: Seq<u32>, ticks: nat)
    -> BlendState
    decreases ticks,
{
    if ticks == 0 {
        start
    } else {
        next(
            state_at(start, raised, lowered, (ticks - 1) as nat),
            raised[ticks - 1],
            lowered[ticks - 1],
        )
    }
}

/// Whether the factor lies between 0 and 1.
pub open spec fn in_range(state: BlendState) -> bool {
    at_most(ZERO, state.factor) && at_most(state.factor, ONE)
}

/// Whether a tick moves the factor: the raised sum is above it and the
/// lowered sum below it, as they are when time has passed and the factor is
/// not too large for the time to register.
pub open spec fn moves(state: BlendState, raised: u32, lowered: u32) -> bool {
    less(state.factor, raised) && less(lowered, state.factor)
}

/// Whether every one of the first `ticks` ticks of a run moves the factor.
pub open spec fn keeps_moving(start: BlendState, raised: Seq<u32>, lowered: Seq<u32>, ticks: nat)
    -> bool {
    &&& ticks <= raised.len()
    &&& ticks <= lowered.len()
    &&& forall|k: nat|
        k < ticks ==> moves(#[trigger] state_at(start, raised, lowered, k), raised[k as int], lowered[k as int])
}

/// The factor at the upper end, turned to fall.
pub open spec fn at_top() -> BlendState {
    BlendState { factor: ONE, direction: Direction::Falling }
}

/// The factor at the lower end, turned to rise.
pub open spec fn at_bottom() -> BlendState {
    BlendState { factor: ZERO, direction: Direction::Rising }
}

/// The end that a state is travelling to, as the state in which it arrives.
pub open spec fn turning_point(state: BlendState) -> BlendState {
    if heading_of(state.direction) is Rising {
        at_top()
    } else {
        at_bottom()
    }
}

/// The most ticks that a moving factor takes from one end to the other: one
/// for each single-precision number from 0 to 1.
pub open spec fn longest_crossing() -> nat {
    (ONE + 1) as nat
}

impl BlendState {
    /// A blend that has been armed and has not ticked: the factor is 0.
    pub fn new() -> (state: Self)
        ensures
            state == (BlendState { factor: ZERO, direction: Direction::Unset }),
            in_range(state),
    {
        BlendState { factor: ZERO, direction: Direction::Unset }
    }

    /// The direction that the next tick travels in, which tells the sum that
    /// will count.
    pub fn heading(&self) -> (heading: Direction)
        ensures
            heading == heading_of(self.direction),
            !(heading is Unset),
    {
        match self.direction {
            Direction::Unset => Direction::Rising,
            Direction::Rising => Direction::Rising,
            Direction::Falling => Direction::Falling,
        }
    }

    /// One tick. `raised` is the factor with the elapsed time added, and
    /// `lowered` the factor with it taken away.
    ///
    /// The first tick sets the direction towards 1. The sum for the direction
    /// of travel becomes the factor, held between 0 and 1, and at either end
    /// the direction turns.
    pub fn update(&mut self, raised: u32, lowered: u32)
        ensures
            *final(self) == next(*old(self), raised, lowered),
            !(final(self).direction is Unset),
            !is_nan(candidate_of(*old(self), raised, lowered)) ==> in_range(*final(self)),
    {
        let heading: Direction = self.heading();
        let candidate: u32 = match heading {
            Direction::Rising => raised,
            _ => lowered,
        };
        if le(ONE, candidate) {
            self.factor = ONE;
            self.direction = Direction::Falling;
        } else if le(candidate, ZERO) {
            self.factor = ZERO;
            self.direction = Direction::Rising;
        } else {
            self.factor = candidate;
            self.direction = heading;
        }
    }
}

impl Default for BlendState {
    /// A blend that has been armed and has not ticked.
    fn default() -> (state: Self)
        ensures
            state == (BlendState { factor: ZERO, direction: Direction::Unset }),
    {
        BlendState::new()
    }
}

/// A tick on numbers leaves the factor between 0 and 1, and the direction
/// set.
pub proof fn tick_keeps_range(state: BlendState, raised: u32, lowered: u32)
    requires
        !is_nan(raised),
        !is_nan(lowered),
    ensures
        in_range(next(state, raised, lowered)),
        !(next(state, raised, lowered).direction is Unset),
{
}

/// The factor turns at either end: a rising tick that reaches 1 or more
/// leaves it at 1 and falling, a falling tick that reaches 0 or less leaves
/// it at 0 and rising.
pub proof fn tick_turns_at_the_ends(state: BlendState, raised: u32, lowered: u32)
    ensures
        heading_of(state.direction) is Rising && at_most(ONE, raised) ==> next(
            state,
            raised,
            lowered,
        ) == at_top(),
        heading_of(state.direction) is Falling && at_most(lowered, ZERO) ==> next(
            state,
            raised,
            lowered,
        ) == at_bottom(),
{
}

/// No state is a resting point: a tick that moves the factor of a state in
/// range changes the state, be it the factor or, at an end, the direction
/// alone.
pub proof fn tick_never_rests(state: BlendState, raised: u32, lowered: u32)
    requires
        in_range(state),
        moves(state, raised, lowered),
    ensures
        next(state, raised, lowered) != state,
        heading_of(state.direction) is Rising ==> rank(next(state, raised, lowered).factor) > rank(
            state.factor,
        ) || next(state, raised, lowered) == at_top(),
        heading_of(state.direction) is Falling ==> rank(next(state, raised, lowered).factor) < rank(
            state.factor,
        ) || next(state, raised, lowered) == at_bottom(),
{
}

/// A run that continues another: the state after `first + more` ticks is the
/// state that `more` ticks lead to from the state after `first`, on the sums
/// that are left.
pub proof fn run_continues(
    start: BlendState,
    raised: Seq<u32>,
    lowered: Seq<u32>,
    first: nat,
    more: nat,
)
    requires
        first + more <= raised.len(),
        first + more <= lowered.len(),
    ensures
        state_at(start, raised, lowered, first + more) == state_at(
            state_at(start, raised, lowered, first),
            raised.skip(first as int),
            lowered.skip(first as int),
            more,
        ),
    decreases more,
{
    if more > 0 {
        run_continues(start, raised, lowered, first, (more - 1) as nat);
        assert(raised.skip(first as int)[more - 1] == raised[first + more - 1]);
        assert(lowered.skip(first as int)[more - 1] == lowered[first + more - 1]);
    }
}

/// A moving factor arrives. From a state in range, a run of ticks that each
/// move the factor comes to the end that the state is travelling to, and
/// turns there, after `longest_crossing()` ticks at most; until then the
/// factor stays in range and the direction as it was.
pub proof fn run_reaches_turning_point(
    start: BlendState,
    raised: Seq<u32>,
    lowered: Seq<u32>,
    ticks: nat,
) -> (arrival: nat)
    requires
        in_range(start),
        keeps_moving(start, raised, lowered, ticks),
        ticks >= longest_crossing(),
    ensures
        1 <= arrival <= longest_crossing(),
        state_at(start, raised, lowered, arrival) == turning_point(start),
        forall|k: nat|
            k < arrival ==> in_range(#[trigger] state_at(start, raised, lowered, k)) && heading_of(
                state_at(start, raised, lowered, k).direction,
            ) == heading_of(start.direction),
{
    crossing(start, raised, lowered, ticks, 0)
}

/// The rest of a crossing that has not arrived after `done` ticks.
proof fn crossing(start: BlendState, raised: Seq<u32>, lowered: Seq<u32>, ticks: nat, done: nat)
    -> (arrival: nat)
    requires
        in_range(start),
        keeps_moving(start, raised, lowered, ticks),
        ticks >= longest_crossing(),
        done < longest_crossing(),
        forall|m: nat|
            m <= done ==> in_range(#[trigger] state_at(start, raised, lowered, m)) && heading_of(
                state_at(start, raised, lowered, m).direction,
            ) == heading_of(start.direction),
        heading_of(start.direction) is Rising ==> rank(
            state_at(start, raised, lowered, done).factor,
        ) >= done,
        heading_of(start.direction) is Falling ==> rank(
            state_at(start, raised, lowered, done).factor,
        ) <= ONE - done,
    ensures
        done < arrival <= longest_crossing(),
        state_at(start, raised, lowered, arrival) == turning_point(start),
        forall|k: nat|
            k < arrival ==> in_range(#[trigger] state_at(start, raised, lowered, k)) && heading_of(
                state_at(start, raised, lowered, k).direction,
            ) == heading_of(start.direction),
    decreases longest_crossing() - done,
{
    let here = state_at(start, raised, lowered, done);
    let there = state_at(start, raised, lowered, done + 1);
    assert(moves(here, raised[done as int], lowered[done as int]));
    assert(there == next(here, raised[done as int], lowered[done as int]));
    tick_never_rests(here, raised[done as int], lowered[done as int]);
    if there == turning_point(start) {
        done + 1
    } else {
        assert forall|m: nat| m <= done + 1 implies in_range(
            #[trigger] state_at(start, raised, lowered, m),
        ) && heading_of(state_at(start, raised, lowered, m).direction) == heading_of(
            start.direction,
        ) by {
            if m == done + 1 {
                assert(state_at(start, raised, lowered, m) == there);
            }
        }
        crossing(start, raised, lowered, ticks, done + 1)
    }
}

/// The blend oscillates. Armed at 0 and ticked for long enough with sums
/// that move the factor, it reaches 1 and turns to fall, then reaches 0 and
/// turns to rise, then reaches 1 again: it has no state in which it stays.
pub proof fn blend_oscillates(raised: Seq<u32>, lowered: Seq<u32>, ticks: nat) -> (turns: (
    nat,
    nat,
    nat,
))
    requires
        keeps_moving(
            BlendState { factor: ZERO, direction: Direction::Unset },
            raised,
            lowered,
            ticks,
        ),
        ticks >= 3 * longest_crossing(),
    ensures
        0 < turns.0 < turns.1 < turns.2 <= ticks,
        state_at(
            BlendState { factor: ZERO, direction: Direction::Unset },
            raised,
            lowered,
            turns.0,
        ) == at_top(),
        state_at(
            BlendState { factor: ZERO, direction: Direction::Unset },
            raised,
            lowered,
            turns.1,
        ) == at_bottom(),
        state_at(
            BlendState { factor: ZERO, direction: Direction::Unset },
            raised,
            lowered,
            turns.2,
        ) == at_top(),
{
    let start = BlendState { factor: ZERO, direction: Direction::Unset };
    let up = run_reaches_turning_point(start, raised, lowered, ticks);
    let down = next_turn(start, raised, lowered, ticks, up);
    let up_again = next_turn(start, raised, lowered, ticks, down);
    (up, down, up_again)
}

/// From a tick at which the run stands at an end, turned round, it comes to
/// the other end, and turns there, `longest_crossing()` ticks later at most.
proof fn next_turn(start: BlendState, raised: Seq<u32>, lowered: Seq<u32>, ticks: nat, from: nat)
    -> (arrival: nat)
    requires
        keeps_moving(start, raised, lowered, ticks),
        from + longest_crossing() <= ticks,
        state_at(start, raised, lowered, from) == at_top() || state_at(
            start,
            raised,
            lowered,
            from,
        ) == at_bottom(),
    ensures
        from < arrival <= from + longest_crossing(),
        state_at(start, raised, lowered, arrival) == turning_point(
            state_at(start, raised, lowered, from),
        ),
{
    let here = state_at(start, raised, lowered, from);
    let raised_left = raised.skip(from as int);
    let lowered_left = lowered.skip(from as int);
    let left: nat = (ticks - from) as nat;
    assert forall|k: nat| k < left implies moves(
        #[trigger] state_at(here, raised_left, lowered_left, k),
        raised_left[k as int],
        lowered_left[k as int],
    ) by {
        run_continues(start, raised, lowered, from, k);
        assert(moves(
            state_at(start, raised, lowered, from + k),
            raised[(from + k) as int],
            lowered[(from + k) as int],
        ));
    }
    let steps = run_reaches_turning_point(here, raised_left, lowered_left, left);
    run_continues(start, raised, lowered, from, steps);
    from + steps
}

} // verus!
