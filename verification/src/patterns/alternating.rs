//! Two colours of a palette of pairs on the even and the odd pixels, swapped
//! on every frame; the next pair is taken every thirty seconds.

use vstd::prelude::*;
use crate::clock::{now_ticks, ticks_per_second};
use crate::colors::{BLUE, DARK_VIOLET, GREEN, ORANGE, RED};
use crate::pixel::Pixel;

verus! {

/// Frame period, in milliseconds.
pub const DURATION_MS: u64 = 400;

/// How long one pair of colours stays, in seconds.
pub const COLOR_CYCLE_SECS: u64 = 30;

/// Number of pairs in the palette.
pub const PALETTE_LEN: usize = 7;

/// The pairs of colours, in the order in which the strip takes them.
pub const COLOR_PALETTE: [[u32; 2]; 7] = [
    [RED, GREEN],
    [BLUE, RED],
    [DARK_VIOLET, BLUE],
    [GREEN, DARK_VIOLET],
    [ORANGE, GREEN],
    [BLUE, ORANGE],
    [GREEN, BLUE],
];

/// Which colour of the pair the next frame puts on the even pixels: the
/// first for `Forward`, the second for `Reverse`.
#[derive(Clone, Copy, Debug, PartialEq, Eq, Structural)]
pub enum AlternatingOrder {
    Forward,
    Reverse,
}

/// What an `AlternatingState` holds, as plain values. The time of the last
/// change of pair is a reading of the clock, in ticks.
pub struct AlternatingModel {
    pub palette_index: usize,
    pub order: AlternatingOrder,
    pub last_cycle_time: u64,
}

/// The pattern's progress, kept from frame to frame.
pub struct AlternatingState {
    palette_index: usize,
    order: AlternatingOrder,
    last_cycle_time: u64,
}

/// The first colour of the pair at `index`.
pub open spec fn first_color(index: int) -> Pixel
    recommends
        0 <= index < PALETTE_LEN,
{
    Pixel::from_code(COLOR_PALETTE@[index]@[0])
}

/// The second colour of the pair at `index`.
pub open spec fn second_color(index: int) -> Pixel
    recommends
        0 <= index < PALETTE_LEN,
{
    Pixel::from_code(COLOR_PALETTE@[index]@[1])
}

/// The other order.
pub open spec fn flipped(order: AlternatingOrder) -> AlternatingOrder {
    match order {
        AlternatingOrder::Forward => AlternatingOrder::Reverse,
        AlternatingOrder::Reverse => AlternatingOrder::Forward,
    }
}

/// The number of ticks in the time that one pair stays, on a clock of `hz`
/// ticks per second; as many as a tick count can hold if that is fewer.
pub open spec fn cycle_ticks(hz: u64) -> u64 {
    if COLOR_CYCLE_SECS * hz > u64::MAX {
        u64::MAX
    } else {
        (COLOR_CYCLE_SECS * hz) as u64
    }
}

/// Whether the pair has stayed its time: at least `cycle` ticks lie between
/// the last change and `now`.
pub open spec fn cycle_due(s: AlternatingModel, now: u64, cycle: u64) -> bool {
    now - s.last_cycle_time >= cycle
}

/// The first pair, first colour on the even pixels, taken at `now`.
pub open spec fn alternating_start(now: u64) -> AlternatingModel {
    AlternatingModel { palette_index: 0, order: AlternatingOrder::Forward, last_cycle_time: now }
}

/// The state after a frame rendered at clock reading `now`: the next pair
/// is taken, and the time noted, if the current one has stayed its time; the
/// order flips in any case.
pub open spec fn alternating_step(s: AlternatingModel, now: u64, cycle: u64) -> AlternatingModel {
    if cycle_due(s, now, cycle) {
        AlternatingModel {
            palette_index: ((s.palette_index + 1) % PALETTE_LEN as int) as usize,
            order: flipped(s.order),
            last_cycle_time: now,
        }
    } else {
        AlternatingModel {
            palette_index: s.palette_index,
            order: flipped(s.order),
            last_cycle_time: s.last_cycle_time,
        }
    }
}

/// The colour of pixel `index` in the frame that left the state at `s`: if
/// the order is now `Reverse`, the even pixels hold the pair's first colour
/// and the odd ones its second; if it is `Forward`, the other way round.
pub open spec fn alternating_pixel(s: AlternatingModel, index: int) -> Pixel {
    if (s.order == AlternatingOrder::Reverse) == (index % 2 == 0) {
        first_color(s.palette_index as int)
    } else {
        second_color(s.palette_index as int)
    }
}

/// The frame that left the state at `s`.
pub open spec fn alternating_frame(len: nat, s: AlternatingModel) -> Seq<Pixel> {
    Seq::new(len, |i: int| alternating_pixel(s, i))
}

impl View for AlternatingState {
    type V = AlternatingModel;

    closed spec fn view(&self) -> AlternatingModel {
        AlternatingModel {
            palette_index: self.palette_index,
            order: self.order,
            last_cycle_time: self.last_cycle_time,
        }
    }
}

impl AlternatingState {
    #[verifier::type_invariant]
    spec fn well_formed(self) -> bool {
        self.palette_index < PALETTE_LEN
    }

    /// The first pair, taken at clock reading `now`.
    pub fn starting_at(now: u64) -> (state: AlternatingState)
        ensures
            state@ == alternating_start(now),
    {
        AlternatingState { palette_index: 0, order: AlternatingOrder::Forward, last_cycle_time: now }
    }

    /// Where in the palette the current pair stands.
    pub fn palette_index(&self) -> (index: usize)
        ensures
            index == self@.palette_index,
            index < PALETTE_LEN,
    {
        proof {
            use_type_invariant(self);
        }
        self.palette_index
    }

    /// Which colour the next frame puts on the even pixels.
    pub fn order(&self) -> (order: AlternatingOrder)
        ensures
            order == self@.order,
    {
        self.order
    }

    /// The clock reading at which the current pair was taken, in ticks.
    pub fn last_cycle_time(&self) -> (ticks: u64)
        ensures
            ticks == self@.last_cycle_time,
    {
        self.last_cycle_time
    }
}

impl Default for AlternatingState {
    /// The first pair, taken now.
    fn default() -> (state: AlternatingState)
        ensures
            state@.palette_index == 0,
            state@.order == AlternatingOrder::Forward,
    {
        AlternatingState::starting_at(now_ticks())
    }
}

/// The time that one pair stays, in ticks of a clock of `hz` ticks per
/// second.
pub fn cycle_period(hz: u64) -> (ticks: u64)
    ensures
        ticks == cycle_ticks(hz),
{
    if hz > u64::MAX / COLOR_CYCLE_SECS {
        u64::MAX
    } else {
        COLOR_CYCLE_SECS * hz
    }
}

/// Renders the frame for clock reading `now`, where one pair stays for
/// `cycle` ticks: takes the next pair if the current one has stayed its time,
/// puts the pair's two colours on the even and the odd pixels, and flips the
/// order for the next frame.
pub fn generate_at(data: &mut [Pixel], state: &mut AlternatingState, now: u64, cycle: u64)
    ensures
        final(state)@ == alternating_step(old(state)@, now, cycle),
        final(state)@.palette_index < PALETTE_LEN,
        final(data)@ == alternating_frame(old(data)@.len(), final(state)@),
{
    proof {
        use_type_invariant(&*state);
    }
    let due = now >= state.last_cycle_time && now - state.last_cycle_time >= cycle;
    let palette_index: usize = if due {
        (state.palette_index + 1) % PALETTE_LEN
    } else {
        state.palette_index
    };
    let last_cycle_time: u64 = if due {
        now
    } else {
        state.last_cycle_time
    };
    let first = Pixel::from_hex(COLOR_PALETTE[palette_index][0]);
    let second = Pixel::from_hex(COLOR_PALETTE[palette_index][1]);
    let (on_even, on_odd, order) = match state.order {
        AlternatingOrder::Forward => (first, second, AlternatingOrder::Reverse),
        AlternatingOrder::Reverse => (second, first, AlternatingOrder::Forward),
    };
    *state = AlternatingState { palette_index, order, last_cycle_time };

    let len: usize = data.len();
    let mut i: usize = 0;
    while i < len
        invariant
            i <= len,
            len == old(data)@.len(),
            data@.len() == len,
            on_even == alternating_pixel(state@, 0),
            on_odd == alternating_pixel(state@, 1),
            forall|j: int| 0 <= j < i ==> data@[j] == alternating_pixel(state@, j),
        decreases len - i,
    {
        data[i] = if i % 2 == 0 {
            on_even
        } else {
            on_odd
        };
        i += 1;
    }
    assert(data@ =~= alternating_frame(old(data)@.len(), state@));
}

/// Renders one frame at the time the clock shows. Whatever the clock
/// shows, the order flips and the frame holds the two colours of the pair
/// that the state then names; the pair is either the one before or, if the
/// clock says that it has stayed its time, the next.
pub fn generate(data: &mut [Pixel], state: &mut AlternatingState)
    ensures
        exists|now: u64, hz: u64|
            final(state)@ == #[trigger] alternating_step(old(state)@, now, cycle_ticks(hz)),
        final(state)@.palette_index < PALETTE_LEN,
        final(data)@ == alternating_frame(old(data)@.len(), final(state)@),
{
    let now = now_ticks();
    let hz = ticks_per_second();
    generate_at(data, state, now, cycle_period(hz));
}

/// The pixels alternate: in every frame all even pixels hold one colour of
/// the current pair and all odd pixels the other.
pub proof fn lemma_alternating_parity(s: AlternatingModel, index: int, other: int)
    ensures
        index % 2 == other % 2 ==> alternating_pixel(s, index) == alternating_pixel(s, other),
        index % 2 == 0 && other % 2 != 0 ==> {
            ||| (alternating_pixel(s, index) == first_color(s.palette_index as int)
                && alternating_pixel(s, other) == second_color(s.palette_index as int))
            ||| (alternating_pixel(s, index) == second_color(s.palette_index as int)
                && alternating_pixel(s, other) == first_color(s.palette_index as int))
        },
{
}

/// The parity flips on every frame: in the frame after `s`, whenever it is
/// rendered, a pixel holds the colour that its neighbour would have had if
/// the order had stayed, so that while the pair stays the two colours swap
/// between the even and the odd pixels from each frame to the next.
pub proof fn lemma_alternating_flips(s: AlternatingModel, now: u64, cycle: u64, index: int)
    ensures
        alternating_step(s, now, cycle).order == flipped(s.order),
        !cycle_due(s, now, cycle) ==> alternating_pixel(alternating_step(s, now, cycle), index)
            == alternating_pixel(s, index + 1),
{
}

/// The pair changes only when it has stayed its time: a frame rendered
/// fewer than `cycle` ticks after the last change keeps the pair and the
/// noted time, and one rendered later takes the next pair, around the
/// palette, and notes its own time. Thirty seconds are `cycle_ticks(hz)`
/// ticks of a clock of `hz` ticks per second.
pub proof fn lemma_alternating_pair_stays(s: AlternatingModel, now: u64, cycle: u64)
    ensures
        now - s.last_cycle_time < cycle ==> alternating_step(s, now, cycle).palette_index
            == s.palette_index && alternating_step(s, now, cycle).last_cycle_time
            == s.last_cycle_time,
        now - s.last_cycle_time >= cycle ==> alternating_step(s, now, cycle).palette_index == (
        s.palette_index + 1) % PALETTE_LEN as int && alternating_step(
            s,
            now,
            cycle,
        ).last_cycle_time == now,
{
}

} // verus!
