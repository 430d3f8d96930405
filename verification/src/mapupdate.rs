//! Keyboard-driven selection among the loaded elevation tiles.
//!
//! One key steps the active tile index up, another down.  A fresh key
//! press always steps immediately; a held key repeats at a fixed cadence
//! of one step per 90 milliseconds, driven by a repeating timer.  The
//! index saturates at both ends of the tile range — it never wraps and
//! never leaves `0..=108`.  A text widget shows the current index and is
//! rewritten only when the index actually changed.

use vstd::prelude::*;

use vstd::arithmetic::div_mod::lemma_mod_multiples_vanish;

verus! {

/// The typematic repeat period of a held key, in milliseconds.
pub const KEY_REPEAT_MS: u64 = 90;

/// The highest selectable tile index (109 tiles, zero-based).
pub const MAX_MAP_INDEX: usize = 108;

/// The currently selected tile.
#[derive(Debug, Clone, Copy, PartialEq, Eq, Structural)]
pub struct CurrentMap {
    pub index: usize,
}

impl Default for CurrentMap {
    fn default() -> (r: Self)
        ensures
            r.index == 0,
    {
        CurrentMap { index: 0 }
    }
}

/// A repeating timer's elapsed time after adding a tick: total elapsed
/// time modulo the period.
pub open spec fn spec_timer_next(elapsed: int, delta: int) -> int {
    (elapsed + delta) % (KEY_REPEAT_MS as int)
}

/// True when adding a tick completes the period at least once.
pub open spec fn spec_timer_finishes(elapsed: int, delta: int) -> bool {
    elapsed + delta >= KEY_REPEAT_MS
}

/// The repeating timer that throttles held-key input.
#[derive(Debug, Clone, Copy, PartialEq, Eq, Structural)]
pub struct KeyRepeatTimer {
    pub elapsed_ms: u64,
}

impl KeyRepeatTimer {
    /// A timer's elapsed time always sits strictly inside the period.
    pub open spec fn wf(&self) -> bool {
        self.elapsed_ms < KEY_REPEAT_MS
    }

    pub fn new() -> (t: Self)
        ensures
            t.elapsed_ms == 0,
            t.wf(),
    {
        KeyRepeatTimer { elapsed_ms: 0 }
    }

    /// Restarts the period.
    pub fn reset(&mut self)
        ensures
            final(self).elapsed_ms == 0,
            final(self).wf(),
    {
        self.elapsed_ms = 0;
    }

    /// Advances the timer; reports whether the period completed during
    /// this tick, and keeps the remainder for the next one.
    pub fn tick(&mut self, delta_ms: u64) -> (finished: bool)
        requires
            old(self).wf(),
        ensures
            final(self).wf(),
            finished == spec_timer_finishes(old(self).elapsed_ms as int, delta_ms as int),
            final(self).elapsed_ms as int == spec_timer_next(
                old(self).elapsed_ms as int,
                delta_ms as int,
            ),
    {
        let room = KEY_REPEAT_MS - self.elapsed_ms;
        if delta_ms >= room {
            let over = delta_ms - room;
            let rem = over % KEY_REPEAT_MS;
            proof {
                lemma_mod_multiples_vanish(
                    1,
                    over as int,
                    KEY_REPEAT_MS as int,
                );
                assert(over + KEY_REPEAT_MS
                    == old(self).elapsed_ms + delta_ms);
            }
            self.elapsed_ms = rem;
            true
        } else {
            self.elapsed_ms = self.elapsed_ms + delta_ms;
            proof {
                assert((old(self).elapsed_ms + delta_ms) % (KEY_REPEAT_MS as int)
                    == old(self).elapsed_ms + delta_ms);
            }
            false
        }
    }
}

/// The step direction two keys select: the increase key wins, the
/// decrease key counts only alone, neither gives no movement.
pub open spec fn spec_direction(increase: bool, decrease: bool) -> i8 {
    if increase {
        1i8
    } else if decrease {
        -1i8
    } else {
        0i8
    }
}

/// The index one step moves to: up saturates at the last tile, down at
/// the first, no direction stays put.
pub open spec fn spec_step_index(index: int, dir: i8) -> int {
    if dir == 1i8 {
        if index + 1 <= MAX_MAP_INDEX {
            index + 1
        } else {
            MAX_MAP_INDEX as int
        }
    } else if dir == -1i8 {
        if index >= 1 {
            index - 1
        } else {
            0
        }
    } else {
        index
    }
}

/// True when this frame takes a step: a fresh non-zero direction steps
/// immediately; an unchanged non-zero direction steps only when the
/// repeat timer completes; no direction never steps.
pub open spec fn spec_map_acted(dir: i8, last: i8, elapsed: int, delta: int) -> bool {
    if dir != last {
        dir != 0i8
    } else if dir != 0i8 {
        spec_timer_finishes(elapsed, delta)
    } else {
        false
    }
}

/// One frame of map-selection input: derives the direction from the two
/// keys, handles fresh presses immediately and held keys through the
/// repeat timer, and steps the index with saturation at both ends.  The
/// index never leaves `0..=108`.
pub fn map_update_system(
    current_map: &mut CurrentMap,
    increase_pressed: bool,
    decrease_pressed: bool,
    delta_ms: u64,
    timer: &mut KeyRepeatTimer,
    last_direction: &mut i8,
) requires
        old(current_map).index <= MAX_MAP_INDEX,
        old(timer).wf(),
    ensures
        final(timer).wf(),
        final(current_map).index <= MAX_MAP_INDEX,
        *final(last_direction) == spec_direction(increase_pressed, decrease_pressed),
        ({
            let dir = spec_direction(increase_pressed, decrease_pressed);
            let acted = spec_map_acted(
                dir,
                *old(last_direction),
                old(timer).elapsed_ms as int,
                delta_ms as int,
            );
            &&& (acted ==> final(current_map).index as int == spec_step_index(
                old(current_map).index as int,
                dir,
            ))
            &&& (!acted ==> final(current_map).index == old(current_map).index)
            &&& (dir != *old(last_direction) ==> final(timer).elapsed_ms == 0)
            &&& (dir == *old(last_direction) && dir != 0i8 ==> final(timer).elapsed_ms as int
                == spec_timer_next(old(timer).elapsed_ms as int, delta_ms as int))
            &&& (dir == *old(last_direction) && dir == 0i8 ==> *final(timer) == *old(timer))
        }),
{
    let current_direction: i8 = if increase_pressed {
        1
    } else if decrease_pressed {
        -1
    } else {
        0
    };

    let mut take_action = false;
    if current_direction != *last_direction {
        timer.reset();
        if current_direction != 0 {
            take_action = true;
        }
    } else if current_direction != 0 {
        let finished = timer.tick(delta_ms);
        if finished {
            take_action = true;
        }
    }

    if take_action {
        let new_index = if current_direction == 1 {
            if current_map.index + 1 <= MAX_MAP_INDEX {
                current_map.index + 1
            } else {
                MAX_MAP_INDEX
            }
        } else if current_direction == -1 {
            if current_map.index >= 1 {
                current_map.index - 1
            } else {
                0
            }
        } else {
            current_map.index
        };
        if new_index != current_map.index {
            current_map.index = new_index;
        }
    }

    *last_direction = current_direction;
}

/// The decimal digit character of a value below ten.
pub open spec fn spec_dec_digit(d: int) -> char {
    if d == 0 { '0' } else if d == 1 { '1' } else if d == 2 { '2' } else if d == 3 { '3' }
    else if d == 4 { '4' } else if d == 5 { '5' } else if d == 6 { '6' } else if d == 7 { '7' }
    else if d == 8 { '8' } else { '9' }
}

/// The decimal rendering of a natural number, most significant digit
/// first, no leading zeros (zero itself is a single digit).
pub open spec fn spec_decimal(n: nat) -> Seq<char>
    decreases n,
{
    if n < 10 {
        seq![spec_dec_digit(n as int)]
    } else {
        spec_decimal(n / 10) + seq![spec_dec_digit((n % 10) as int)]
    }
}

fn dec_digit_str(d: u64) -> (r: &'static str)
    requires
        d < 10,
    ensures
        r@ == seq![spec_dec_digit(d as int)],
{
    proof {
        reveal_strlit("0"); reveal_strlit("1"); reveal_strlit("2"); reveal_strlit("3");
        reveal_strlit("4"); reveal_strlit("5"); reveal_strlit("6"); reveal_strlit("7");
        reveal_strlit("8"); reveal_strlit("9");
        assert(seq![spec_dec_digit(d as int)].len() == 1);
    }
    match d {
        0 => "0", 1 => "1", 2 => "2", 3 => "3", 4 => "4",
        5 => "5", 6 => "6", 7 => "7", 8 => "8", _ => "9",
    }
}

/// Renders a number in decimal.
pub fn u64_to_decimal(n: u64) -> (s: String)
    ensures
        s@ == spec_decimal(n as nat),
    decreases n,
{
    if n < 10 {
        String::from_str(dec_digit_str(n))
    } else {
        let mut s = u64_to_decimal(n / 10);
        s.append(dec_digit_str(n % 10));
        proof {
            assert(s@ =~= spec_decimal(n as nat));
        }
        s
    }
}

/// The text widget's update for one frame: the decimal rendering of the
/// current index when it changed this frame, nothing otherwise (the
/// widget's text is left alone).
pub fn update_map_text_display(current_map: &CurrentMap, changed: bool) -> (r: Option<String>)
    ensures
        changed ==> (r matches Some(s) && s@ == spec_decimal(current_map.index as nat)),
        !changed ==> r is None,
{
    if changed {
        Some(u64_to_decimal(current_map.index as u64))
    } else {
        None
    }
}

} // verus!
