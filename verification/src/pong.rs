//! The rules of single-player pong that do not involve positions: the score
//! and its display, and the paddle direction chosen from the keys held.
use vstd::prelude::*;
use crate::text::{decimal, push_decimal};

verus! {

/// The player's score: paddle hits since the ball was last missed.
pub struct GameScore {
    pub value: u32,
}

/// The score after a frame in which the ball did or did not hit the paddle
/// and was or was not missed: a miss resets it to zero, otherwise a hit adds one.
pub open spec fn score_after(value: int, hit_paddle: bool, missed: bool) -> int {
    if missed {
        0
    } else if hit_paddle {
        value + 1
    } else {
        value
    }
}

/// The score after the frames `(hit_paddle, missed)` in order, from `value`.
pub open spec fn score_after_frames(value: int, frames: Seq<(bool, bool)>) -> int
    decreases frames.len(),
{
    if frames.len() == 0 {
        value
    } else {
        score_after(score_after_frames(value, frames.drop_last()), frames.last().0, frames.last().1)
    }
}

/// The number of frames in which the ball hit the paddle.
pub open spec fn paddle_hits(frames: Seq<(bool, bool)>) -> int
    decreases frames.len(),
{
    if frames.len() == 0 {
        0
    } else {
        paddle_hits(frames.drop_last()) + if frames.last().0 {
            1int
        } else {
            0int
        }
    }
}

/// The score line: `Score: ` and the score.
pub open spec fn score_label(value: u32) -> Seq<char> {
    "Score: "@ + decimal(value as nat)
}

/// The vertical direction of the paddle: up (1) when an up key is held, down
/// (-1) when a down key is held, still (0) when both or neither are.
pub open spec fn paddle_direction_of(up: bool, down: bool) -> int {
    (if up {
        1int
    } else {
        0int
    }) - (if down {
        1int
    } else {
        0int
    })
}

/// The help line of the game: frame rate (or `...` while unmeasured), keys.
pub open spec fn hud_label(fps: Option<Seq<char>>) -> Seq<char> {
    "FPS: "@ + match fps {
        Some(f) => f,
        None => "..."@,
    } + "\nMove: W/S or Up/Down\nOptions: F10"@
}

impl GameScore {
    /// Counts one frame: a paddle hit adds one, a miss resets the score to zero.
    pub fn update(&mut self, hit_paddle: bool, missed: bool)
        requires
            hit_paddle ==> old(self).value < u32::MAX,
        ensures
            final(self).value == score_after(old(self).value as int, hit_paddle, missed),
    {
        if hit_paddle {
            self.value = self.value + 1;
        }
        if missed {
            self.value = 0;
        }
    }
}

/// The score line for `value`: `Score: ` and the number.
pub fn score_text(value: u32) -> (r: String)
    ensures
        r@ == score_label(value),
{
    let mut r = String::new();
    r.append("Score: ");
    push_decimal(&mut r, value);
    r
}

/// The vertical direction of the paddle from the keys held.
pub fn paddle_direction(up: bool, down: bool) -> (d: i32)
    ensures
        d == paddle_direction_of(up, down),
{
    let mut d: i32 = 0;
    if up {
        d = d + 1;
    }
    if down {
        d = d - 1;
    }
    d
}

/// The help line of the game, given the measured frame rate already written out.
pub fn hud_text(fps: Option<&str>) -> (r: String)
    ensures
        r@ == hud_label(
            match fps {
                Some(f) => Some(f@),
                None => None,
            },
        ),
{
    let mut r = String::new();
    r.append("FPS: ");
    match fps {
        Some(f) => r.append(f),
        None => r.append("..."),
    }
    r.append("\nMove: W/S or Up/Down\nOptions: F10");
    r
}

/// Without a miss, the score grows by one for each paddle hit.
pub proof fn lemma_score_without_miss(value: int, frames: Seq<(bool, bool)>)
    requires
        forall|i: int| 0 <= i < frames.len() ==> !(#[trigger] frames[i]).1,
    ensures
        score_after_frames(value, frames) == value + paddle_hits(frames),
    decreases frames.len(),
{
    if frames.len() > 0 {
        let rest = frames.drop_last();
        assert forall|i: int| 0 <= i < rest.len() implies !(#[trigger] rest[i]).1 by {
            assert(rest[i] == frames[i]);
        }
        lemma_score_without_miss(value, rest);
        assert(!frames[frames.len() - 1].1);
    }
}

/// The score is the number of paddle hits since the ball was last missed,
/// whatever it was before that miss.
pub proof fn lemma_score_counts_hits_since_last_miss(
    value: int,
    before: Seq<(bool, bool)>,
    after: Seq<(bool, bool)>,
)
    requires
        before.len() > 0,
        before.last().1,
        forall|i: int| 0 <= i < after.len() ==> !(#[trigger] after[i]).1,
    ensures
        score_after_frames(value, before + after) == paddle_hits(after),
    decreases after.len(),
{
    if after.len() == 0 {
        assert(before + after =~= before);
    } else {
        let rest = after.drop_last();
        assert forall|i: int| 0 <= i < rest.len() implies !(#[trigger] rest[i]).1 by {
            assert(rest[i] == after[i]);
        }
        lemma_score_counts_hits_since_last_miss(value, before, rest);
        assert((before + after).drop_last() =~= before + rest);
        assert((before + after).last() == after.last());
        assert(!after[after.len() - 1].1);
    }
}

} // verus!
