//! Parallax background layers: a cyclic horizontal scroll offset advanced
//! once per frame, and the tiling arithmetic that covers the window width
//! with copies of one sprite. The sprite itself is a backend texture and
//! stays outside this crate; a layer holds its dimensions as plain
//! values.

use vstd::prelude::*;

verus! {

/// One scrolling background layer. `pos` is the horizontal scroll offset
/// in thousandths of a sprite-space unit, kept non-negative and wrapped
/// against the sprite width once per frame; `vel` is the scroll speed in
/// whole sprite-space units per second. Units per second times
/// milliseconds is exactly thousandths of a unit, so a frame's motion
/// needs no division and none of it is lost to rounding, however short
/// the frame.
#[derive(Clone, Copy, Debug, PartialEq, Eq, Structural)]
pub struct Background {
    /// Scroll offset, in thousandths of a sprite-space unit.
    pub pos: i64,
    /// Scroll speed, in sprite-space units per second.
    pub vel: i64,
    /// Native width of the layer's sprite, in sprite-space units.
    pub sprite_w: i64,
    /// Native height of the layer's sprite, in sprite-space units.
    pub sprite_h: i64,
}

/// The scroll offset after one frame of `elapsed_ms` milliseconds: the
/// offset grows by exactly `vel * elapsed_ms` thousandths of a unit and
/// is wrapped by a single conditional subtraction of the sprite width.
/// At extreme speeds one subtraction can under-wrap; that is this
/// scroller's deliberate policy, not corrected here.
pub open spec fn spec_advanced_pos(pos: int, vel: int, elapsed_ms: int, sprite_w: int) -> int {
    let moved = pos + vel * elapsed_ms;
    if moved > sprite_w * 1000 {
        moved - sprite_w * 1000
    } else {
        moved
    }
}

/// No motion is lost to truncation: one frame displaces the offset by
/// exactly `vel * elapsed_ms` thousandths of a unit before the wrap, so
/// even the slowest moving layer advances on every frame of positive
/// duration.
pub proof fn lemma_no_motion_lost(pos: int, vel: int, elapsed_ms: int, sprite_w: int)
    requires
        0 <= pos,
        1 <= vel,
        1 <= elapsed_ms,
        0 < sprite_w,
    ensures
        spec_advanced_pos(pos, vel, elapsed_ms, sprite_w) + (if pos + vel * elapsed_ms
            > sprite_w * 1000 {
            sprite_w * 1000
        } else {
            0
        }) == pos + vel * elapsed_ms,
        pos + vel * elapsed_ms > pos,
{
    assert(vel * elapsed_ms >= 1) by (nonlinear_arith)
        requires
            1 <= vel,
            1 <= elapsed_ms,
    ;
}

impl Background {
    /// Positive sprite dimensions small enough that the wrap span
    /// `sprite_w * 1000` is representable; non-negative offset and speed.
    pub open spec fn well_formed(self) -> bool {
        &&& 0 < self.sprite_w <= i64::MAX / 1000
        &&& 0 < self.sprite_h
        &&& 0 <= self.pos
        &&& 0 <= self.vel
    }

    /// A layer at offset zero with the given speed and sprite size.
    pub fn new(vel: i64, sprite_w: i64, sprite_h: i64) -> (b: Background)
        requires
            0 <= vel,
            0 < sprite_w <= i64::MAX / 1000,
            0 < sprite_h,
        ensures
            b == (Background { pos: 0, vel, sprite_w, sprite_h }),
            b.well_formed(),
    {
        Background { pos: 0, vel, sprite_w, sprite_h }
    }

    /// Advances the scroll offset by one frame of `elapsed_ms`
    /// milliseconds, wrapping once against the sprite width. Speed and
    /// sprite size are untouched.
    pub fn advance(&mut self, elapsed_ms: i64)
        requires
            old(self).well_formed(),
            0 <= elapsed_ms,
            old(self).pos + old(self).vel * elapsed_ms <= i64::MAX,
        ensures
            final(self).pos == spec_advanced_pos(
                old(self).pos as int,
                old(self).vel as int,
                elapsed_ms as int,
                old(self).sprite_w as int,
            ),
            final(self).vel == old(self).vel,
            final(self).sprite_w == old(self).sprite_w,
            final(self).sprite_h == old(self).sprite_h,
            final(self).well_formed(),
    {
        proof {
            let v = self.vel as int;
            let e = elapsed_ms as int;
            assert(0 <= v * e) by (nonlinear_arith)
                requires
                    0 <= v,
                    0 <= e,
            ;
        }
        let moved = self.pos + self.vel * elapsed_ms;
        let span = self.sprite_w * 1000;
        if moved > span {
            self.pos = moved - span;
        } else {
            self.pos = moved;
        }
    }
}

/// The device-space left edges at which to blit copies of a tile so that
/// they cover the window horizontally: the first copy starts at
/// `first_left`, each further copy one tile width to the right, until the
/// copies reach the window's right edge. The caller scales sprite-space
/// to device-space; this function fixes where every copy goes.
pub fn tile_positions(first_left: i64, tile_w: i64, win_w: i64) -> (tiles: Vec<i64>)
    requires
        0 < tile_w,
        win_w <= i64::MAX - tile_w,
    ensures
        forall|i: int| 0 <= i < tiles@.len() ==> tiles@[i] == first_left + i * tile_w,
        forall|i: int| 0 <= i < tiles@.len() ==> tiles@[i] < win_w,
        tiles@.len() == 0 <==> first_left >= win_w,
        tiles@.len() > 0 ==> tiles@[tiles@.len() - 1] + tile_w >= win_w,
{
    let mut tiles: Vec<i64> = Vec::new();
    let mut left: i64 = first_left;
    proof {
        assert(tiles@.len() * tile_w == 0) by (nonlinear_arith)
            requires
                tiles@.len() == 0,
        ;
    }
    while left < win_w
        invariant
            0 < tile_w,
            win_w <= i64::MAX - tile_w,
            left == first_left + tiles@.len() * tile_w,
            forall|i: int| 0 <= i < tiles@.len() ==> tiles@[i] == first_left + i * tile_w,
            forall|i: int| 0 <= i < tiles@.len() ==> tiles@[i] < win_w,
            tiles@.len() > 0 ==> tiles@[tiles@.len() - 1] == left - tile_w,
            tiles@.len() == 0 ==> left == first_left,
        decreases win_w + tile_w - left,
    {
        tiles.push(left);
        proof {
            assert((tiles@.len() - 1) * tile_w + tile_w == tiles@.len() * tile_w)
                by (nonlinear_arith);
        }
        left = left + tile_w;
    }
    tiles
}

/// Coverage has no gaps: every horizontal device coordinate from
/// `first_left` up to the window's right edge falls inside some tile,
/// when the tiles stand at consecutive multiples of the tile width and
/// the last one reaches the window edge — the shape `tile_positions`
/// ensures.
pub proof fn lemma_tiles_cover(tiles: Seq<i64>, first_left: int, tile_w: int, win_w: int, p: int)
    requires
        0 < tile_w,
        forall|i: int| 0 <= i < tiles.len() ==> tiles[i] == first_left + i * tile_w,
        tiles.len() > 0 ==> tiles[tiles.len() - 1] + tile_w >= win_w,
        tiles.len() == 0 <==> first_left >= win_w,
        first_left <= p < win_w,
    ensures
        exists|i: int| 0 <= i < tiles.len() && #[trigger] tiles[i] <= p < tiles[i] + tile_w,
    decreases tiles.len(),
{
    assert(tiles.len() > 0);
    let last = tiles.len() - 1;
    if tiles[last] <= p {
        assert(tiles[last] <= p < tiles[last] + tile_w);
    } else {
        assert(tiles[last] == first_left + last * tile_w);
        if last == 0 {
            assert(tiles[0] == first_left + 0 * tile_w);
            assert(false);
        } else {
            assert(last * tile_w >= tile_w) by (nonlinear_arith)
                requires
                    1 <= last,
                    0 < tile_w,
            ;
            let head = tiles.subrange(0, last);
            assert(forall|i: int|
                0 <= i < head.len() ==> #[trigger] head[i] == first_left + i * tile_w);
            assert(head[head.len() - 1] + tile_w == tiles[last]) by {
                assert(head[last - 1] == first_left + (last - 1) * tile_w);
                assert((last - 1) * tile_w + tile_w == last * tile_w) by (nonlinear_arith);
            }
            lemma_tiles_cover(head, first_left, tile_w, tiles[last] as int, p);
            let j = choose|i: int|
                0 <= i < head.len() && #[trigger] head[i] <= p < head[i] + tile_w;
            assert(tiles[j] == head[j]);
            assert(0 <= j < tiles.len() && tiles[j] <= p < tiles[j] + tile_w);
        }
    }
}

/// The three parallax layers of a gameplay scene, rendered back to
/// front; the farther a layer, the slower it scrolls.
#[derive(Clone, Copy, Debug, PartialEq, Eq, Structural)]
pub struct BgSet {
    pub back: Background,
    pub middle: Background,
    pub front: Background,
}

impl BgSet {
    /// The stock parallax set: three layers at rest with speeds twenty,
    /// forty and eighty sprite-space units per second, over sprites of
    /// the given sizes.
    pub fn new(
        back_size: (i64, i64),
        middle_size: (i64, i64),
        front_size: (i64, i64),
    ) -> (s: BgSet)
        requires
            0 < back_size.0 <= i64::MAX / 1000 && 0 < back_size.1,
            0 < middle_size.0 <= i64::MAX / 1000 && 0 < middle_size.1,
            0 < front_size.0 <= i64::MAX / 1000 && 0 < front_size.1,
        ensures
            s.back == (Background { pos: 0, vel: 20, sprite_w: back_size.0, sprite_h: back_size.1 }),
            s.middle == (Background {
                pos: 0,
                vel: 40,
                sprite_w: middle_size.0,
                sprite_h: middle_size.1,
            }),
            s.front == (Background {
                pos: 0,
                vel: 80,
                sprite_w: front_size.0,
                sprite_h: front_size.1,
            }),
            s.back.well_formed() && s.middle.well_formed() && s.front.well_formed(),
    {
        BgSet {
            back: Background::new(20, back_size.0, back_size.1),
            middle: Background::new(40, middle_size.0, middle_size.1),
            front: Background::new(80, front_size.0, front_size.1),
        }
    }
}

} // verus!
