//! The sprite frame cycler: which frame of the shared sprite sheet an entity
//! shows after its animation clock has fired.
//!
//! The sheet is cut into segments of consecutive frames, one per animation.
//! The player has two segments of half the sheet's columns each, one for
//! standing and one for moving. Enemies share one segment of a quarter of the
//! columns, which starts at frame 12.

use crate::clock::AnimationTimer;
use vstd::arithmetic::div_mod::{
    lemma_add_mod_noop_right, lemma_fundamental_div_mod_converse, lemma_mod_add_multiples_vanish,
    lemma_mod_bound, lemma_small_mod,
};
use vstd::prelude::*;

verus! {

/// What an animated entity is; it selects the segment that its frames cycle in.
#[derive(Clone, Copy, Debug, PartialEq, Eq, Structural)]
pub enum Category {
    Player,
    Enemy,
}

/// How the player is moving, as the movement code reports it.
#[derive(Clone, Copy, Debug, PartialEq, Eq, Structural)]
pub enum LocomotionState {
    Idle,
    Moving,
}

/// The animation state of one entity.
#[derive(Clone, Copy, Debug, PartialEq, Eq, Structural)]
pub struct AnimatedEntity {
    pub frame_index: usize,
    pub clock: AnimationTimer,
    pub category: Category,
}

/// The first frame of the enemy segment.
pub const ENEMY_BASE_FRAME: usize = 12;

/// The number of frames in each of the player's two segments.
pub open spec fn segment_width(atlas_columns: nat) -> nat {
    atlas_columns / 2
}

/// The number of frames in the enemy segment.
pub open spec fn quarter_width(atlas_columns: nat) -> nat {
    atlas_columns / 4
}

/// The first frame of the player's segment for a locomotion state.
pub open spec fn segment_base(locomotion: LocomotionState, atlas_columns: nat) -> nat {
    match locomotion {
        LocomotionState::Idle => 0,
        LocomotionState::Moving => segment_width(atlas_columns),
    }
}

/// The position of a frame within a segment that starts at `base` and holds
/// `width` frames. A frame outside the segment is folded into it.
pub open spec fn index_in_segment(frame_index: int, base: int, width: int) -> int {
    (frame_index - base) % width
}

/// The player's frame after a clock fire: one step further in the cycle, in
/// the segment of the current locomotion state. Both player segments start at
/// a multiple of their width, so a change of state moves the frame to the
/// other segment and keeps its position in the cycle.
pub open spec fn player_frame_after(
    frame_index: nat,
    locomotion: LocomotionState,
    atlas_columns: nat,
) -> nat {
    let width = segment_width(atlas_columns) as int;
    (segment_base(locomotion, atlas_columns) + (index_in_segment(frame_index as int, 0, width) + 1)
        % width) as nat
}

/// An enemy's frame after a clock fire: one step further in the enemy segment.
pub open spec fn enemy_frame_after(frame_index: nat, atlas_columns: nat) -> nat {
    let width = quarter_width(atlas_columns) as int;
    (ENEMY_BASE_FRAME + (index_in_segment(frame_index as int, ENEMY_BASE_FRAME as int, width) + 1)
        % width) as nat
}

/// Computes the player's next frame.
pub fn next_player_frame(
    frame_index: usize,
    locomotion: LocomotionState,
    atlas_columns: usize,
) -> (next: usize)
    requires
        atlas_columns >= 2,
    ensures
        next == player_frame_after(frame_index as nat, locomotion, atlas_columns as nat),
        segment_base(locomotion, atlas_columns as nat) <= next < segment_base(
            locomotion,
            atlas_columns as nat,
        ) + segment_width(atlas_columns as nat),
{
    let width: usize = atlas_columns / 2;
    let base: usize = match locomotion {
        LocomotionState::Idle => 0,
        LocomotionState::Moving => width,
    };
    let step: usize = (frame_index % width + 1) % width;
    base + step
}

/// Computes an enemy's next frame.
pub fn next_enemy_frame(frame_index: usize, atlas_columns: usize) -> (next: usize)
    requires
        atlas_columns >= 4,
    ensures
        next == enemy_frame_after(frame_index as nat, atlas_columns as nat),
        ENEMY_BASE_FRAME <= next < ENEMY_BASE_FRAME + quarter_width(atlas_columns as nat),
{
    let width: usize = atlas_columns / 4;
    let position: usize = if frame_index >= ENEMY_BASE_FRAME {
        (frame_index - ENEMY_BASE_FRAME) % width
    } else {
        let short: usize = (ENEMY_BASE_FRAME - frame_index) % width;
        proof {
            lemma_fold_from_below(frame_index as int, ENEMY_BASE_FRAME as int, width as int);
        }
        if short == 0 {
            0
        } else {
            width - short
        }
    };
    ENEMY_BASE_FRAME + (position + 1) % width
}

/// Folding a frame that lies before the segment: its position counts back
/// from the segment's end.
proof fn lemma_fold_from_below(frame_index: int, base: int, width: int)
    requires
        width > 0,
        frame_index < base,
    ensures
        index_in_segment(frame_index, base, width) == if (base - frame_index) % width == 0 {
            0
        } else {
            width - (base - frame_index) % width
        },
{
    let gap = base - frame_index;
    let q = gap / width;
    let r = gap % width;
    assert(gap == q * width + r && 0 <= r < width) by (nonlinear_arith)
        requires
            width > 0,
            q == gap / width,
            r == gap % width,
    ;
    if r == 0 {
        assert(frame_index - base == (-q) * width + 0) by (nonlinear_arith)
            requires
                base - frame_index == q * width + r,
                r == 0,
        ;
        lemma_fundamental_div_mod_converse(
            frame_index - base,
            width,
            -q,
            0,
        );
    } else {
        assert(frame_index - base == (-q - 1) * width + (width - r)) by (nonlinear_arith)
            requires
                base - frame_index == q * width + r,
        ;
        lemma_fundamental_div_mod_converse(
            frame_index - base,
            width,
            -q - 1,
            width - r,
        );
    }
}

/// The player's frame after `fires` clock fires under one locomotion state.
pub open spec fn player_frame_after_fires(
    frame_index: nat,
    locomotion: LocomotionState,
    atlas_columns: nat,
    fires: nat,
) -> nat
    decreases fires,
{
    if fires == 0 {
        frame_index
    } else {
        player_frame_after(
            player_frame_after_fires(frame_index, locomotion, atlas_columns, (fires - 1) as nat),
            locomotion,
            atlas_columns,
        )
    }
}

/// After a clock fire the player's frame lies in the segment of the current
/// locomotion state, wherever it was before.
pub proof fn lemma_player_frame_in_segment(
    frame_index: nat,
    locomotion: LocomotionState,
    atlas_columns: nat,
)
    requires
        atlas_columns >= 2,
    ensures
        segment_base(locomotion, atlas_columns) <= player_frame_after(
            frame_index,
            locomotion,
            atlas_columns,
        ) < segment_base(locomotion, atlas_columns) + segment_width(atlas_columns),
{
    let width = segment_width(atlas_columns) as int;
    lemma_mod_bound(index_in_segment(frame_index as int, 0, width) + 1, width);
}

/// After a clock fire an enemy's frame lies in the enemy segment, wherever it
/// was before.
pub proof fn lemma_enemy_frame_in_segment(frame_index: nat, atlas_columns: nat)
    requires
        atlas_columns >= 4,
    ensures
        ENEMY_BASE_FRAME <= enemy_frame_after(frame_index, atlas_columns) < ENEMY_BASE_FRAME
            + quarter_width(atlas_columns),
{
    let width = quarter_width(atlas_columns) as int;
    lemma_mod_bound(
        index_in_segment(frame_index as int, ENEMY_BASE_FRAME as int, width) + 1,
        width,
    );
}

/// Under one locomotion state, any number of fires from one on leaves the
/// player's frame as many steps further round the cycle.
proof fn lemma_player_frame_steps(
    frame_index: nat,
    locomotion: LocomotionState,
    atlas_columns: nat,
    fires: nat,
)
    requires
        atlas_columns >= 2,
        fires >= 1,
    ensures
        player_frame_after_fires(frame_index, locomotion, atlas_columns, fires) == segment_base(
            locomotion,
            atlas_columns,
        ) + (frame_index as int % (segment_width(atlas_columns) as int) + fires) % (segment_width(
            atlas_columns,
        ) as int),
    decreases fires,
{
    let width = segment_width(atlas_columns) as int;
    let base = segment_base(locomotion, atlas_columns) as int;
    let start = frame_index as int % width;
    if fires == 1 {
        assert(player_frame_after_fires(frame_index, locomotion, atlas_columns, 0) == frame_index);
    } else {
        lemma_player_frame_steps(frame_index, locomotion, atlas_columns, (fires - 1) as nat);
        let position = (start + fires - 1) % width;
        lemma_mod_bound(start + fires - 1, width);
        assert((base + position) % width == position) by {
            lemma_small_mod(position as nat, width as nat);
            if base != 0 {
                lemma_mod_add_multiples_vanish(position, width);
            }
        }
        assert((position + 1) % width == (start + fires) % width) by {
            lemma_add_mod_noop_right(1, start + fires - 1, width);
        }
    }
}

/// Under one locomotion state, as many fires as the segment holds frames
/// bring the player's frame back to where it started, for a start within the
/// segment of that state.
pub proof fn lemma_player_cycle_returns(
    frame_index: nat,
    locomotion: LocomotionState,
    atlas_columns: nat,
)
    requires
        atlas_columns >= 2,
        segment_base(locomotion, atlas_columns) <= frame_index < segment_base(
            locomotion,
            atlas_columns,
        ) + segment_width(atlas_columns),
    ensures
        player_frame_after_fires(
            frame_index,
            locomotion,
            atlas_columns,
            segment_width(atlas_columns),
        ) == frame_index,
{
    let width = segment_width(atlas_columns) as int;
    let base = segment_base(locomotion, atlas_columns) as int;
    let position = frame_index - base;
    lemma_player_frame_steps(frame_index, locomotion, atlas_columns, width as nat);
    assert(frame_index as int % width == position) by {
        lemma_small_mod(position as nat, width as nat);
        if base != 0 {
            lemma_mod_add_multiples_vanish(position, width);
        }
    }
    assert((position + width) % width == position) by {
        lemma_small_mod(position as nat, width as nat);
        lemma_mod_add_multiples_vanish(position, width);
    }
}

} // verus!
