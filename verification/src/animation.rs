//! The animation steps of a frame, each over the whole stage, and the plugin
//! that runs them in order while the game is in its playable phase.

use crate::frames::{next_enemy_frame, next_player_frame, Category, LocomotionState};
use crate::orientation::Position;
use crate::stage::{Actor, FrameInput, Stage, StageView};
use vstd::prelude::*;

verus! {

/// The steps that animate and turn the sprites.
#[derive(Clone, Copy, Debug, PartialEq, Eq, Structural)]
pub struct AnimationPlugin;

/// Ticks the clock of the player and of every enemy by the frame's time.
pub fn animation_timer_tick(stage: &mut Stage, delta_nanos: u64)
    ensures
        final(stage)@ == old(stage)@.clocks_ticked(delta_nanos),
{
    match stage.player {
        Some(player) => {
            let mut ticked: Actor = player;
            ticked.animation.clock.tick(delta_nanos);
            stage.player = Some(ticked);
        },
        None => {},
    }
    let count: usize = stage.enemies.len();
    let mut i: usize = 0;
    while i < count
        invariant
            i <= count,
            stage.enemies@.len() == count,
            old(stage).enemies@.len() == count,
            stage.player == old(stage)@.clocks_ticked(delta_nanos).player,
            stage.weapon == old(stage).weapon,
            stage.camera == old(stage).camera,
            forall|j: int|
                0 <= j < i ==> stage.enemies@[j] == (#[trigger] old(stage).enemies@[j]).clock_ticked(
                    delta_nanos,
                ),
            forall|j: int| i <= j < count ==> stage.enemies@[j] == #[trigger] old(stage).enemies@[j],
        decreases count - i,
    {
        let mut ticked: Actor = stage.enemies[i];
        ticked.animation.clock.tick(delta_nanos);
        stage.enemies.set(i, ticked);
        i += 1;
    }
    assert(stage.enemies@ =~= old(stage)@.clocks_ticked(delta_nanos).enemies);
}

/// Shows the player's next frame if the player's clock fired in this frame.
/// Without a player nothing happens.
pub fn animate_player(stage: &mut Stage, locomotion: LocomotionState, atlas_columns: usize)
    requires
        old(stage).player is Some ==> atlas_columns >= 2,
    ensures
        final(stage)@ == old(stage)@.player_animated(locomotion, atlas_columns),
{
    match stage.player {
        Some(player) => {
            if player.animation.clock.just_finished() {
                match player.animation.category {
                    Category::Player => {
                        let mut animated: Actor = player;
                        animated.animation.frame_index = next_player_frame(
                            player.animation.frame_index,
                            locomotion,
                            atlas_columns,
                        );
                        stage.player = Some(animated);
                    },
                    Category::Enemy => {},
                }
            }
        },
        None => {},
    }
}

/// Shows the next frame of every enemy whose own clock fired in this frame.
/// Each enemy cycles by its own clock; none waits for another.
pub fn animate_enemy(stage: &mut Stage, atlas_columns: usize)
    requires
        old(stage).enemies@.len() > 0 ==> atlas_columns >= 4,
    ensures
        final(stage)@ == old(stage)@.enemies_animated(atlas_columns),
{
    let count: usize = stage.enemies.len();
    let mut i: usize = 0;
    while i < count
        invariant
            i <= count,
            count > 0 ==> atlas_columns >= 4,
            stage.enemies@.len() == count,
            old(stage).enemies@.len() == count,
            stage.player == old(stage).player,
            stage.weapon == old(stage).weapon,
            stage.camera == old(stage).camera,
            forall|j: int|
                0 <= j < i ==> stage.enemies@[j] == (#[trigger] old(
                    stage,
                ).enemies@[j]).animated_as_enemy(atlas_columns),
            forall|j: int| i <= j < count ==> stage.enemies@[j] == #[trigger] old(stage).enemies@[j],
        decreases count - i,
    {
        let enemy: Actor = stage.enemies[i];
        if enemy.animation.clock.just_finished() {
            match enemy.animation.category {
                Category::Enemy => {
                    let mut animated: Actor = enemy;
                    animated.animation.frame_index = next_enemy_frame(
                        enemy.animation.frame_index,
                        atlas_columns,
                    );
                    stage.enemies.set(i, animated);
                },
                Category::Player => {},
            }
        }
        i += 1;
    }
    assert(stage.enemies@ =~= old(stage)@.enemies_animated(atlas_columns).enemies);
}

/// Turns the player towards the cursor. Without a player nothing happens;
/// without a cursor the player keeps looking the way it did.
pub fn flip_player_sprite_x(stage: &mut Stage, cursor: Option<Position>)
    ensures
        final(stage)@ == old(stage)@.player_flipped(cursor),
{
    match stage.player {
        Some(player) => {
            let mut turned: Actor = player;
            turned.sprite.face_cursor_x(cursor);
            stage.player = Some(turned);
        },
        None => {},
    }
}

/// Turns every enemy towards the player. Without a player nothing happens.
pub fn flip_enemy_sprite_x(stage: &mut Stage)
    ensures
        final(stage)@ == old(stage)@.enemies_flipped(),
{
    let target: Position = match stage.player {
        Some(player) => player.sprite.position,
        None => {
            return ;
        },
    };
    let count: usize = stage.enemies.len();
    let mut i: usize = 0;
    while i < count
        invariant
            i <= count,
            stage.enemies@.len() == count,
            old(stage).enemies@.len() == count,
            stage.player == old(stage).player,
            stage.weapon == old(stage).weapon,
            stage.camera == old(stage).camera,
            forall|j: int|
                0 <= j < i ==> stage.enemies@[j] == (#[trigger] old(stage).enemies@[j]).facing_player(
                    target,
                ),
            forall|j: int| i <= j < count ==> stage.enemies@[j] == #[trigger] old(stage).enemies@[j],
        decreases count - i,
    {
        let mut turned: Actor = stage.enemies[i];
        turned.sprite.face_player_x(target);
        stage.enemies.set(i, turned);
        i += 1;
    }
    assert(stage.enemies@ =~= old(stage)@.enemies_flipped().enemies);
}

/// Turns the weapon towards the cursor. Without a weapon nothing happens;
/// without a cursor the weapon stays as it was.
pub fn flip_weapon_sprite_y(stage: &mut Stage, cursor: Option<Position>)
    ensures
        final(stage)@ == old(stage)@.weapon_flipped(cursor),
{
    match stage.weapon {
        Some(weapon) => {
            let mut turned = weapon;
            turned.face_cursor_y(cursor);
            stage.weapon = Some(turned);
        },
        None => {},
    }
}

impl StageView {
    /// Whether the sheet has a frame for everyone on the stage: a player needs
    /// a segment of at least one frame, and so do enemies.
    pub open spec fn fits_sheet(self, atlas_columns: usize) -> bool {
        &&& self.player is Some ==> atlas_columns >= 2
        &&& self.enemies.len() > 0 ==> atlas_columns >= 4
    }

    /// The stage after the animation steps of one frame: the clocks tick,
    /// then the frames advance, then the sprites turn. Outside the playable
    /// phase no step runs.
    pub open spec fn animated(self, input: FrameInput) -> StageView {
        if input.playing {
            self.clocks_ticked(input.delta_nanos).player_animated(
                input.locomotion,
                input.atlas_columns,
            ).enemies_animated(input.atlas_columns).player_flipped(input.cursor).enemies_flipped()
                .weapon_flipped(input.cursor)
        } else {
            self
        }
    }
}

impl AnimationPlugin {
    /// Runs the animation steps of one frame, in their fixed order, if the
    /// game is in its playable phase.
    pub fn update(&self, stage: &mut Stage, input: &FrameInput)
        requires
            input.playing ==> old(stage)@.fits_sheet(input.atlas_columns),
        ensures
            final(stage)@ == old(stage)@.animated(*input),
    {
        if input.playing {
            animation_timer_tick(stage, input.delta_nanos);
            animate_player(stage, input.locomotion, input.atlas_columns);
            animate_enemy(stage, input.atlas_columns);
            flip_player_sprite_x(stage, input.cursor);
            flip_enemy_sprite_x(stage);
            flip_weapon_sprite_y(stage, input.cursor);
        }
    }
}

} // verus!
