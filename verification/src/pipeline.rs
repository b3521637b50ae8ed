//! One frame of presentation from end to end: the clocks tick, the frames
//! advance, the sprites turn, and the camera's move is decided.

use crate::animation::AnimationPlugin;
use crate::camera::{CameraAction, FollowCameraPlugin};
use crate::stage::{FrameInput, Stage, StageView};
use vstd::prelude::*;

verus! {

/// Runs one frame on the stage and returns what the caller does with the
/// camera. Outside the playable phase the stage is left alone and the camera
/// is held.
pub fn present_frame(stage: &mut Stage, input: &FrameInput) -> (action: CameraAction)
    requires
        input.playing ==> old(stage)@.fits_sheet(input.atlas_columns),
    ensures
        final(stage)@ == old(stage)@.animated(*input),
        action == final(stage)@.camera_move(input.playing),
{
    AnimationPlugin.update(stage, input);
    FollowCameraPlugin.update(stage, input.playing)
}

/// A frame without a player changes neither the camera nor the way any
/// enemy faces: no player appears, the camera keeps its state and is held,
/// and every enemy keeps its sprite. The weapon does not look at the player;
/// it keeps its sprite too where there is no cursor to turn to.
pub proof fn lemma_frame_without_player(stage: StageView, input: FrameInput)
    requires
        stage.player is None,
    ensures
        stage.animated(input).player is None,
        stage.animated(input).camera == stage.camera,
        stage.animated(input).camera_move(input.playing) == CameraAction::Hold,
        stage.animated(input).enemies.len() == stage.enemies.len(),
        forall|i: int|
            0 <= i < stage.enemies.len() ==> (#[trigger] stage.animated(input).enemies[i]).sprite
                == stage.enemies[i].sprite,
        input.cursor is None ==> stage.animated(input).weapon == stage.weapon,
        stage.weapon is None ==> stage.animated(input).weapon is None,
{
}

} // verus!
