//! The camera tracker: a camera that is spawned once and from then on follows
//! the player.
//!
//! The tracker decides; the caller owns the camera's position and moves it.
//! On `CameraAction::Follow` the caller replaces the camera's horizontal and
//! vertical coordinates by their blend with the target's, taking
//! `SMOOTHING_NUMERATOR / SMOOTHING_DENOMINATOR` of the way, and leaves the
//! depth as it is. The share is taken per frame, whatever time the frame
//! took, so the remaining distance shrinks by the same factor every frame.

use crate::orientation::Position;
use crate::stage::{Stage, StageView};
use vstd::prelude::*;

verus! {

/// The share of the remaining distance that the camera covers in one frame:
/// the numerator of the fraction.
pub const SMOOTHING_NUMERATOR: u32 = 1;

/// The denominator of that fraction.
pub const SMOOTHING_DENOMINATOR: u32 = 10;

/// Whether the camera exists yet.
#[derive(Clone, Copy, Debug, PartialEq, Eq, Structural)]
pub enum CameraTracker {
    Uninitialized,
    Tracking,
}

/// What the caller does with the camera.
#[derive(Clone, Copy, Debug, PartialEq, Eq, Structural)]
pub enum CameraAction {
    /// Leave the camera where it is.
    Hold,
    /// Create the camera with its default view.
    Spawn,
    /// Move the camera towards the target.
    Follow { target: Position },
}

/// The action of a frame: a tracking camera follows the player if there is
/// one, and holds otherwise.
pub open spec fn camera_action(tracker: CameraTracker, player: Option<Position>) -> CameraAction {
    match (tracker, player) {
        (CameraTracker::Tracking, Some(target)) => CameraAction::Follow { target },
        _ => CameraAction::Hold,
    }
}

/// Brings the camera into being: the first call asks for the spawn, every
/// later one holds.
pub fn setup_camera(tracker: &mut CameraTracker) -> (action: CameraAction)
    ensures
        *final(tracker) == CameraTracker::Tracking,
        action == if *old(tracker) == CameraTracker::Uninitialized {
            CameraAction::Spawn
        } else {
            CameraAction::Hold
        },
{
    match *tracker {
        CameraTracker::Uninitialized => {
            *tracker = CameraTracker::Tracking;
            CameraAction::Spawn
        },
        CameraTracker::Tracking => CameraAction::Hold,
    }
}

/// Decides the camera's move for one frame. Without a camera or without a
/// player the camera is held: it is neither moved nor reset.
pub fn update_camera_position(tracker: &CameraTracker, player: Option<Position>) -> (action:
    CameraAction)
    ensures
        action == camera_action(*tracker, player),
{
    match (*tracker, player) {
        (CameraTracker::Tracking, Some(target)) => CameraAction::Follow { target },
        _ => CameraAction::Hold,
    }
}

/// The camera's steps: the spawn when the game is entered, and the decision
/// of every playable frame.
#[derive(Clone, Copy, Debug, PartialEq, Eq, Structural)]
pub struct FollowCameraPlugin;

impl StageView {
    /// The stage once the camera has been set up.
    pub open spec fn camera_ready(self) -> StageView {
        StageView { camera: CameraTracker::Tracking, ..self }
    }

    /// The camera's move for a frame on this stage. Outside the playable
    /// phase the camera is held.
    pub open spec fn camera_move(self, playing: bool) -> CameraAction {
        if playing {
            camera_action(self.camera, self.player_position())
        } else {
            CameraAction::Hold
        }
    }
}

impl FollowCameraPlugin {
    /// Sets the camera up when the game is entered. Only the first call on a
    /// stage asks for a spawn.
    pub fn start(&self, stage: &mut Stage) -> (action: CameraAction)
        ensures
            final(stage)@ == old(stage)@.camera_ready(),
            action == if old(stage).camera == CameraTracker::Uninitialized {
                CameraAction::Spawn
            } else {
                CameraAction::Hold
            },
    {
        setup_camera(&mut stage.camera)
    }

    /// Decides the camera's move for one frame, if the game is in its
    /// playable phase.
    pub fn update(&self, stage: &Stage, playing: bool) -> (action: CameraAction)
        ensures
            action == stage@.camera_move(playing),
    {
        if playing {
            let player: Option<Position> = match stage.player {
                Some(actor) => Some(actor.sprite.position),
                None => None,
            };
            update_camera_position(&stage.camera, player)
        } else {
            CameraAction::Hold
        }
    }
}

} // verus!
