//! The stage: everything that one frame of presentation reads and writes,
//! and what each step of a frame makes of it.

use crate::camera::CameraTracker;
use crate::frames::{
    enemy_frame_after, player_frame_after, AnimatedEntity, Category, LocomotionState,
};
use crate::orientation::{Position, Sprite};
use vstd::prelude::*;

verus! {

/// An entity that is both animated and drawn: the player or an enemy.
#[derive(Clone, Copy, Debug, PartialEq, Eq, Structural)]
pub struct Actor {
    pub animation: AnimatedEntity,
    pub sprite: Sprite,
}

/// The entities of the scene and the camera's state. The player and the
/// weapon may be missing, and there may be no enemies; every step skips what
/// is not there.
#[derive(Debug, PartialEq, Eq)]
pub struct Stage {
    pub player: Option<Actor>,
    pub enemies: Vec<Actor>,
    pub weapon: Option<Sprite>,
    pub camera: CameraTracker,
}

/// What the rest of the game hands over for one frame.
#[derive(Clone, Copy, Debug, PartialEq, Eq, Structural)]
pub struct FrameInput {
    /// Whether the game is in its playable phase.
    pub playing: bool,
    /// The time since the previous frame.
    pub delta_nanos: u64,
    /// How the player is moving.
    pub locomotion: LocomotionState,
    /// Where the cursor is, if the input source knows.
    pub cursor: Option<Position>,
    /// The number of columns of the sprite sheet.
    pub atlas_columns: usize,
}

/// The stage as a mathematical value.
pub struct StageView {
    pub player: Option<Actor>,
    pub enemies: Seq<Actor>,
    pub weapon: Option<Sprite>,
    pub camera: CameraTracker,
}

impl View for Stage {
    type V = StageView;

    open spec fn view(&self) -> StageView {
        StageView {
            player: self.player,
            enemies: self.enemies@,
            weapon: self.weapon,
            camera: self.camera,
        }
    }
}

impl Actor {
    /// The actor after its clock has taken one update.
    pub open spec fn clock_ticked(self, delta_nanos: u64) -> Actor {
        Actor {
            animation: AnimatedEntity {
                clock: self.animation.clock.ticked(delta_nanos),
                ..self.animation
            },
            ..self
        }
    }

    /// The actor after the player's frame rule: a player whose clock fired in
    /// this frame shows its next frame; any other actor is left alone.
    pub open spec fn animated_as_player(
        self,
        locomotion: LocomotionState,
        atlas_columns: usize,
    ) -> Actor {
        if self.animation.category == Category::Player && self.animation.clock.fired {
            Actor {
                animation: AnimatedEntity {
                    frame_index: player_frame_after(
                        self.animation.frame_index as nat,
                        locomotion,
                        atlas_columns as nat,
                    ) as usize,
                    ..self.animation
                },
                ..self
            }
        } else {
            self
        }
    }

    /// The actor after the enemies' frame rule: an enemy whose clock fired in
    /// this frame shows its next frame; any other actor is left alone.
    pub open spec fn animated_as_enemy(self, atlas_columns: usize) -> Actor {
        if self.animation.category == Category::Enemy && self.animation.clock.fired {
            Actor {
                animation: AnimatedEntity {
                    frame_index: enemy_frame_after(
                        self.animation.frame_index as nat,
                        atlas_columns as nat,
                    ) as usize,
                    ..self.animation
                },
                ..self
            }
        } else {
            self
        }
    }

    /// The actor with its sprite turned by the player's mirror rule.
    pub open spec fn facing_cursor(self, cursor: Option<Position>) -> Actor {
        Actor { sprite: self.sprite.facing_cursor_x(cursor), ..self }
    }

    /// The actor with its sprite turned by the enemies' mirror rule.
    pub open spec fn facing_player(self, player: Position) -> Actor {
        Actor { sprite: self.sprite.facing_player_x(player), ..self }
    }
}

impl StageView {
    /// Where the player stands, if there is one.
    pub open spec fn player_position(self) -> Option<Position> {
        match self.player {
            Some(player) => Some(player.sprite.position),
            None => None,
        }
    }

    /// Every clock has taken one update.
    pub open spec fn clocks_ticked(self, delta_nanos: u64) -> StageView {
        StageView {
            player: match self.player {
                Some(player) => Some(player.clock_ticked(delta_nanos)),
                None => None,
            },
            enemies: Seq::new(
                self.enemies.len(),
                |i: int| self.enemies[i].clock_ticked(delta_nanos),
            ),
            ..self
        }
    }

    /// The player's frame rule has been applied.
    pub open spec fn player_animated(
        self,
        locomotion: LocomotionState,
        atlas_columns: usize,
    ) -> StageView {
        StageView {
            player: match self.player {
                Some(player) => Some(player.animated_as_player(locomotion, atlas_columns)),
                None => None,
            },
            ..self
        }
    }

    /// The enemies' frame rule has been applied to each enemy.
    pub open spec fn enemies_animated(self, atlas_columns: usize) -> StageView {
        StageView {
            enemies: Seq::new(
                self.enemies.len(),
                |i: int| self.enemies[i].animated_as_enemy(atlas_columns),
            ),
            ..self
        }
    }

    /// The player's mirror rule has been applied.
    pub open spec fn player_flipped(self, cursor: Option<Position>) -> StageView {
        StageView {
            player: match self.player {
                Some(player) => Some(player.facing_cursor(cursor)),
                None => None,
            },
            ..self
        }
    }

    /// The enemies' mirror rule has been applied to each enemy. Without a
    /// player there is nothing to face, and nothing changes.
    pub open spec fn enemies_flipped(self) -> StageView {
        match self.player {
            Some(player) => StageView {
                enemies: Seq::new(
                    self.enemies.len(),
                    |i: int| self.enemies[i].facing_player(player.sprite.position),
                ),
                ..self
            },
            None => self,
        }
    }

    /// The weapon's mirror rule has been applied.
    pub open spec fn weapon_flipped(self, cursor: Option<Position>) -> StageView {
        StageView {
            weapon: match self.weapon {
                Some(weapon) => Some(weapon.facing_cursor_y(cursor)),
                None => None,
            },
            ..self
        }
    }
}

} // verus!
