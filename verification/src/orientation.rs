//! The orientation resolver: which sprites are drawn mirrored, from where the
//! cursor, the player, the enemies and the weapon stand relative to each
//! other. The rules look at the current positions only; no clock is involved
//! and nothing is remembered across frames but the flags themselves.

use vstd::prelude::*;

verus! {

/// A point of the world. The rules compare horizontal coordinates only, so
/// any integer scale that keeps the world's left-to-right order serves.
#[derive(Clone, Copy, Debug, PartialEq, Eq, Structural)]
pub struct Position {
    pub x: i64,
    pub y: i64,
}

/// Where a sprite stands and about which axes it is drawn mirrored.
#[derive(Clone, Copy, Debug, PartialEq, Eq, Structural)]
pub struct Sprite {
    pub position: Position,
    pub flip_x: bool,
    pub flip_y: bool,
}

/// The player looks towards the cursor: mirrored exactly when the cursor is
/// to the left. Without a cursor the flag stays as it was.
pub open spec fn player_mirror(cursor: Option<Position>, player: Position, previous: bool) -> bool {
    match cursor {
        Some(point) => point.x < player.x,
        None => previous,
    }
}

/// An enemy looks towards the player: mirrored exactly when it stands to the
/// player's right.
pub open spec fn enemy_mirror(enemy: Position, player: Position) -> bool {
    enemy.x > player.x
}

/// The weapon points towards the cursor: mirrored exactly when the cursor is
/// to its left. The weapon's art is laid out so that this flag turns it about
/// the other axis than the player's and the enemies' flag. Without a cursor
/// the flag stays as it was.
pub open spec fn weapon_mirror(cursor: Option<Position>, weapon: Position, previous: bool) -> bool {
    match cursor {
        Some(point) => point.x < weapon.x,
        None => previous,
    }
}

impl Sprite {
    /// The player's sprite after the player rule.
    pub open spec fn facing_cursor_x(self, cursor: Option<Position>) -> Sprite {
        Sprite { flip_x: player_mirror(cursor, self.position, self.flip_x), ..self }
    }

    /// An enemy's sprite after the enemy rule.
    pub open spec fn facing_player_x(self, player: Position) -> Sprite {
        Sprite { flip_x: enemy_mirror(self.position, player), ..self }
    }

    /// The weapon's sprite after the weapon rule.
    pub open spec fn facing_cursor_y(self, cursor: Option<Position>) -> Sprite {
        Sprite { flip_y: weapon_mirror(cursor, self.position, self.flip_y), ..self }
    }

    /// Applies the player rule to this sprite.
    pub fn face_cursor_x(&mut self, cursor: Option<Position>)
        ensures
            *final(self) == old(self).facing_cursor_x(cursor),
    {
        match cursor {
            Some(point) => {
                self.flip_x = point.x < self.position.x;
            },
            None => {},
        }
    }

    /// Applies the enemy rule to this sprite.
    pub fn face_player_x(&mut self, player: Position)
        ensures
            *final(self) == old(self).facing_player_x(player),
    {
        self.flip_x = self.position.x > player.x;
    }

    /// Applies the weapon rule to this sprite.
    pub fn face_cursor_y(&mut self, cursor: Option<Position>)
        ensures
            *final(self) == old(self).facing_cursor_y(cursor),
    {
        match cursor {
            Some(point) => {
                self.flip_y = point.x < self.position.x;
            },
            None => {},
        }
    }
}

} // verus!
