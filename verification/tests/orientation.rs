use sprite_presentation::orientation::{Position, Sprite};

fn at(x: i64) -> Position {
    Position { x, y: 0 }
}

fn sprite_at(x: i64, flip_x: bool, flip_y: bool) -> Sprite {
    Sprite { position: at(x), flip_x, flip_y }
}

#[test]
fn player_is_mirrored_when_the_cursor_is_to_its_left() {
    let mut sprite = sprite_at(10, false, false);
    sprite.face_cursor_x(Some(at(5)));
    assert_eq!(sprite, sprite_at(10, true, false));
}

#[test]
fn player_is_not_mirrored_when_the_cursor_is_to_its_right() {
    let mut sprite = sprite_at(10, true, false);
    sprite.face_cursor_x(Some(at(15)));
    assert_eq!(sprite, sprite_at(10, false, false));
}

#[test]
fn player_keeps_its_flag_without_a_cursor() {
    let mut mirrored = sprite_at(10, true, false);
    mirrored.face_cursor_x(None);
    assert_eq!(mirrored, sprite_at(10, true, false));
    let mut plain = sprite_at(10, false, true);
    plain.face_cursor_x(None);
    assert_eq!(plain, sprite_at(10, false, true));
}

#[test]
fn player_is_not_mirrored_when_the_cursor_is_straight_above() {
    let mut sprite = sprite_at(10, true, false);
    sprite.face_cursor_x(Some(Position { x: 10, y: 99 }));
    assert!(!sprite.flip_x);
}

#[test]
fn enemy_is_mirrored_when_it_stands_to_the_right_of_the_player() {
    let mut sprite = sprite_at(20, false, false);
    sprite.face_player_x(at(10));
    assert_eq!(sprite, sprite_at(20, true, false));
}

#[test]
fn enemy_is_not_mirrored_when_it_stands_to_the_left_of_the_player() {
    let mut sprite = sprite_at(5, true, false);
    sprite.face_player_x(at(10));
    assert_eq!(sprite, sprite_at(5, false, false));
}

#[test]
fn enemy_is_not_mirrored_when_it_stands_on_the_player() {
    let mut sprite = sprite_at(10, true, true);
    sprite.face_player_x(at(10));
    assert_eq!(sprite, sprite_at(10, false, true));
}

#[test]
fn weapon_turns_about_the_other_axis() {
    let mut sprite = sprite_at(10, false, false);
    sprite.face_cursor_y(Some(at(5)));
    assert_eq!(sprite, sprite_at(10, false, true));
    sprite.face_cursor_y(Some(at(15)));
    assert_eq!(sprite, sprite_at(10, false, false));
    sprite.face_cursor_y(Some(at(10)));
    assert_eq!(sprite, sprite_at(10, false, false));
}

#[test]
fn weapon_keeps_its_flag_without_a_cursor() {
    let mut sprite = sprite_at(10, true, true);
    sprite.face_cursor_y(None);
    assert_eq!(sprite, sprite_at(10, true, true));
}

#[test]
fn rules_hold_at_the_ends_of_the_coordinate_range() {
    let mut sprite = sprite_at(i64::MIN, false, false);
    sprite.face_cursor_x(Some(at(i64::MAX)));
    assert!(!sprite.flip_x);
    sprite.face_player_x(at(i64::MAX));
    assert!(!sprite.flip_x);
    let mut far = sprite_at(i64::MAX, false, false);
    far.face_cursor_x(Some(at(i64::MIN)));
    assert!(far.flip_x);
    far.face_cursor_y(Some(at(i64::MIN)));
    assert!(far.flip_y);
    far.face_player_x(at(i64::MIN));
    assert!(far.flip_x);
}
