use sprite_presentation::camera::{CameraAction, CameraTracker, FollowCameraPlugin};
use sprite_presentation::clock::AnimationTimer;
use sprite_presentation::frames::{AnimatedEntity, Category, LocomotionState};
use sprite_presentation::orientation::{Position, Sprite};
use sprite_presentation::pipeline::present_frame;
use sprite_presentation::stage::{Actor, FrameInput, Stage};

fn actor_at(category: Category, frame_index: usize, x: i64, flip_x: bool) -> Actor {
    Actor {
        animation: AnimatedEntity { frame_index, clock: AnimationTimer::new(100), category },
        sprite: Sprite { position: Position { x, y: 3 }, flip_x, flip_y: false },
    }
}

fn frame(playing: bool, delta_nanos: u64, cursor: Option<Position>) -> FrameInput {
    FrameInput {
        playing,
        delta_nanos,
        locomotion: LocomotionState::Idle,
        cursor,
        atlas_columns: 8,
    }
}

#[test]
fn frame_without_a_player_leaves_camera_and_orientation_alone() {
    let mut scene = Stage {
        player: None,
        enemies: vec![
            actor_at(Category::Enemy, 12, 20, false),
            actor_at(Category::Enemy, 13, 5, true),
        ],
        weapon: None,
        camera: CameraTracker::Tracking,
    };
    let action = present_frame(&mut scene, &frame(true, 100, Some(Position { x: 0, y: 0 })));
    assert_eq!(action, CameraAction::Hold);
    assert_eq!(scene.player, None);
    assert_eq!(scene.weapon, None);
    assert_eq!(scene.camera, CameraTracker::Tracking);
    assert_eq!(scene.enemies.len(), 2);
    assert_eq!(scene.enemies[0].sprite, actor_at(Category::Enemy, 12, 20, false).sprite);
    assert_eq!(scene.enemies[1].sprite, actor_at(Category::Enemy, 13, 5, true).sprite);
    assert_eq!(scene.enemies[0].animation.frame_index, 13);
    assert_eq!(scene.enemies[1].animation.frame_index, 12);
}

#[test]
fn frame_on_an_empty_stage_changes_nothing() {
    let mut scene = Stage {
        player: None,
        enemies: Vec::new(),
        weapon: None,
        camera: CameraTracker::Uninitialized,
    };
    let action = present_frame(&mut scene, &frame(true, 1_000, None));
    assert_eq!(action, CameraAction::Hold);
    assert_eq!(
        scene,
        Stage {
            player: None,
            enemies: Vec::new(),
            weapon: None,
            camera: CameraTracker::Uninitialized,
        }
    );
}

#[test]
fn weapon_turns_to_the_cursor_even_without_a_player() {
    let weapon = Sprite { position: Position { x: 10, y: 0 }, flip_x: false, flip_y: false };
    let mut scene = Stage {
        player: None,
        enemies: Vec::new(),
        weapon: Some(weapon),
        camera: CameraTracker::Tracking,
    };
    let action = present_frame(&mut scene, &frame(true, 16, Some(Position { x: 5, y: 0 })));
    assert_eq!(action, CameraAction::Hold);
    assert_eq!(scene.weapon, Some(Sprite { flip_y: true, ..weapon }));
    let mut calm = Stage {
        player: None,
        enemies: Vec::new(),
        weapon: Some(weapon),
        camera: CameraTracker::Tracking,
    };
    present_frame(&mut calm, &frame(true, 16, None));
    assert_eq!(calm.weapon, Some(weapon));
}

#[test]
fn frame_with_a_player_animates_turns_and_follows() {
    let mut scene = Stage {
        player: Some(actor_at(Category::Player, 3, 10, false)),
        enemies: vec![actor_at(Category::Enemy, 12, 20, false)],
        weapon: Some(Sprite { position: Position { x: 11, y: 3 }, flip_x: false, flip_y: false }),
        camera: CameraTracker::Uninitialized,
    };
    assert_eq!(FollowCameraPlugin.start(&mut scene), CameraAction::Spawn);
    let first = present_frame(&mut scene, &frame(true, 60, Some(Position { x: 5, y: 0 })));
    assert_eq!(first, CameraAction::Follow { target: Position { x: 10, y: 3 } });
    assert_eq!(scene.player.unwrap().animation.frame_index, 3);
    assert!(scene.player.unwrap().sprite.flip_x);
    assert!(scene.enemies[0].sprite.flip_x);
    assert!(scene.weapon.unwrap().flip_y);
    let second = present_frame(&mut scene, &frame(true, 60, None));
    assert_eq!(second, CameraAction::Follow { target: Position { x: 10, y: 3 } });
    assert_eq!(scene.player.unwrap().animation.frame_index, 0);
    assert_eq!(scene.player.unwrap().animation.clock.elapsed_nanos, 20);
    assert_eq!(scene.enemies[0].animation.frame_index, 13);
    assert!(scene.player.unwrap().sprite.flip_x);
    assert!(scene.weapon.unwrap().flip_y);
    let third = present_frame(&mut scene, &frame(true, 60, Some(Position { x: 50, y: 0 })));
    assert_eq!(third, CameraAction::Follow { target: Position { x: 10, y: 3 } });
    assert_eq!(scene.player.unwrap().animation.frame_index, 0);
    assert_eq!(scene.enemies[0].animation.frame_index, 13);
    assert!(!scene.player.unwrap().sprite.flip_x);
    assert!(!scene.weapon.unwrap().flip_y);
    assert!(scene.enemies[0].sprite.flip_x);
}

#[test]
fn frame_outside_the_playable_phase_changes_nothing() {
    let mut scene = Stage {
        player: Some(actor_at(Category::Player, 3, 10, false)),
        enemies: vec![actor_at(Category::Enemy, 12, 20, false)],
        weapon: None,
        camera: CameraTracker::Tracking,
    };
    let action = present_frame(&mut scene, &frame(false, 500, Some(Position { x: 5, y: 0 })));
    assert_eq!(action, CameraAction::Hold);
    assert_eq!(
        scene,
        Stage {
            player: Some(actor_at(Category::Player, 3, 10, false)),
            enemies: vec![actor_at(Category::Enemy, 12, 20, false)],
            weapon: None,
            camera: CameraTracker::Tracking,
        }
    );
}

#[test]
fn player_returns_to_its_first_frame_after_four_fires_on_a_sheet_of_eight_columns() {
    let mut scene = Stage {
        player: Some(actor_at(Category::Player, 2, 0, false)),
        enemies: Vec::new(),
        weapon: None,
        camera: CameraTracker::Tracking,
    };
    let mut seen: Vec<usize> = Vec::new();
    for _ in 0..4 {
        present_frame(&mut scene, &frame(true, 100, None));
        seen.push(scene.player.unwrap().animation.frame_index);
    }
    assert_eq!(seen, vec![3, 0, 1, 2]);
}
