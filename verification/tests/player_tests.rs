use dodge_the_creeps::player::{
    movement_axes, sprite_cue, DirectionalInput, Player, PlayerAction, SpriteCue,
};

fn held(right: bool, left: bool, up: bool, down: bool) -> DirectionalInput {
    DirectionalInput { right, left, up, down }
}

#[test]
fn axes_single_directions() {
    assert_eq!(movement_axes(held(true, false, false, false)), (1, 0));
    assert_eq!(movement_axes(held(false, true, false, false)), (-1, 0));
    assert_eq!(movement_axes(held(false, false, true, false)), (0, -1));
    assert_eq!(movement_axes(held(false, false, false, true)), (0, 1));
}

#[test]
fn axes_idle() {
    assert_eq!(movement_axes(held(false, false, false, false)), (0, 0));
}

#[test]
fn axes_opposed_directions() {
    // Left is applied after right, down after up, so they win when both are held.
    assert_eq!(movement_axes(held(true, true, false, false)), (-1, 0));
    assert_eq!(movement_axes(held(false, false, true, true)), (0, 1));
    assert_eq!(movement_axes(held(true, true, true, true)), (-1, 1));
}

#[test]
fn axes_diagonal() {
    assert_eq!(movement_axes(held(true, false, true, false)), (1, -1));
}

#[test]
fn sprite_cue_walks_sideways() {
    assert_eq!(sprite_cue(1, 0), SpriteCue::Walk { flip_h: false });
    assert_eq!(sprite_cue(-1, 0), SpriteCue::Walk { flip_h: true });
}

#[test]
fn sprite_cue_horizontal_wins_over_vertical() {
    assert_eq!(sprite_cue(1, 1), SpriteCue::Walk { flip_h: false });
    assert_eq!(sprite_cue(-1, -1), SpriteCue::Walk { flip_h: true });
}

#[test]
fn sprite_cue_vertical() {
    assert_eq!(sprite_cue(0, -1), SpriteCue::Up { flip_v: false });
    assert_eq!(sprite_cue(0, 1), SpriteCue::Up { flip_v: true });
}

#[test]
fn sprite_cue_stops_when_idle() {
    assert_eq!(sprite_cue(0, 0), SpriteCue::Stop);
}

#[test]
fn player_start_shows_and_arms() {
    let mut p = Player::new();
    assert_eq!(p.speed, 400);
    p.on_ready();
    assert!(!p.visible);
    let acts = p.start();
    assert!(p.visible);
    assert!(p.collision_enabled);
    assert_eq!(p.speed, 400);
    assert_eq!(
        acts,
        vec![
            PlayerAction::MoveToStartPosition,
            PlayerAction::Show,
            PlayerAction::EnableCollision,
            PlayerAction::RestartParticles,
        ]
    );
}

#[test]
fn player_hit_hides_and_disarms() {
    let mut p = Player::new();
    let _ = p.start();
    let acts = p.on_body_entered();
    assert!(!p.visible);
    assert!(!p.collision_enabled);
    assert_eq!(
        acts,
        vec![
            PlayerAction::Hide,
            PlayerAction::EmitHit,
            PlayerAction::DisableCollision,
        ]
    );
}
