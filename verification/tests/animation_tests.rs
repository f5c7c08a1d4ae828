use player_core::animation::{
    AnimationClip, FrameTimer, IDLE_VARIANT_MS, IdleTimer, SpriteAnimState, animate_sprite,
    select_clip, setup_animation_clips, update_player_animation,
};
use player_core::state::{PlayerState, PlayerStateKind, PlayerStatus, Vec2};

#[test]
fn catalog_has_the_authored_frame_ranges() {
    let clips = setup_animation_clips();
    assert_eq!(clips.idle_1, AnimationClip { start: 0, end: 6, frame_duration_ms: 83 });
    assert_eq!(clips.idle_2, AnimationClip { start: 7, end: 19, frame_duration_ms: 83 });
    assert_eq!(clips.walk, AnimationClip { start: 20, end: 29, frame_duration_ms: 100 });
    assert_eq!(clips.run, AnimationClip { start: 30, end: 39, frame_duration_ms: 100 });
    assert_eq!(clips.jump, AnimationClip { start: 40, end: 49, frame_duration_ms: 100 });
    assert_eq!(clips.attack_1, AnimationClip { start: 50, end: 55, frame_duration_ms: 66 });
    assert_eq!(clips.attack_2, AnimationClip { start: 56, end: 59, frame_duration_ms: 66 });
    assert_eq!(clips.attack_3, AnimationClip { start: 60, end: 65, frame_duration_ms: 66 });
    assert_eq!(clips.hurt, AnimationClip { start: 66, end: 69, frame_duration_ms: 100 });
    assert_eq!(clips.dead, AnimationClip { start: 70, end: 74, frame_duration_ms: 200 });
}

#[test]
fn frame_timer_fires_and_wraps_with_the_remainder() {
    let mut timer = FrameTimer::new(100);
    assert!(!timer.tick(30));
    assert_eq!(timer.elapsed_ms, 30);
    assert!(timer.tick(80));
    assert_eq!(timer.elapsed_ms, 10);
    assert!(timer.tick(200));
    assert_eq!(timer.elapsed_ms, 10);
}

#[test]
fn idle_timer_finishes_once_the_threshold_elapses() {
    let mut timer = IdleTimer::new();
    timer.tick(IDLE_VARIANT_MS - 1);
    assert!(!timer.finished());
    timer.tick(1);
    assert!(timer.finished());
    timer.tick(500);
    assert!(timer.finished());
    timer.reset();
    assert!(!timer.finished());
    assert_eq!(timer.elapsed_ms, 0);
}

#[test]
fn animate_sprite_advances_one_frame_per_fire() {
    let mut anim = SpriteAnimState {
        start_index: 0,
        end_index: 2,
        index: 0,
        timer: FrameTimer::new(100),
    };
    assert!(!animate_sprite(&mut anim, 100));
    assert_eq!(anim.index, 1);
    assert!(!animate_sprite(&mut anim, 100));
    assert_eq!(anim.index, 2);
    // Past the end: wrap to the start and report the clip finished.
    assert!(animate_sprite(&mut anim, 100));
    assert_eq!(anim.index, 0);
}

#[test]
fn animate_sprite_waits_for_the_countdown() {
    let mut anim = SpriteAnimState {
        start_index: 0,
        end_index: 5,
        index: 3,
        timer: FrameTimer::new(100),
    };
    assert!(!animate_sprite(&mut anim, 40));
    assert_eq!(anim.index, 3);
    assert!(!animate_sprite(&mut anim, 40));
    assert_eq!(anim.index, 3);
    assert!(!animate_sprite(&mut anim, 40));
    assert_eq!(anim.index, 4);
}

#[test]
fn select_clip_maps_each_state() {
    let clips = setup_animation_clips();
    let w = Vec2 { x: 64, y: 0 };
    assert_eq!(select_clip(PlayerStateKind::Idle, false, 0, &clips), clips.idle_1);
    assert_eq!(select_clip(PlayerStateKind::Idle, true, 0, &clips), clips.idle_2);
    assert_eq!(select_clip(PlayerStateKind::Walk(w), false, 0, &clips), clips.walk);
    assert_eq!(select_clip(PlayerStateKind::Run(w), false, 0, &clips), clips.run);
    assert_eq!(select_clip(PlayerStateKind::Jump(w), false, 0, &clips), clips.jump);
    assert_eq!(select_clip(PlayerStateKind::Hurt, false, 0, &clips), clips.hurt);
    assert_eq!(select_clip(PlayerStateKind::Dead, false, 0, &clips), clips.dead);
}

#[test]
fn select_clip_picks_attack_variant_by_combo() {
    let clips = setup_animation_clips();
    assert_eq!(select_clip(PlayerStateKind::Attack, false, 1, &clips), clips.attack_1);
    assert_eq!(select_clip(PlayerStateKind::Attack, false, 2, &clips), clips.attack_2);
    assert_eq!(select_clip(PlayerStateKind::Attack, false, 0, &clips), clips.attack_3);
}

#[test]
fn selector_resets_playback_on_a_clip_change() {
    let clips = setup_animation_clips();
    let mut anim = SpriteAnimState::default();
    let mut status = PlayerStatus::default();
    let state = PlayerState(vec![PlayerStateKind::Walk(Vec2 { x: 64, y: 0 })]);
    update_player_animation(&mut anim, &mut status, &state, &clips, 16);
    assert_eq!(anim.start_index, 20);
    assert_eq!(anim.end_index, 29);
    assert_eq!(anim.index, 20);
    assert_eq!(anim.timer.duration_ms, 100);
    assert_eq!(anim.timer.elapsed_ms, 0);
}

#[test]
fn selector_does_not_reset_playback_on_the_same_clip() {
    let clips = setup_animation_clips();
    let mut anim = SpriteAnimState::default();
    let mut status = PlayerStatus::default();
    let state = PlayerState(vec![PlayerStateKind::Walk(Vec2 { x: 64, y: 0 })]);
    update_player_animation(&mut anim, &mut status, &state, &clips, 16);
    // Advance mid-clip, then re-select the same clip: playback must not reset.
    animate_sprite(&mut anim, 100);
    assert_eq!(anim.index, 21);
    update_player_animation(&mut anim, &mut status, &state, &clips, 16);
    assert_eq!(anim.index, 21);
}

#[test]
fn idle_switches_to_the_long_clip_after_the_idle_threshold() {
    let clips = setup_animation_clips();
    let mut anim = SpriteAnimState::default();
    let mut status = PlayerStatus::default();
    let state = PlayerState(vec![PlayerStateKind::Idle]);
    update_player_animation(&mut anim, &mut status, &state, &clips, 100);
    assert_eq!(anim.start_index, 0); // short idle
    update_player_animation(&mut anim, &mut status, &state, &clips, IDLE_VARIANT_MS);
    assert_eq!(anim.start_index, 7); // long idle
    assert_eq!(anim.end_index, 19);
}

#[test]
fn leaving_idle_resets_the_idle_clock() {
    let clips = setup_animation_clips();
    let mut anim = SpriteAnimState::default();
    let mut status = PlayerStatus::default();
    let idle = PlayerState(vec![PlayerStateKind::Idle]);
    update_player_animation(&mut anim, &mut status, &idle, &clips, IDLE_VARIANT_MS);
    assert!(status.idle_timer.finished());
    let walking = PlayerState(vec![PlayerStateKind::Walk(Vec2 { x: 64, y: 0 })]);
    update_player_animation(&mut anim, &mut status, &walking, &clips, 16);
    assert_eq!(status.idle_timer.elapsed_ms, 0);
    // Back to idling: the short clip plays again.
    update_player_animation(&mut anim, &mut status, &idle, &clips, 16);
    assert_eq!(anim.start_index, 0);
    assert_eq!(anim.end_index, 6);
}

#[test]
fn playback_default_matches_the_spawned_sprite() {
    let anim = SpriteAnimState::default();
    assert_eq!(anim.start_index, 0);
    assert_eq!(anim.end_index, 12);
    assert_eq!(anim.index, 0);
    assert_eq!(anim.timer.duration_ms, 83);
}

#[test]
fn status_default_is_a_fresh_player() {
    let status = PlayerStatus::default();
    assert_eq!(status.hp, 100);
    assert_eq!(status.points, 0);
    assert_eq!(status.attack_combo, 0);
    assert_eq!(status.idle_timer.elapsed_ms, 0);
}
