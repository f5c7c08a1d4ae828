use player_core::physics::Physics;
use player_core::state::{
    MoveDirection, PlayerInputs, PlayerState, PlayerStateKind, PlayerStatus, Vec2,
    handle_attack_combo, player_movement_state, step_finished, step_intent,
};

fn grounded(stack: Vec<PlayerStateKind>) -> (PlayerState, PlayerStatus, Physics) {
    (
        PlayerState(stack),
        PlayerStatus::default(),
        Physics {
            velocity: Vec2 { x: 0, y: 0 },
            acceleration: Vec2 { x: 0, y: 0 },
            on_ground: true,
        },
    )
}

fn airborne(stack: Vec<PlayerStateKind>) -> (PlayerState, PlayerStatus, Physics) {
    let (s, st, mut p) = grounded(stack);
    p.on_ground = false;
    (s, st, p)
}

fn walk(x: i64) -> PlayerStateKind {
    PlayerStateKind::Walk(Vec2 { x, y: 0 })
}

fn run(x: i64) -> PlayerStateKind {
    PlayerStateKind::Run(Vec2 { x, y: 0 })
}

fn jump(x: i64, y: i64) -> PlayerStateKind {
    PlayerStateKind::Jump(Vec2 { x, y })
}

#[test]
fn current_state_of_empty_stack_is_idle() {
    let state = PlayerState(vec![]);
    assert_eq!(state.current_state(), PlayerStateKind::Idle);
}

#[test]
fn current_state_is_last_pushed() {
    let mut state = PlayerState(vec![PlayerStateKind::Idle]);
    state.push_state(walk(64));
    assert_eq!(state.current_state(), walk(64));
}

#[test]
fn default_stack_is_one_idle() {
    let state = PlayerState::default();
    assert_eq!(state.0, vec![PlayerStateKind::Idle]);
}

#[test]
fn can_attack_from_idle_walk_run_only() {
    assert!(PlayerState(vec![PlayerStateKind::Idle]).can_attack());
    assert!(PlayerState(vec![walk(64)]).can_attack());
    assert!(PlayerState(vec![run(128)]).can_attack());
    assert!(!PlayerState(vec![PlayerStateKind::Attack]).can_attack());
    assert!(!PlayerState(vec![jump(0, 64)]).can_attack());
    assert!(!PlayerState(vec![PlayerStateKind::Hurt]).can_attack());
    assert!(!PlayerState(vec![PlayerStateKind::Dead]).can_attack());
}

#[test]
fn walk_replaces_idle_when_grounded() {
    let (mut s, mut st, mut p) = grounded(vec![PlayerStateKind::Idle]);
    step_intent(&mut s, &mut st, &mut p, &PlayerInputs::Walk(MoveDirection::Right));
    assert_eq!(s.0, vec![walk(64)]);
    let (mut s, mut st, mut p) = grounded(vec![PlayerStateKind::Idle]);
    step_intent(&mut s, &mut st, &mut p, &PlayerInputs::Walk(MoveDirection::Left));
    assert_eq!(s.0, vec![walk(-64)]);
}

#[test]
fn walk_while_airborne_is_ignored() {
    let (mut s, mut st, mut p) = airborne(vec![PlayerStateKind::Idle]);
    step_intent(&mut s, &mut st, &mut p, &PlayerInputs::Walk(MoveDirection::Right));
    assert_eq!(s.0, vec![PlayerStateKind::Idle]);
}

#[test]
fn run_upgrades_active_walk_to_double_speed() {
    let (mut s, mut st, mut p) = grounded(vec![walk(64)]);
    step_intent(&mut s, &mut st, &mut p, &PlayerInputs::Run);
    assert_eq!(s.0, vec![walk(64), run(128)]);
    let (mut s, mut st, mut p) = grounded(vec![walk(-64)]);
    step_intent(&mut s, &mut st, &mut p, &PlayerInputs::Run);
    assert_eq!(s.0, vec![walk(-64), run(-128)]);
}

#[test]
fn run_without_active_walk_never_changes_the_stack() {
    let (mut s, mut st, mut p) = grounded(vec![PlayerStateKind::Idle]);
    step_intent(&mut s, &mut st, &mut p, &PlayerInputs::Run);
    assert_eq!(s.0, vec![PlayerStateKind::Idle]);
    let (mut s, mut st, mut p) = grounded(vec![PlayerStateKind::Attack]);
    step_intent(&mut s, &mut st, &mut p, &PlayerInputs::Run);
    assert_eq!(s.0, vec![PlayerStateKind::Attack]);
}

#[test]
fn run_while_airborne_never_changes_the_stack() {
    let (mut s, mut st, mut p) = airborne(vec![walk(64)]);
    step_intent(&mut s, &mut st, &mut p, &PlayerInputs::Run);
    assert_eq!(s.0, vec![walk(64)]);
}

#[test]
fn jump_carries_walk_horizontal_velocity() {
    let (mut s, mut st, mut p) = grounded(vec![walk(64)]);
    step_intent(&mut s, &mut st, &mut p, &PlayerInputs::Jump);
    assert_eq!(s.0, vec![walk(64), jump(64, 64)]);
}

#[test]
fn jump_carries_run_horizontal_velocity() {
    let (mut s, mut st, mut p) = grounded(vec![walk(-64), run(-128)]);
    step_intent(&mut s, &mut st, &mut p, &PlayerInputs::Jump);
    assert_eq!(s.0, vec![walk(-64), run(-128), jump(-128, 64)]);
}

#[test]
fn jump_from_idle_has_no_horizontal_carry() {
    let (mut s, mut st, mut p) = grounded(vec![PlayerStateKind::Idle]);
    step_intent(&mut s, &mut st, &mut p, &PlayerInputs::Jump);
    assert_eq!(s.0, vec![jump(0, 64)]);
}

#[test]
fn jump_while_airborne_is_ignored() {
    let (mut s, mut st, mut p) = airborne(vec![walk(64)]);
    step_intent(&mut s, &mut st, &mut p, &PlayerInputs::Jump);
    assert_eq!(s.0, vec![walk(64)]);
}

#[test]
fn attack_from_walk_interrupts_movement_display() {
    let (mut s, mut st, mut p) = grounded(vec![walk(64)]);
    step_intent(&mut s, &mut st, &mut p, &PlayerInputs::Attack);
    assert_eq!(s.0, vec![walk(64), PlayerStateKind::Attack]);
    assert_eq!(st.attack_combo, 1);
}

#[test]
fn attack_while_attacking_is_ignored() {
    let (mut s, mut st, mut p) = grounded(vec![PlayerStateKind::Attack]);
    step_intent(&mut s, &mut st, &mut p, &PlayerInputs::Attack);
    assert_eq!(s.0, vec![PlayerStateKind::Attack]);
    assert_eq!(st.attack_combo, 0);
}

#[test]
fn attack_while_airborne_is_ignored() {
    let (mut s, mut st, mut p) = airborne(vec![PlayerStateKind::Idle]);
    step_intent(&mut s, &mut st, &mut p, &PlayerInputs::Attack);
    assert_eq!(s.0, vec![PlayerStateKind::Idle]);
    assert_eq!(st.attack_combo, 0);
}

#[test]
fn walk_end_removes_matching_walk_and_refills_idle() {
    let (mut s, mut st, mut p) = grounded(vec![walk(64)]);
    p.velocity = Vec2 { x: 64, y: 0 };
    step_intent(&mut s, &mut st, &mut p, &PlayerInputs::WalkEnd(MoveDirection::Right));
    assert_eq!(s.0, vec![PlayerStateKind::Idle]);
    assert_eq!(p.velocity, Vec2 { x: 0, y: 0 });
}

#[test]
fn walk_end_keeps_opposite_walk() {
    let (mut s, mut st, mut p) = grounded(vec![walk(-64), walk(64)]);
    step_intent(&mut s, &mut st, &mut p, &PlayerInputs::WalkEnd(MoveDirection::Left));
    assert_eq!(s.0, vec![walk(64)]);
}

#[test]
fn walk_end_removes_every_run() {
    let (mut s, mut st, mut p) = grounded(vec![walk(64), run(128)]);
    step_intent(&mut s, &mut st, &mut p, &PlayerInputs::WalkEnd(MoveDirection::Right));
    assert_eq!(s.0, vec![PlayerStateKind::Idle]);
}

#[test]
fn walk_end_keeps_transient_and_puts_idle_on_top() {
    // Attack stays layered; the idle refill still applies and Idle stays unique.
    let (mut s, mut st, mut p) = grounded(vec![walk(64), PlayerStateKind::Attack]);
    step_intent(&mut s, &mut st, &mut p, &PlayerInputs::WalkEnd(MoveDirection::Right));
    assert_eq!(s.0, vec![PlayerStateKind::Attack, PlayerStateKind::Idle]);
    let idles = s.0.iter().filter(|t| matches!(t, PlayerStateKind::Idle)).count();
    assert_eq!(idles, 1);
}

#[test]
fn walk_end_while_airborne_still_removes_but_adds_no_idle() {
    let (mut s, mut st, mut p) = airborne(vec![walk(64), jump(64, 64)]);
    step_intent(&mut s, &mut st, &mut p, &PlayerInputs::WalkEnd(MoveDirection::Right));
    assert_eq!(s.0, vec![jump(64, 64)]);
}

#[test]
fn walk_end_never_leaves_the_stack_empty() {
    let (mut s, mut st, mut p) = airborne(vec![walk(-64)]);
    step_intent(&mut s, &mut st, &mut p, &PlayerInputs::WalkEnd(MoveDirection::Left));
    assert_eq!(s.0, vec![PlayerStateKind::Idle]);
}

#[test]
fn run_end_halves_top_run_and_zeroes_velocity() {
    let (mut s, mut st, mut p) = grounded(vec![walk(64), run(128)]);
    p.velocity = Vec2 { x: 128, y: 0 };
    step_intent(&mut s, &mut st, &mut p, &PlayerInputs::RunEnd);
    assert_eq!(s.0, vec![walk(64), walk(64)]);
    assert_eq!(p.velocity, Vec2 { x: 0, y: 0 });
}

#[test]
fn run_end_without_top_run_changes_nothing() {
    let (mut s, mut st, mut p) = grounded(vec![walk(64)]);
    p.velocity = Vec2 { x: 64, y: 0 };
    step_intent(&mut s, &mut st, &mut p, &PlayerInputs::RunEnd);
    assert_eq!(s.0, vec![walk(64)]);
    assert_eq!(p.velocity, Vec2 { x: 64, y: 0 });
}

#[test]
fn finished_pops_transient_and_reveals_walk() {
    let (mut s, mut st, mut p) = grounded(vec![walk(64), jump(64, 64)]);
    step_finished(&mut s, &mut st, &mut p);
    assert_eq!(s.0, vec![walk(64)]);
    // A further finished event is a no-op: Walk is not transient.
    step_finished(&mut s, &mut st, &mut p);
    assert_eq!(s.0, vec![walk(64)]);
}

#[test]
fn finished_on_lone_attack_refills_idle_and_zeroes_horizontal_velocity() {
    let (mut s, mut st, mut p) = grounded(vec![PlayerStateKind::Attack]);
    p.velocity = Vec2 { x: 64, y: -5 };
    step_finished(&mut s, &mut st, &mut p);
    assert_eq!(s.0, vec![PlayerStateKind::Idle]);
    assert_eq!(p.velocity, Vec2 { x: 0, y: -5 });
}

#[test]
fn finished_resets_combo_when_pop_reveals_an_attack() {
    let (mut s, mut st, mut p) = grounded(vec![PlayerStateKind::Attack, jump(0, 64)]);
    st.attack_combo = 2;
    step_finished(&mut s, &mut st, &mut p);
    assert_eq!(s.0, vec![PlayerStateKind::Attack]);
    assert_eq!(st.attack_combo, 0);
}

#[test]
fn combo_wraps_one_two_zero() {
    let (mut s, mut st, mut p) = grounded(vec![PlayerStateKind::Idle]);
    let mut seen = vec![];
    for _ in 0..3 {
        step_intent(&mut s, &mut st, &mut p, &PlayerInputs::Attack);
        seen.push(st.attack_combo);
        step_finished(&mut s, &mut st, &mut p);
    }
    assert_eq!(seen, vec![1, 2, 0]);
}

#[test]
fn handle_attack_combo_counts_only_accepted_attacks() {
    let state = PlayerState(vec![PlayerStateKind::Idle]);
    let mut st = PlayerStatus::default();
    handle_attack_combo(&mut st, &state, true);
    assert_eq!(st.attack_combo, 1);
    handle_attack_combo(&mut st, &state, false);
    assert_eq!(st.attack_combo, 1);
    let attacking = PlayerState(vec![PlayerStateKind::Attack]);
    handle_attack_combo(&mut st, &attacking, true);
    assert_eq!(st.attack_combo, 1);
}

#[test]
fn movement_state_drains_intents_in_order_then_finished() {
    let (mut s, mut st, mut p) = grounded(vec![PlayerStateKind::Idle]);
    let intents = vec![PlayerInputs::Walk(MoveDirection::Right), PlayerInputs::Jump];
    player_movement_state(&mut s, &mut st, &mut p, &intents, false);
    assert_eq!(s.0, vec![walk(64), jump(64, 64)]);
    // Next tick: the buffered finished event pops the jump.
    player_movement_state(&mut s, &mut st, &mut p, &vec![], true);
    assert_eq!(s.0, vec![walk(64)]);
}

#[test]
fn stack_stays_nonempty_and_idle_unique_over_a_long_event_storm() {
    let (mut s, mut st, mut p) = grounded(vec![PlayerStateKind::Idle]);
    let storm = vec![
        PlayerInputs::Walk(MoveDirection::Left),
        PlayerInputs::Run,
        PlayerInputs::Jump,
        PlayerInputs::WalkEnd(MoveDirection::Left),
        PlayerInputs::Attack,
        PlayerInputs::RunEnd,
        PlayerInputs::Walk(MoveDirection::Right),
        PlayerInputs::WalkEnd(MoveDirection::Right),
    ];
    for round in 0..50 {
        p.on_ground = round % 3 != 0;
        for ev in &storm {
            step_intent(&mut s, &mut st, &mut p, ev);
            assert!(!s.0.is_empty());
            let idles = s.0.iter().filter(|t| matches!(t, PlayerStateKind::Idle)).count();
            assert!(idles <= 1);
        }
        step_finished(&mut s, &mut st, &mut p);
        assert!(!s.0.is_empty());
    }
}
