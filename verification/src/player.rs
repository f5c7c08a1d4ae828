//! The player entity and the per-tick pipeline: input translation, the
//! state stack machine, the derived-motion step, gravity and collision, and
//! the animation selector and driver, in that strict order.  The collision
//! pass's grounded flag and the driver's finished event are buffered for
//! the state stack machine at the start of the next tick.

use vstd::prelude::*;
use crate::animation::{
    AnimationClips, SpriteAnimState, TIME_LIMIT_MS, spec_advance, spec_update_player_animation,
};
use crate::input::{KeyEdges, intents_of, keyboard_input};
use crate::physics::{
    ACC_LIMIT, DT_LIMIT_MS, Ground, POS_LIMIT, Physics, SpriteSize, VEL_LIMIT, collide,
    collision_system, derived_flip, derived_velocity, gravity_acceleration, gravity_system,
    player_sprite_movement, rest_level, scaled,
};
use crate::state::{
    PlayerState, PlayerStateKind, PlayerStatus, StateView, Vec2, machine_step,
    player_movement_state, top_tag, valid_tag, view_of, wf_view,
};

verus! {

/// The single controllable actor: its state stack, status record, physics
/// body, world position, sprite extent, animation playback and sprite
/// facing.
#[derive(Debug)]
pub struct Player {
    pub state: PlayerState,
    pub status: PlayerStatus,
    pub physics: Physics,
    pub position: Vec2,
    pub sprite: SpriteSize,
    pub anim: SpriteAnimState,
    pub flip_x: bool,
}

impl Player {
    /// The state-machine view of this player.
    pub open spec fn machine_view(self) -> StateView {
        view_of(self.state, self.status, self.physics.velocity, self.physics.on_ground)
    }

    /// Player well-formedness: the machine invariants, a well-formed idle
    /// clock and well-formed playback.
    pub open spec fn wf(self) -> bool {
        &&& wf_view(self.machine_view())
        &&& self.status.idle_timer.wf()
        &&& self.anim.wf()
    }

    /// The numeric ranges one tick of integration needs: everything the
    /// spawn produces satisfies them, and a caller re-checks them each tick
    /// as the body moves.
    pub open spec fn in_range(self) -> bool {
        &&& -VEL_LIMIT <= self.physics.velocity.x <= VEL_LIMIT
        &&& -VEL_LIMIT <= self.physics.velocity.y <= VEL_LIMIT
        &&& -ACC_LIMIT <= self.physics.acceleration.x <= ACC_LIMIT
        &&& -POS_LIMIT <= self.position.x <= POS_LIMIT
        &&& -POS_LIMIT <= self.position.y <= POS_LIMIT
        &&& 0 <= self.sprite.frame_size.y
    }

    /// Spawn the player as entering the in-game scene does: an [Idle]
    /// stack, zero physics, combo 0, full health, at the origin.
    pub fn spawn() -> (p: Player)
        ensures
            p.state@ == seq![PlayerStateKind::Idle],
            p.status.attack_combo == 0,
            p.status.hp == 100,
            p.status.points == 0,
            p.physics.velocity == Vec2::spec_zero(),
            p.physics.acceleration == Vec2::spec_zero(),
            !p.physics.on_ground,
            p.position == Vec2::spec_zero(),
            p.sprite.frame_size == (Vec2 { x: 128, y: 128 }),
            p.anim.start_index == 0 && p.anim.end_index == 12 && p.anim.index == 0,
            p.anim.timer == crate::animation::FrameTimer::spec_new(83),
            p.status.idle_timer == crate::animation::IdleTimer::spec_new(),
            !p.flip_x,
            p.wf(),
            p.in_range(),
    {
        let p = Player {
            state: PlayerState::default(),
            status: PlayerStatus::default(),
            physics: Physics::default(),
            position: Vec2::zero(),
            sprite: SpriteSize::default(),
            anim: SpriteAnimState::default(),
            flip_x: false,
        };
        proof {
            let s = Seq::<PlayerStateKind>::empty();
            assert(p.state@ =~= s.push(PlayerStateKind::Idle));
            crate::laws::lemma_idle_count_push(s, PlayerStateKind::Idle);
            s.lemma_filter_len(crate::state::is_idle_tag());
        }
        p
    }
}

/// What one tick leaves behind, as a function of what it found: the ghost
/// record the tick's contract is stated over.
pub ghost struct TickView {
    pub machine: StateView,
    pub acceleration: Vec2,
    pub position: Vec2,
    pub flip_x: bool,
    pub anim: SpriteAnimState,
    pub idle_timer: crate::animation::IdleTimer,
    pub finished: bool,
}

/// The whole tick pipeline as a function: the state stack machine consumes
/// the translated intents and the buffered finished event; the derived
/// motion of the active tag overrides the velocity; gravity integrates
/// velocity and position; the ground plane resolves collision and rewrites
/// the grounded flag; the selector retargets playback; the driver advances
/// it and reports whether the clip finished.
pub open spec fn spec_tick(
    p: Player,
    ground: Ground,
    clips: AnimationClips,
    edges: KeyEdges,
    finished_prev: bool,
    dt_ms: u64,
) -> TickView {
    let m1 = machine_step(p.machine_view(), intents_of(edges), finished_prev);
    let active = top_tag(m1.stack);
    let v2 = derived_velocity(active, m1.velocity);
    let a2 = gravity_acceleration(m1.grounded, p.physics.acceleration);
    let v3 = Vec2 {
        x: (v2.x + scaled(a2.x, dt_ms)) as i64,
        y: (v2.y + scaled(a2.y, dt_ms)) as i64,
    };
    let p3 = Vec2 {
        x: (p.position.x + scaled(v3.x, dt_ms)) as i64,
        y: (p.position.y + scaled(v3.y, dt_ms)) as i64,
    };
    let col = collide(v3, p3.y, ground, p.sprite);
    let anim_sel = spec_update_player_animation(
        p.anim,
        p.status.idle_timer,
        active,
        m1.combo,
        clips,
        dt_ms,
    );
    let adv = spec_advance(anim_sel.0, dt_ms);
    TickView {
        machine: StateView { velocity: col.velocity, grounded: col.on_ground, ..m1 },
        acceleration: a2,
        position: Vec2 { x: p3.x, y: col.position_y },
        flip_x: derived_flip(active, p.flip_x),
        anim: adv.0,
        idle_timer: anim_sel.1,
        finished: adv.1,
    }
}

/// Run one simulation tick over the player: every stage in the strict order
/// the pipeline fixes.  Returns whether the active clip finished, to be
/// handed back as `finished_prev` on the next tick, as the collision pass's
/// grounded flag is handed back inside the player.
pub fn tick(
    player: &mut Player,
    ground: &Ground,
    clips: &AnimationClips,
    edges: &KeyEdges,
    finished_prev: bool,
    dt_ms: u64,
) -> (finished: bool)
    requires
        old(player).wf(),
        old(player).in_range(),
        old(player).state@.len() + 8 < usize::MAX,
        clips.wf(),
        dt_ms <= DT_LIMIT_MS,
        -POS_LIMIT <= ground.level,
        rest_level(*ground, old(player).sprite) <= POS_LIMIT,
    ensures
        ({
            let t = spec_tick(*old(player), *ground, *clips, *edges, finished_prev, dt_ms);
            &&& final(player).state@ == t.machine.stack
            &&& final(player).status.attack_combo == t.machine.combo
            &&& final(player).physics.velocity == t.machine.velocity
            &&& final(player).physics.on_ground == t.machine.grounded
            &&& final(player).physics.acceleration == t.acceleration
            &&& final(player).position == t.position
            &&& final(player).flip_x == t.flip_x
            &&& final(player).anim == t.anim
            &&& final(player).status.idle_timer == t.idle_timer
            &&& finished == t.finished
        }),
        final(player).status.hp == old(player).status.hp,
        final(player).status.points == old(player).status.points,
        final(player).sprite == old(player).sprite,
        final(player).wf(),
{
    let ghost m0 = old(player).machine_view();
    let intents = keyboard_input(edges);
    player_movement_state(
        &mut player.state,
        &mut player.status,
        &mut player.physics,
        &intents,
        finished_prev,
    );
    let ghost m1 = machine_step(m0, intents_of(*edges), finished_prev);
    player_sprite_movement(&player.state, &mut player.physics, &mut player.flip_x);
    proof {
        crate::laws::lemma_machine_step_wf(m0, intents_of(*edges), finished_prev);
        let s = m1.stack;
        assert(s.last() == s[s.len() - 1]);
        assert(valid_tag(s[s.len() - 1]));
        assert(-VEL_LIMIT <= player.physics.velocity.x <= VEL_LIMIT);
        assert(-VEL_LIMIT <= player.physics.velocity.y <= VEL_LIMIT);
    }
    gravity_system(&mut player.physics, &mut player.position, dt_ms);
    collision_system(&mut player.physics, &mut player.position, &player.sprite, ground);
    update_animation_stages(player, clips, dt_ms)
}

/// The tick's two animation stages: the selector pass, then the driver's
/// frame advance.
fn update_animation_stages(player: &mut Player, clips: &AnimationClips, dt_ms: u64) -> (finished:
    bool)
    requires
        old(player).wf(),
        clips.wf(),
        dt_ms <= TIME_LIMIT_MS,
    ensures
        ({
            let sel = spec_update_player_animation(
                old(player).anim,
                old(player).status.idle_timer,
                top_tag(old(player).state@),
                old(player).status.attack_combo,
                *clips,
                dt_ms,
            );
            let adv = spec_advance(sel.0, dt_ms);
            &&& final(player).anim == adv.0
            &&& final(player).status.idle_timer == sel.1
            &&& finished == adv.1
        }),
        final(player).state == old(player).state,
        final(player).status.attack_combo == old(player).status.attack_combo,
        final(player).status.hp == old(player).status.hp,
        final(player).status.points == old(player).status.points,
        final(player).physics == old(player).physics,
        final(player).position == old(player).position,
        final(player).sprite == old(player).sprite,
        final(player).flip_x == old(player).flip_x,
        final(player).wf(),
{
    crate::animation::update_player_animation(
        &mut player.anim,
        &mut player.status,
        &player.state,
        clips,
        dt_ms,
    );
    crate::animation::animate_sprite(&mut player.anim, dt_ms)
}

} // verus!
