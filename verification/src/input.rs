//! The input translator: raw key press/release edges become semantic intent
//! events, at most one per relevant edge, in a fixed order.  Absence of
//! input produces no events.

use vstd::prelude::*;
use crate::state::{MoveDirection, PlayerInputs};

verus! {

/// One tick's raw input edges for the five logical controls: a press edge
/// for each, and a release edge for the three held ones.
#[derive(Clone, Copy, PartialEq, Eq, Structural, Debug)]
pub struct KeyEdges {
    pub left_pressed: bool,
    pub right_pressed: bool,
    pub run_pressed: bool,
    pub attack_pressed: bool,
    pub jump_pressed: bool,
    pub left_released: bool,
    pub right_released: bool,
    pub run_released: bool,
}

impl KeyEdges {
    /// A tick with no edges at all, which translates to no events.
    pub open spec fn spec_none() -> KeyEdges {
        KeyEdges {
            left_pressed: false,
            right_pressed: false,
            run_pressed: false,
            attack_pressed: false,
            jump_pressed: false,
            left_released: false,
            right_released: false,
            run_released: false,
        }
    }

    pub fn none() -> (e: KeyEdges)
        ensures
            e == KeyEdges::spec_none(),
    {
        KeyEdges {
            left_pressed: false,
            right_pressed: false,
            run_pressed: false,
            attack_pressed: false,
            jump_pressed: false,
            left_released: false,
            right_released: false,
            run_released: false,
        }
    }
}

/// A singleton sequence when the edge is set, nothing otherwise.
pub open spec fn edge_event(set: bool, ev: PlayerInputs) -> Seq<PlayerInputs> {
    if set {
        seq![ev]
    } else {
        Seq::empty()
    }
}

/// The intent events one tick's edges translate to, in order: walk presses,
/// the run modifier, attack, jump, then the walk releases and the run
/// release.
pub open spec fn intents_of(e: KeyEdges) -> Seq<PlayerInputs> {
    edge_event(e.left_pressed, PlayerInputs::Walk(MoveDirection::Left))
        + edge_event(e.right_pressed, PlayerInputs::Walk(MoveDirection::Right))
        + edge_event(e.run_pressed, PlayerInputs::Run)
        + edge_event(e.attack_pressed, PlayerInputs::Attack)
        + edge_event(e.jump_pressed, PlayerInputs::Jump)
        + edge_event(e.left_released, PlayerInputs::WalkEnd(MoveDirection::Left))
        + edge_event(e.right_released, PlayerInputs::WalkEnd(MoveDirection::Right))
        + edge_event(e.run_released, PlayerInputs::RunEnd)
}

/// Translate one tick's key edges into intent events.  A purely stateless
/// pass: edge detection itself belongs to the host input layer.
#[verifier::rlimit(100)]
pub fn keyboard_input(edges: &KeyEdges) -> (intents: Vec<PlayerInputs>)
    ensures
        intents@ == intents_of(*edges),
        intents@.len() <= 8,
{
    let mut intents: Vec<PlayerInputs> = Vec::new();
    let ghost s1 = edge_event(edges.left_pressed, PlayerInputs::Walk(MoveDirection::Left));
    if edges.left_pressed {
        intents.push(PlayerInputs::Walk(MoveDirection::Left));
    }
    proof {
        assert(intents@ =~= s1);
    }
    let ghost s2 = s1 + edge_event(edges.right_pressed, PlayerInputs::Walk(MoveDirection::Right));
    if edges.right_pressed {
        intents.push(PlayerInputs::Walk(MoveDirection::Right));
    }
    proof {
        assert(intents@ =~= s2);
    }
    let ghost s3 = s2 + edge_event(edges.run_pressed, PlayerInputs::Run);
    if edges.run_pressed {
        intents.push(PlayerInputs::Run);
    }
    proof {
        assert(intents@ =~= s3);
    }
    let ghost s4 = s3 + edge_event(edges.attack_pressed, PlayerInputs::Attack);
    if edges.attack_pressed {
        intents.push(PlayerInputs::Attack);
    }
    proof {
        assert(intents@ =~= s4);
    }
    let ghost s5 = s4 + edge_event(edges.jump_pressed, PlayerInputs::Jump);
    if edges.jump_pressed {
        intents.push(PlayerInputs::Jump);
    }
    proof {
        assert(intents@ =~= s5);
    }
    let ghost s6 = s5 + edge_event(edges.left_released, PlayerInputs::WalkEnd(MoveDirection::Left));
    if edges.left_released {
        intents.push(PlayerInputs::WalkEnd(MoveDirection::Left));
    }
    proof {
        assert(intents@ =~= s6);
    }
    let ghost s7 = s6 + edge_event(
        edges.right_released,
        PlayerInputs::WalkEnd(MoveDirection::Right),
    );
    if edges.right_released {
        intents.push(PlayerInputs::WalkEnd(MoveDirection::Right));
    }
    proof {
        assert(intents@ =~= s7);
    }
    let ghost s8 = s7 + edge_event(edges.run_released, PlayerInputs::RunEnd);
    if edges.run_released {
        intents.push(PlayerInputs::RunEnd);
    }
    proof {
        assert(intents@ =~= s8);
        assert(s8 == intents_of(*edges));
    }
    intents
}

} // verus!
