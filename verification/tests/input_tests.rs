use player_core::input::{KeyEdges, keyboard_input};
use player_core::state::{MoveDirection, PlayerInputs};

#[test]
fn no_edges_translate_to_no_events() {
    let edges = KeyEdges::none();
    assert!(keyboard_input(&edges).is_empty());
}

#[test]
fn each_edge_translates_to_its_event() {
    let mut edges = KeyEdges::none();
    edges.left_pressed = true;
    assert_eq!(keyboard_input(&edges), vec![PlayerInputs::Walk(MoveDirection::Left)]);

    let mut edges = KeyEdges::none();
    edges.right_pressed = true;
    assert_eq!(keyboard_input(&edges), vec![PlayerInputs::Walk(MoveDirection::Right)]);

    let mut edges = KeyEdges::none();
    edges.run_pressed = true;
    assert_eq!(keyboard_input(&edges), vec![PlayerInputs::Run]);

    let mut edges = KeyEdges::none();
    edges.attack_pressed = true;
    assert_eq!(keyboard_input(&edges), vec![PlayerInputs::Attack]);

    let mut edges = KeyEdges::none();
    edges.jump_pressed = true;
    assert_eq!(keyboard_input(&edges), vec![PlayerInputs::Jump]);

    let mut edges = KeyEdges::none();
    edges.left_released = true;
    assert_eq!(keyboard_input(&edges), vec![PlayerInputs::WalkEnd(MoveDirection::Left)]);

    let mut edges = KeyEdges::none();
    edges.right_released = true;
    assert_eq!(keyboard_input(&edges), vec![PlayerInputs::WalkEnd(MoveDirection::Right)]);

    let mut edges = KeyEdges::none();
    edges.run_released = true;
    assert_eq!(keyboard_input(&edges), vec![PlayerInputs::RunEnd]);
}

#[test]
fn all_edges_translate_in_press_then_release_order() {
    let edges = KeyEdges {
        left_pressed: true,
        right_pressed: true,
        run_pressed: true,
        attack_pressed: true,
        jump_pressed: true,
        left_released: true,
        right_released: true,
        run_released: true,
    };
    assert_eq!(
        keyboard_input(&edges),
        vec![
            PlayerInputs::Walk(MoveDirection::Left),
            PlayerInputs::Walk(MoveDirection::Right),
            PlayerInputs::Run,
            PlayerInputs::Attack,
            PlayerInputs::Jump,
            PlayerInputs::WalkEnd(MoveDirection::Left),
            PlayerInputs::WalkEnd(MoveDirection::Right),
            PlayerInputs::RunEnd,
        ]
    );
}

#[test]
fn press_and_release_of_one_key_keep_their_order() {
    let mut edges = KeyEdges::none();
    edges.left_pressed = true;
    edges.left_released = true;
    assert_eq!(
        keyboard_input(&edges),
        vec![
            PlayerInputs::Walk(MoveDirection::Left),
            PlayerInputs::WalkEnd(MoveDirection::Left),
        ]
    );
}
