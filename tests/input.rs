use some_bevy_tools::controller_2d::{top_down_direction, top_down_mapping, TopDownAction};
use some_bevy_tools::input::{
    input_fired, scroll_directions, ButtonMappingItem, DirectionalSliderMappingItem,
    InputMapping, KeyboardState, SliderMappingType, UserButtonInput, KEY_A, KEY_ARROW_UP, KEY_D,
    KEY_ESCAPE, KEY_W, KEY_Z,
};
use some_bevy_tools::third_party_controller::{
    camera_distance_step, default_character_controller_event_mapping, plane_movement,
    CharacterControllerEvent,
};

// Factors and sensitivities are in thousandths: 0.5 is 500.
#[test]
fn input_adding_and_removing_mappings() {
    let mut mapping: InputMapping<i32> = InputMapping::from_mappings(
        vec![
            (UserButtonInput::KeyDown(KEY_A), 1).into(),
            (UserButtonInput::KeyUp(KEY_A), 2).into(),
        ],
        vec![(SliderMappingType::MouseMove(500), 3, 500, 500).into()],
    );
    assert_eq!(2, mapping.get_mappings_as_slice().len());
    assert_eq!(1, mapping.get_directional_mappings_as_slice().len());

    mapping.add_button_mapping((UserButtonInput::KeyPressed(KEY_ARROW_UP), 3).into());
    assert_eq!(3, mapping.get_mappings_as_slice().len());
    assert_eq!(1, mapping.get_directional_mappings_as_slice().len());

    mapping.add_directional_mapping((SliderMappingType::MouseMove(500), 4, 500, 500).into());
    assert_eq!(3, mapping.get_mappings_as_slice().len());
    assert_eq!(2, mapping.get_directional_mappings_as_slice().len());

    mapping.remove_button_mapping(&(UserButtonInput::KeyDown(KEY_A), 1).into());
    assert_eq!(2, mapping.get_mappings_as_slice().len());
    assert_eq!(2, mapping.get_directional_mappings_as_slice().len());

    mapping.remove_directional_mapping(&(SliderMappingType::MouseMove(500), 3, 500, 500).into());
    assert_eq!(2, mapping.get_mappings_as_slice().len());
    assert_eq!(1, mapping.get_directional_mappings_as_slice().len());

    mapping.remove_directional_mapping(&(SliderMappingType::MouseMove(500), 4, 100, 100).into());
    assert_eq!(2, mapping.get_mappings_as_slice().len());
    assert_eq!(0, mapping.get_directional_mappings_as_slice().len());

    mapping.remove_button_mapping(&(UserButtonInput::KeyDown(KEY_Z), 1).into());
    assert_eq!(2, mapping.get_mappings_as_slice().len());
    assert_eq!(0, mapping.get_directional_mappings_as_slice().len());

    mapping.remove_button_mapping(&(UserButtonInput::KeyUp(KEY_A), 1).into());
    assert_eq!(2, mapping.get_mappings_as_slice().len());
    assert_eq!(0, mapping.get_directional_mappings_as_slice().len());

    mapping.remove_button_mapping(&(UserButtonInput::KeyUp(KEY_A), 2).into());
    assert_eq!(1, mapping.get_mappings_as_slice().len());
    assert_eq!(0, mapping.get_directional_mappings_as_slice().len());
}

fn keys(just_pressed: Vec<u32>, just_released: Vec<u32>, pressed: Vec<u32>) -> KeyboardState {
    KeyboardState {
        just_pressed,
        just_released,
        pressed,
    }
}

#[test]
fn item_conversions_copy_fields() {
    let b: ButtonMappingItem<i32> = (UserButtonInput::MouseScrollUp, 7).into();
    assert_eq!(b.input, UserButtonInput::MouseScrollUp);
    assert_eq!(b.action, 7);
    let s: DirectionalSliderMappingItem<i32> = (SliderMappingType::MouseMove(1), 8, 250).into();
    assert_eq!(s.factor_x, 250);
    assert_eq!(s.factor_y, 250);
    let t: DirectionalSliderMappingItem<i32> = (SliderMappingType::MouseMove(1), 8, 250, -3).into();
    assert_eq!(t.factor_x, 250);
    assert_eq!(t.factor_y, -3);
}

#[test]
fn removing_button_mapping_removes_every_copy_in_order() {
    let mut mapping: InputMapping<i32> = InputMapping::from_mappings(
        vec![
            (UserButtonInput::KeyDown(KEY_A), 1).into(),
            (UserButtonInput::KeyDown(KEY_W), 2).into(),
            (UserButtonInput::KeyDown(KEY_A), 1).into(),
            (UserButtonInput::KeyDown(KEY_D), 3).into(),
        ],
        vec![],
    );
    mapping.remove_button_mapping(&(UserButtonInput::KeyDown(KEY_A), 1).into());
    let left = mapping.get_mappings_as_slice();
    assert_eq!(left.len(), 2);
    assert_eq!(left[0].action, 2);
    assert_eq!(left[1].action, 3);
}

#[test]
fn input_fired_follows_key_state() {
    let state = keys(vec![KEY_A], vec![KEY_W], vec![KEY_D]);
    assert!(input_fired(UserButtonInput::KeyDown(KEY_A), &state, false, false));
    assert!(!input_fired(UserButtonInput::KeyDown(KEY_W), &state, false, false));
    assert!(input_fired(UserButtonInput::KeyUp(KEY_W), &state, false, false));
    assert!(input_fired(UserButtonInput::KeyPressed(KEY_D), &state, false, false));
    assert!(!input_fired(UserButtonInput::KeyPressed(KEY_A), &state, false, false));
    assert!(input_fired(UserButtonInput::MouseScrollUp, &state, true, false));
    assert!(!input_fired(UserButtonInput::MouseScrollDown, &state, true, false));
}

#[test]
fn triggered_actions_are_distinct() {
    let mapping = top_down_mapping();
    let state = keys(vec![], vec![], vec![KEY_W, KEY_ARROW_UP, KEY_ESCAPE]);
    let actions = mapping.triggered_actions(&state, false, false);
    assert_eq!(actions, vec![TopDownAction::MoveUp, TopDownAction::Exit]);
    let none = mapping.triggered_actions(&keys(vec![], vec![], vec![]), true, true);
    assert!(none.is_empty());
}

#[test]
fn scroll_directions_from_signs() {
    assert_eq!(scroll_directions(&vec![]), (false, false));
    assert_eq!(scroll_directions(&vec![-1]), (true, false));
    assert_eq!(scroll_directions(&vec![1, 0]), (false, true));
    assert_eq!(scroll_directions(&vec![1, -1]), (true, true));
}

#[test]
fn character_mapping_uses_wheel_and_mouse() {
    let mapping = default_character_controller_event_mapping();
    assert_eq!(mapping.get_mappings_as_slice().len(), 6);
    let sliders = mapping.get_directional_mappings_as_slice();
    assert_eq!(sliders.len(), 1);
    assert_eq!(sliders[0].factor_x, 5);
    assert_eq!(sliders[0].factor_y, -5);
    let actions = mapping.triggered_actions(&keys(vec![], vec![], vec![]), false, true);
    assert_eq!(actions, vec![CharacterControllerEvent::IncreaseCameraDistance]);
    assert_eq!(camera_distance_step(CharacterControllerEvent::IncreaseCameraDistance), -1);
    assert_eq!(camera_distance_step(CharacterControllerEvent::DecreaseCameraDistance), 1);
    assert_eq!(camera_distance_step(CharacterControllerEvent::Turn), 0);
}

#[test]
fn top_down_directions() {
    assert_eq!(top_down_direction(TopDownAction::MoveUp), (0, 1));
    assert_eq!(top_down_direction(TopDownAction::MoveDown), (0, -1));
    assert_eq!(top_down_direction(TopDownAction::MoveLeft), (-1, 0));
    assert_eq!(top_down_direction(TopDownAction::MoveRight), (1, 0));
    assert_eq!(top_down_direction(TopDownAction::Exit), (0, 0));
    assert_eq!(top_down_mapping().get_mappings_as_slice().len(), 11);
}

#[test]
fn plane_movement_factors() {
    assert_eq!(plane_movement(CharacterControllerEvent::MoveForward), Some((-1, 0, 0, -1)));
    assert_eq!(plane_movement(CharacterControllerEvent::MoveBackward), Some((1, 0, 0, 1)));
    assert_eq!(plane_movement(CharacterControllerEvent::MoveLeft), Some((0, -1, 1, 0)));
    assert_eq!(plane_movement(CharacterControllerEvent::MoveRight), Some((0, 1, -1, 0)));
    assert_eq!(plane_movement(CharacterControllerEvent::Turn), None);
}
