//! Actions and bindings of a character seen by an orbiting camera.
use vstd::prelude::*;

use crate::input::{
    ButtonMappingItem, DirectionalSliderMappingItem, InputMapping, SliderMappingType,
    UserButtonInput, KEY_A, KEY_D, KEY_S, KEY_W,
};

verus! {

/// What the player of a character with an orbiting camera asks for.
#[derive(Debug, Clone, Copy, PartialEq, Eq, Structural, Hash)]
pub enum CharacterControllerEvent {
    /// Turn the camera around the character.
    Turn,
    /// Step the camera distance down by one.
    IncreaseCameraDistance,
    /// Step the camera distance up by one.
    DecreaseCameraDistance,
    MoveForward,
    MoveBackward,
    MoveLeft,
    MoveRight,
}

/// The button bindings: the wheel changes the camera distance and WASD
/// moves.
pub open spec fn character_buttons() -> Seq<ButtonMappingItem<CharacterControllerEvent>> {
    seq![
        ButtonMappingItem {
            input: UserButtonInput::MouseScrollDown,
            action: CharacterControllerEvent::IncreaseCameraDistance,
        },
        ButtonMappingItem {
            input: UserButtonInput::MouseScrollUp,
            action: CharacterControllerEvent::DecreaseCameraDistance,
        },
        ButtonMappingItem {
            input: UserButtonInput::KeyPressed(KEY_W),
            action: CharacterControllerEvent::MoveForward,
        },
        ButtonMappingItem {
            input: UserButtonInput::KeyPressed(KEY_S),
            action: CharacterControllerEvent::MoveBackward,
        },
        ButtonMappingItem {
            input: UserButtonInput::KeyPressed(KEY_A),
            action: CharacterControllerEvent::MoveLeft,
        },
        ButtonMappingItem {
            input: UserButtonInput::KeyPressed(KEY_D),
            action: CharacterControllerEvent::MoveRight,
        },
    ]
}

/// The directional binding: mouse motion turns the camera, 5 thousandths
/// per unit across and minus 5 thousandths per unit up and down.
pub open spec fn character_sliders() -> Seq<DirectionalSliderMappingItem<CharacterControllerEvent>> {
    seq![
        DirectionalSliderMappingItem {
            slider_mapping_type: SliderMappingType::MouseMove(10_000),
            action: CharacterControllerEvent::Turn,
            factor_x: 5,
            factor_y: -5i32,
        },
    ]
}

/// A button mapping to a character event.
fn button(input: UserButtonInput, action: CharacterControllerEvent) -> (r: ButtonMappingItem<
    CharacterControllerEvent,
>)
    ensures
        r == (ButtonMappingItem { input, action }),
{
    ButtonMappingItem { input, action }
}

/// The default input mapping of a character controller.
pub fn default_character_controller_event_mapping() -> (r: InputMapping<CharacterControllerEvent>)
    ensures
        r@.buttons == character_buttons(),
        r@.sliders == character_sliders(),
{
    let buttons = vec![
        button(UserButtonInput::MouseScrollDown, CharacterControllerEvent::IncreaseCameraDistance),
        button(UserButtonInput::MouseScrollUp, CharacterControllerEvent::DecreaseCameraDistance),
        button(UserButtonInput::KeyPressed(KEY_W), CharacterControllerEvent::MoveForward),
        button(UserButtonInput::KeyPressed(KEY_S), CharacterControllerEvent::MoveBackward),
        button(UserButtonInput::KeyPressed(KEY_A), CharacterControllerEvent::MoveLeft),
        button(UserButtonInput::KeyPressed(KEY_D), CharacterControllerEvent::MoveRight),
    ];
    let sliders = vec![
        DirectionalSliderMappingItem {
            slider_mapping_type: SliderMappingType::MouseMove(10_000),
            action: CharacterControllerEvent::Turn,
            factor_x: 5,
            factor_y: -5,
        },
    ];
    assert(buttons@ =~= character_buttons());
    assert(sliders@ =~= character_sliders());
    InputMapping::from_mappings(buttons, sliders)
}

/// The step an event makes to the camera distance before it is clamped to
/// the controller's bounds: minus one for `IncreaseCameraDistance`, plus one
/// for `DecreaseCameraDistance`, none for the others.
pub fn camera_distance_step(event: CharacterControllerEvent) -> (r: i8)
    ensures
        r == match event {
            CharacterControllerEvent::IncreaseCameraDistance => -1i8,
            CharacterControllerEvent::DecreaseCameraDistance => 1i8,
            _ => 0i8,
        },
{
    match event {
        CharacterControllerEvent::IncreaseCameraDistance => -1,
        CharacterControllerEvent::DecreaseCameraDistance => 1,
        _ => 0,
    }
}

/// How a movement event moves the character on the ground plane, given
/// the camera's turn `a` around the vertical axis: as `(xs, xc, zs, zc)`,
/// the x position changes by `xs * sin(a) + xc * cos(a)` steps and the z
/// position by `zs * sin(a) + zc * cos(a)`. Forward is away from the camera.
/// Events that do not move give `None`.
pub fn plane_movement(event: CharacterControllerEvent) -> (r: Option<(i8, i8, i8, i8)>)
    ensures
        r == match event {
            CharacterControllerEvent::MoveForward => Some((-1i8, 0i8, 0i8, -1i8)),
            CharacterControllerEvent::MoveBackward => Some((1i8, 0i8, 0i8, 1i8)),
            CharacterControllerEvent::MoveLeft => Some((0i8, -1i8, 1i8, 0i8)),
            CharacterControllerEvent::MoveRight => Some((0i8, 1i8, -1i8, 0i8)),
            _ => None,
        },
{
    match event {
        CharacterControllerEvent::MoveForward => Some((-1, 0, 0, -1)),
        CharacterControllerEvent::MoveBackward => Some((1, 0, 0, 1)),
        CharacterControllerEvent::MoveLeft => Some((0, -1, 1, 0)),
        CharacterControllerEvent::MoveRight => Some((0, 1, -1, 0)),
        _ => None,
    }
}

} // verus!
