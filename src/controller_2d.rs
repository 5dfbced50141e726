//! Actions and key bindings for top-down 2D games.
use vstd::prelude::*;

use crate::input::{
    ButtonMappingItem, InputMapping, UserButtonInput, KEY_A, KEY_ARROW_DOWN, KEY_ARROW_LEFT,
    KEY_ARROW_RIGHT, KEY_ARROW_UP, KEY_D, KEY_ENTER, KEY_ESCAPE, KEY_S, KEY_SPACE, KEY_W,
};

verus! {

/// What a player of a top-down game asks for.
#[derive(Debug, Clone, Copy, PartialEq, Eq, Structural, Hash)]
pub enum TopDownAction {
    /// Go up.
    MoveUp,
    /// Go down.
    MoveDown,
    /// Go left.
    MoveLeft,
    /// Go right.
    MoveRight,
    /// The action button, usually space.
    Action,
    /// The secondary action button, usually enter.
    Action2,
    /// Leave the game or open a menu, usually escape.
    Exit,
}

/// A held key mapped to a top-down action.
pub open spec fn held(key: u32, action: TopDownAction) -> ButtonMappingItem<TopDownAction> {
    ButtonMappingItem { input: UserButtonInput::KeyPressed(key), action }
}

/// The bindings of a top-down game: arrows and WASD move, space and enter
/// act, escape leaves.
pub open spec fn top_down_bindings() -> Seq<ButtonMappingItem<TopDownAction>> {
    seq![
        held(KEY_ARROW_UP, TopDownAction::MoveUp),
        held(KEY_W, TopDownAction::MoveUp),
        held(KEY_ARROW_DOWN, TopDownAction::MoveDown),
        held(KEY_S, TopDownAction::MoveDown),
        held(KEY_ARROW_LEFT, TopDownAction::MoveLeft),
        held(KEY_A, TopDownAction::MoveLeft),
        held(KEY_ARROW_RIGHT, TopDownAction::MoveRight),
        held(KEY_D, TopDownAction::MoveRight),
        held(KEY_SPACE, TopDownAction::Action),
        held(KEY_ENTER, TopDownAction::Action2),
        held(KEY_ESCAPE, TopDownAction::Exit),
    ]
}

/// A held key mapped to a top-down action.
fn held_key(key: u32, action: TopDownAction) -> (r: ButtonMappingItem<TopDownAction>)
    ensures
        r == held(key, action),
{
    ButtonMappingItem { input: UserButtonInput::KeyPressed(key), action }
}

/// The input mapping of a top-down game, with no directional mappings.
pub fn top_down_mapping() -> (r: InputMapping<TopDownAction>)
    ensures
        r@.buttons == top_down_bindings(),
        r@.sliders.len() == 0,
{
    let buttons = vec![
        held_key(KEY_ARROW_UP, TopDownAction::MoveUp),
        held_key(KEY_W, TopDownAction::MoveUp),
        held_key(KEY_ARROW_DOWN, TopDownAction::MoveDown),
        held_key(KEY_S, TopDownAction::MoveDown),
        held_key(KEY_ARROW_LEFT, TopDownAction::MoveLeft),
        held_key(KEY_A, TopDownAction::MoveLeft),
        held_key(KEY_ARROW_RIGHT, TopDownAction::MoveRight),
        held_key(KEY_D, TopDownAction::MoveRight),
        held_key(KEY_SPACE, TopDownAction::Action),
        held_key(KEY_ENTER, TopDownAction::Action2),
        held_key(KEY_ESCAPE, TopDownAction::Exit),
    ];
    assert(buttons@ =~= top_down_bindings());
    InputMapping::from_mappings(buttons, Vec::new())
}

/// The direction a top-down action moves a controlled entity in, as
/// `(x, y)` with y pointing up; actions that do not move give `(0, 0)`.
pub fn top_down_direction(action: TopDownAction) -> (r: (i8, i8))
    ensures
        r == match action {
            TopDownAction::MoveUp => (0i8, 1i8),
            TopDownAction::MoveDown => (0i8, -1i8),
            TopDownAction::MoveLeft => (-1i8, 0i8),
            TopDownAction::MoveRight => (1i8, 0i8),
            _ => (0i8, 0i8),
        },
{
    match action {
        TopDownAction::MoveUp => (0, 1),
        TopDownAction::MoveDown => (0, -1),
        TopDownAction::MoveLeft => (-1, 0),
        TopDownAction::MoveRight => (1, 0),
        _ => (0, 0),
    }
}

} // verus!
