//! Mapping of user input to application actions.
//!
//! An `InputMapping` holds an ordered list of button mappings (a key or the
//! mouse wheel, and the action it triggers) and of directional mappings (a
//! two-axis input such as mouse motion, the action it triggers and a scale
//! for each axis). Each frame, the actions whose inputs fired are collected,
//! each action once however many of its inputs fired.
//!
//! Keys are identified by their USB HID usage code; scale factors are in
//! thousandths.
use vstd::prelude::*;
use vstd::laws_eq::obeys_concrete_eq;
use vstd::std_specs::cmp::PartialEqSpec;

verus! {

/// Usage code of the A key.
pub const KEY_A: u32 = 0x04;
/// Usage code of the D key.
pub const KEY_D: u32 = 0x07;
/// Usage code of the S key.
pub const KEY_S: u32 = 0x16;
/// Usage code of the W key.
pub const KEY_W: u32 = 0x1A;
/// Usage code of the Z key.
pub const KEY_Z: u32 = 0x1D;
/// Usage code of the Enter key.
pub const KEY_ENTER: u32 = 0x28;
/// Usage code of the Escape key.
pub const KEY_ESCAPE: u32 = 0x29;
/// Usage code of the space bar.
pub const KEY_SPACE: u32 = 0x2C;
/// Usage code of the right arrow key.
pub const KEY_ARROW_RIGHT: u32 = 0x4F;
/// Usage code of the left arrow key.
pub const KEY_ARROW_LEFT: u32 = 0x50;
/// Usage code of the down arrow key.
pub const KEY_ARROW_DOWN: u32 = 0x51;
/// Usage code of the up arrow key.
pub const KEY_ARROW_UP: u32 = 0x52;

/// An input that is either on or off in a frame: a key, or the mouse wheel.
#[derive(Debug, Clone, Copy, PartialEq, Eq, Structural)]
pub enum UserButtonInput {
    /// The key went down in this frame.
    KeyDown(u32),
    /// The key went up in this frame.
    KeyUp(u32),
    /// The key is held down.
    KeyPressed(u32),
    /// The wheel turned up in this frame.
    MouseScrollUp,
    /// The wheel turned down in this frame.
    MouseScrollDown,
}

/// A two-axis input; mouse motion carries a sensitivity in thousandths.
#[derive(Debug, Clone, Copy, PartialEq, Eq, Structural)]
pub enum SliderMappingType {
    MouseMove(i32),
}

/// Maps a button input to an action.
#[derive(Debug, Clone, Copy)]
pub struct ButtonMappingItem<Action> {
    pub input: UserButtonInput,
    pub action: Action,
}

/// Maps a two-axis input to an action, scaling each axis by a factor in
/// thousandths.
#[derive(Debug, Clone, Copy)]
pub struct DirectionalSliderMappingItem<Action> {
    pub slider_mapping_type: SliderMappingType,
    pub action: Action,
    pub factor_x: i32,
    pub factor_y: i32,
}

impl<Action> From<(UserButtonInput, Action)> for ButtonMappingItem<Action> {
    fn from(item: (UserButtonInput, Action)) -> (r: Self) {
        ButtonMappingItem { input: item.0, action: item.1 }
    }
}

impl<Action> vstd::std_specs::convert::FromSpecImpl<(UserButtonInput, Action)> for ButtonMappingItem<Action> {
    open spec fn obeys_from_spec() -> bool {
        true
    }

    open spec fn from_spec(item: (UserButtonInput, Action)) -> Self {
        ButtonMappingItem { input: item.0, action: item.1 }
    }
}

impl<Action> From<(SliderMappingType, Action, i32)> for DirectionalSliderMappingItem<Action> {
    /// One factor for both axes.
    fn from(item: (SliderMappingType, Action, i32)) -> (r: Self) {
        DirectionalSliderMappingItem {
            slider_mapping_type: item.0,
            action: item.1,
            factor_x: item.2,
            factor_y: item.2,
        }
    }
}

impl<Action> vstd::std_specs::convert::FromSpecImpl<(SliderMappingType, Action, i32)> for DirectionalSliderMappingItem<Action> {
    open spec fn obeys_from_spec() -> bool {
        true
    }

    open spec fn from_spec(item: (SliderMappingType, Action, i32)) -> Self {
        DirectionalSliderMappingItem {
            slider_mapping_type: item.0,
            action: item.1,
            factor_x: item.2,
            factor_y: item.2,
        }
    }
}

impl<Action> From<(SliderMappingType, Action, i32, i32)> for DirectionalSliderMappingItem<Action> {
    fn from(item: (SliderMappingType, Action, i32, i32)) -> (r: Self) {
        DirectionalSliderMappingItem {
            slider_mapping_type: item.0,
            action: item.1,
            factor_x: item.2,
            factor_y: item.3,
        }
    }
}

impl<Action> vstd::std_specs::convert::FromSpecImpl<(SliderMappingType, Action, i32, i32)> for DirectionalSliderMappingItem<Action> {
    open spec fn obeys_from_spec() -> bool {
        true
    }

    open spec fn from_spec(item: (SliderMappingType, Action, i32, i32)) -> Self {
        DirectionalSliderMappingItem {
            slider_mapping_type: item.0,
            action: item.1,
            factor_x: item.2,
            factor_y: item.3,
        }
    }
}

/// The keys in the state a frame leaves them: those that went down in it,
/// those that went up in it, and those held down.
pub struct KeyboardState {
    pub just_pressed: Vec<u32>,
    pub just_released: Vec<u32>,
    pub pressed: Vec<u32>,
}

/// Whether `input` fired in a frame with the given keys and wheel motion.
pub open spec fn fired(
    input: UserButtonInput,
    keys: KeyboardState,
    scroll_up: bool,
    scroll_down: bool,
) -> bool {
    match input {
        UserButtonInput::KeyDown(k) => keys.just_pressed@.contains(k),
        UserButtonInput::KeyUp(k) => keys.just_released@.contains(k),
        UserButtonInput::KeyPressed(k) => keys.pressed@.contains(k),
        UserButtonInput::MouseScrollUp => scroll_up,
        UserButtonInput::MouseScrollDown => scroll_down,
    }
}

/// The wheel directions of a frame, from the sign of each wheel event's
/// vertical motion: a negative one counts as up, a positive one as down.
pub open spec fn scroll_spec(signs: Seq<i32>) -> (bool, bool) {
    (
        exists|i: int| 0 <= i < signs.len() && signs[i] < 0,
        exists|i: int| 0 <= i < signs.len() && signs[i] > 0,
    )
}

/// Whether the wheel turned up and whether it turned down in a frame, given
/// the sign of each wheel event's vertical motion.
pub fn scroll_directions(signs: &Vec<i32>) -> (r: (bool, bool))
    ensures
        r == scroll_spec(signs@),
{
    let mut up = false;
    let mut down = false;
    let mut i: usize = 0;
    while i < signs.len()
        invariant
            i <= signs@.len(),
            up == exists|j: int| 0 <= j < i && signs@[j] < 0,
            down == exists|j: int| 0 <= j < i && signs@[j] > 0,
        decreases signs@.len() - i,
    {
        if signs[i] < 0 {
            up = true;
        } else if signs[i] > 0 {
            down = true;
        }
        i = i + 1;
    }
    (up, down)
}

/// Whether `keys` holds `key`.
fn contains_key(keys: &Vec<u32>, key: u32) -> (r: bool)
    ensures
        r == keys@.contains(key),
{
    let mut i: usize = 0;
    while i < keys.len()
        invariant
            i <= keys@.len(),
            forall|j: int| 0 <= j < i ==> keys@[j] != key,
        decreases keys@.len() - i,
    {
        if keys[i] == key {
            return true;
        }
        i = i + 1;
    }
    false
}

/// Whether `input` fired in a frame with the given keys and wheel motion.
pub fn input_fired(
    input: UserButtonInput,
    keys: &KeyboardState,
    scroll_up: bool,
    scroll_down: bool,
) -> (r: bool)
    ensures
        r == fired(input, *keys, scroll_up, scroll_down),
{
    match input {
        UserButtonInput::KeyDown(k) => contains_key(&keys.just_pressed, k),
        UserButtonInput::KeyUp(k) => contains_key(&keys.just_released, k),
        UserButtonInput::KeyPressed(k) => contains_key(&keys.pressed, k),
        UserButtonInput::MouseScrollUp => scroll_up,
        UserButtonInput::MouseScrollDown => scroll_down,
    }
}

/// Whether `v` holds `a`.
fn contains_action<Action: PartialEq>(v: &Vec<Action>, a: &Action) -> (r: bool)
    requires
        obeys_concrete_eq::<Action>(),
    ensures
        r == v@.contains(*a),
{
    proof {
        reveal(obeys_concrete_eq);
    }
    let mut i: usize = 0;
    while i < v.len()
        invariant
            i <= v@.len(),
            obeys_concrete_eq::<Action>(),
            Action::obeys_eq_spec(),
            forall|x: Action, y: Action| x.eq_spec(&y) <==> (x == y),
            forall|j: int| 0 <= j < i ==> v@[j] != *a,
        decreases v@.len() - i,
    {
        if v[i].eq(a) {
            return true;
        }
        i = i + 1;
    }
    false
}

/// The mathematical content of an `InputMapping`.
pub struct InputMappingView<Action> {
    pub buttons: Seq<ButtonMappingItem<Action>>,
    pub sliders: Seq<DirectionalSliderMappingItem<Action>>,
}

/// Whether a slider mapping is the one that removing `item` takes out: the
/// same action for the same input type, whatever the factors.
pub open spec fn same_slider<Action>(
    i: DirectionalSliderMappingItem<Action>,
    item: DirectionalSliderMappingItem<Action>,
) -> bool {
    i.action == item.action && i.slider_mapping_type == item.slider_mapping_type
}

/// Whether two button mappings are equal.
pub open spec fn same_button<Action>(
    i: ButtonMappingItem<Action>,
    item: ButtonMappingItem<Action>,
) -> bool {
    i.input == item.input && i.action == item.action
}

/// Whether a button mapping stays when `item` is removed.
pub open spec fn keeps_button<Action>(item: ButtonMappingItem<Action>) -> spec_fn(
    ButtonMappingItem<Action>,
) -> bool {
    |i: ButtonMappingItem<Action>| !same_button(i, item)
}

/// Whether a directional mapping stays when `item` is removed.
pub open spec fn keeps_slider<Action>(item: DirectionalSliderMappingItem<Action>) -> spec_fn(
    DirectionalSliderMappingItem<Action>,
) -> bool {
    |i: DirectionalSliderMappingItem<Action>| !same_slider(i, item)
}

/// The button and directional mappings of an application's actions.
pub struct InputMapping<Action> {
    button_mapping: Vec<ButtonMappingItem<Action>>,
    slider_mapping: Vec<DirectionalSliderMappingItem<Action>>,
}

impl<Action> View for InputMapping<Action> {
    type V = InputMappingView<Action>;

    closed spec fn view(&self) -> InputMappingView<Action> {
        InputMappingView { buttons: self.button_mapping@, sliders: self.slider_mapping@ }
    }
}

impl<Action: Copy + PartialEq> InputMapping<Action> {
    /// A mapping with the given button and directional mappings, in order.
    pub fn from_mappings(
        buttons: Vec<ButtonMappingItem<Action>>,
        sliders: Vec<DirectionalSliderMappingItem<Action>>,
    ) -> (r: Self)
        ensures
            r@.buttons == buttons@,
            r@.sliders == sliders@,
    {
        InputMapping { button_mapping: buttons, slider_mapping: sliders }
    }

    /// Append a button mapping.
    pub fn add_button_mapping(&mut self, item: ButtonMappingItem<Action>)
        ensures
            final(self)@.buttons == old(self)@.buttons.push(item),
            final(self)@.sliders == old(self)@.sliders,
    {
        self.button_mapping.push(item);
    }

    /// Remove every button mapping equal to `item`, keeping the order of
    /// the others.
    pub fn remove_button_mapping(&mut self, item: &ButtonMappingItem<Action>)
        requires
            obeys_concrete_eq::<Action>(),
        ensures
            final(self)@.buttons == old(self)@.buttons.filter(keeps_button(*item)),
            final(self)@.sliders == old(self)@.sliders,
    {
        proof {
            reveal(obeys_concrete_eq);
        }
        let ghost pred = keeps_button(*item);
        let ghost old_buttons = self.button_mapping@;
        let mut kept: Vec<ButtonMappingItem<Action>> = Vec::new();
        let mut k: usize = 0;
        while k < self.button_mapping.len()
            invariant
                self.button_mapping@ == old_buttons,
                k <= old_buttons.len(),
                kept@ == old_buttons.take(k as int).filter(pred),
                pred == keeps_button(*item),
                Action::obeys_eq_spec(),
                forall|x: Action, y: Action| x.eq_spec(&y) <==> (x == y),
            decreases old_buttons.len() - k,
        {
            let it = self.button_mapping[k];
            proof {
                assert(old_buttons.take(k as int + 1) =~= old_buttons.take(k as int).push(it));
                old_buttons.take(k as int).lemma_filter_push(it, pred);
            }
            let same = it.input == item.input && it.action.eq(&item.action);
            assert(same == same_button(it, *item));
            assert(pred(it) == !same);
            if !same {
                kept.push(it);
            }
            assert(kept@ == old_buttons.take(k as int + 1).filter(pred));
            k = k + 1;
        }
        proof {
            assert(old_buttons.take(old_buttons.len() as int) =~= old_buttons);
        }
        self.button_mapping = kept;
    }

    /// Append a directional mapping.
    pub fn add_directional_mapping(&mut self, item: DirectionalSliderMappingItem<Action>)
        ensures
            final(self)@.sliders == old(self)@.sliders.push(item),
            final(self)@.buttons == old(self)@.buttons,
    {
        self.slider_mapping.push(item);
    }

    /// Remove every directional mapping with the action and input type of
    /// `item`, whatever its factors, keeping the order of the others.
    pub fn remove_directional_mapping(&mut self, item: &DirectionalSliderMappingItem<Action>)
        requires
            obeys_concrete_eq::<Action>(),
        ensures
            final(self)@.sliders == old(self)@.sliders.filter(keeps_slider(*item)),
            final(self)@.buttons == old(self)@.buttons,
    {
        proof {
            reveal(obeys_concrete_eq);
        }
        let ghost pred = keeps_slider(*item);
        let ghost old_sliders = self.slider_mapping@;
        let mut kept: Vec<DirectionalSliderMappingItem<Action>> = Vec::new();
        let mut k: usize = 0;
        while k < self.slider_mapping.len()
            invariant
                self.slider_mapping@ == old_sliders,
                k <= old_sliders.len(),
                kept@ == old_sliders.take(k as int).filter(pred),
                pred == keeps_slider(*item),
                Action::obeys_eq_spec(),
                forall|x: Action, y: Action| x.eq_spec(&y) <==> (x == y),
            decreases old_sliders.len() - k,
        {
            let it = self.slider_mapping[k];
            proof {
                assert(old_sliders.take(k as int + 1) =~= old_sliders.take(k as int).push(it));
                old_sliders.take(k as int).lemma_filter_push(it, pred);
            }
            let same = it.action.eq(&item.action) && it.slider_mapping_type
                == item.slider_mapping_type;
            assert(same == same_slider(it, *item));
            assert(pred(it) == !same);
            if !same {
                kept.push(it);
            }
            assert(kept@ == old_sliders.take(k as int + 1).filter(pred));
            k = k + 1;
        }
        proof {
            assert(old_sliders.take(old_sliders.len() as int) =~= old_sliders);
        }
        self.slider_mapping = kept;
    }

    /// The button mappings, in order.
    pub fn get_mappings_as_slice(&self) -> (r: &[ButtonMappingItem<Action>])
        ensures
            r@ == self@.buttons,
    {
        self.button_mapping.as_slice()
    }

    /// The directional mappings, in order.
    pub fn get_directional_mappings_as_slice(&self) -> (r: &[DirectionalSliderMappingItem<
        Action,
    >])
        ensures
            r@ == self@.sliders,
    {
        self.slider_mapping.as_slice()
    }

    /// The actions whose button inputs fired in a frame with the given keys
    /// and wheel motion, each once.
    pub fn triggered_actions(&self, keys: &KeyboardState, scroll_up: bool, scroll_down: bool) -> (r:
        Vec<Action>)
        requires
            obeys_concrete_eq::<Action>(),
        ensures
            r@.no_duplicates(),
            forall|a: Action|
                r@.contains(a) <==> exists|j: int|
                    0 <= j < self@.buttons.len() && #[trigger] self@.buttons[j].action == a
                        && fired(self@.buttons[j].input, *keys, scroll_up, scroll_down),
    {
        let mut out: Vec<Action> = Vec::new();
        let mut k: usize = 0;
        while k < self.button_mapping.len()
            invariant
                k <= self@.buttons.len(),
                self@.buttons == self.button_mapping@,
                obeys_concrete_eq::<Action>(),
                out@.no_duplicates(),
                forall|a: Action|
                    out@.contains(a) <==> exists|j: int|
                        0 <= j < k && #[trigger] self@.buttons[j].action == a && fired(
                            self@.buttons[j].input,
                            *keys,
                            scroll_up,
                            scroll_down,
                        ),
            decreases self@.buttons.len() - k,
        {
            let it = self.button_mapping[k];
            let ghost prev = out@;
            let f = input_fired(it.input, keys, scroll_up, scroll_down);
            if f {
                if !contains_action(&out, &it.action) {
                    out.push(it.action);
                    proof {
                        assert forall|x: Action| #[trigger] out@.contains(x) implies x == it.action
                            || prev.contains(x) by {
                            let i = choose|i: int| 0 <= i < out@.len() && out@[i] == x;
                            if i < prev.len() {
                                assert(prev[i] == x);
                            }
                        }
                        assert(out@[prev.len() as int] == it.action);
                        assert forall|x: Action| prev.contains(x) implies #[trigger] out@.contains(
                            x,
                        ) by {
                            let i = choose|i: int| 0 <= i < prev.len() && prev[i] == x;
                            assert(out@[i] == x);
                        }
                    }
                }
            }
            proof {
                assert forall|a: Action|
                    out@.contains(a) <==> exists|j: int|
                        0 <= j < k + 1 && #[trigger] self@.buttons[j].action == a && fired(
                            self@.buttons[j].input,
                            *keys,
                            scroll_up,
                            scroll_down,
                        ) by {
                    if out@.contains(a) {
                        if !prev.contains(a) {
                            assert(self@.buttons[k as int].action == a);
                        }
                    }
                    if exists|j: int|
                        0 <= j < k + 1 && #[trigger] self@.buttons[j].action == a && fired(
                            self@.buttons[j].input,
                            *keys,
                            scroll_up,
                            scroll_down,
                        ) {
                        let j = choose|j: int|
                            0 <= j < k + 1 && #[trigger] self@.buttons[j].action == a && fired(
                                self@.buttons[j].input,
                                *keys,
                                scroll_up,
                                scroll_down,
                            );
                        if j < k {
                            assert(prev.contains(a));
                        }
                    }
                }
            }
            k = k + 1;
        }
        out
    }
}

} // verus!
