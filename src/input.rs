//! The game's logical inputs and its default key bindings.
pub mod events;
pub mod laws;

use vstd::prelude::*;

use self::events::InputBinding as Binding;
use self::events::InputEffect;
use self::events::InputState as State;
use self::events::InputType;
use self::events::Keycode;
use self::events::MouseButton;

verus! {

/// The buttons that the game reacts to.
#[derive(Debug, Copy, Clone, Eq, Hash)]
pub enum Button {
    Num1,
    Num2,
    Num3,
    Num4,
    Num5,
    Num6,
    Num7,
    Num8,
    Num9,
    Select,
    Delete,
    Exit,
}

/// The axes that the game reacts to.
#[derive(Debug, Copy, Clone, Eq, Hash)]
pub enum Axis {
    Vert,
    Horz,
}

impl PartialEq for Button {
    fn eq(&self, other: &Button) -> (r: bool) {
        match (self, other) {
            (Button::Num1, Button::Num1)
            | (Button::Num2, Button::Num2)
            | (Button::Num3, Button::Num3)
            | (Button::Num4, Button::Num4)
            | (Button::Num5, Button::Num5)
            | (Button::Num6, Button::Num6)
            | (Button::Num7, Button::Num7)
            | (Button::Num8, Button::Num8)
            | (Button::Num9, Button::Num9)
            | (Button::Select, Button::Select)
            | (Button::Delete, Button::Delete)
            | (Button::Exit, Button::Exit) => true,
            _ => false,
        }
    }
}

impl vstd::std_specs::cmp::PartialEqSpecImpl for Button {
    open spec fn obeys_eq_spec() -> bool {
        true
    }

    open spec fn eq_spec(&self, other: &Button) -> bool {
        *self == *other
    }
}

impl PartialEq for Axis {
    fn eq(&self, other: &Axis) -> (r: bool) {
        match (self, other) {
            (Axis::Vert, Axis::Vert) | (Axis::Horz, Axis::Horz) => true,
            _ => false,
        }
    }
}

impl vstd::std_specs::cmp::PartialEqSpecImpl for Axis {
    open spec fn obeys_eq_spec() -> bool {
        true
    }

    open spec fn eq_spec(&self, other: &Axis) -> bool {
        *self == *other
    }
}

/// `==` on axes and on buttons is equality, so the input state can key on them.
pub proof fn lemma_inputs_obey_eq()
    ensures
        vstd::laws_eq::obeys_concrete_eq::<Axis>(),
        vstd::laws_eq::obeys_concrete_eq::<Button>(),
{
    reveal(vstd::laws_eq::obeys_concrete_eq);
}

pub type InputBinding = Binding<Axis, Button>;

pub type InputEvent = InputEffect<Axis, Button>;

pub type InputState = State<Axis, Button>;

/// Key codes of the keys bound by default, as the windowing layer reports them.
pub const KEY_UP: i32 = 1073741906;

pub const KEY_DOWN: i32 = 1073741905;

pub const KEY_LEFT: i32 = 1073741904;

pub const KEY_RIGHT: i32 = 1073741903;

pub const KEY_ESCAPE: i32 = 27;

/// Key code of the digit key `1`; the digits up to `9` follow it.
pub const KEY_NUM1: i32 = 49;

/// The effect bound by default to a physical input, if any.
pub open spec fn default_binding(t: InputType) -> Option<InputEvent> {
    match t {
        InputType::KeyEvent(k) => {
            if k.0 == KEY_UP {
                Some(InputEffect::Axis(Axis::Vert, true))
            } else if k.0 == KEY_DOWN {
                Some(InputEffect::Axis(Axis::Vert, false))
            } else if k.0 == KEY_LEFT {
                Some(InputEffect::Axis(Axis::Horz, false))
            } else if k.0 == KEY_RIGHT {
                Some(InputEffect::Axis(Axis::Horz, true))
            } else if k.0 == KEY_ESCAPE {
                Some(InputEffect::Button(Button::Exit, None))
            } else if KEY_NUM1 <= k.0 < KEY_NUM1 + 9 {
                Some(InputEffect::Button(digit_button((k.0 - KEY_NUM1 + 1) as nat), None))
            } else {
                None
            }
        },
        InputType::MouseButtonEvent(b) => {
            if b == MouseButton::Left {
                Some(InputEffect::Button(Button::Select, None))
            } else {
                None
            }
        },
        InputType::MouseMotionEvent => Some(InputEffect::MouseMotion(0, 0, 0, 0)),
    }
}

/// The button of the digit `d`, for `d` in `1..=9`.
pub open spec fn digit_button(d: nat) -> Button {
    if d == 1 {
        Button::Num1
    } else if d == 2 {
        Button::Num2
    } else if d == 3 {
        Button::Num3
    } else if d == 4 {
        Button::Num4
    } else if d == 5 {
        Button::Num5
    } else if d == 6 {
        Button::Num6
    } else if d == 7 {
        Button::Num7
    } else if d == 8 {
        Button::Num8
    } else {
        Button::Num9
    }
}

/// The digit of a digit button.
pub open spec fn button_digit(b: Button) -> Option<u8> {
    match b {
        Button::Num1 => Some(1u8),
        Button::Num2 => Some(2u8),
        Button::Num3 => Some(3u8),
        Button::Num4 => Some(4u8),
        Button::Num5 => Some(5u8),
        Button::Num6 => Some(6u8),
        Button::Num7 => Some(7u8),
        Button::Num8 => Some(8u8),
        Button::Num9 => Some(9u8),
        _ => None,
    }
}

/// Create the default keybindings: arrows move, digits enter numbers, escape
/// exits, the left mouse button selects and mouse motion is reported.
pub fn create_input_binding() -> (r: InputBinding)
    ensures
        forall|t: InputType| #[trigger] r.binding(t) == default_binding(t),
{
    let r = Binding::new()
        .bind_key_to_axis(Keycode(KEY_UP), Axis::Vert, true)
        .bind_key_to_axis(Keycode(KEY_DOWN), Axis::Vert, false)
        .bind_key_to_axis(Keycode(KEY_LEFT), Axis::Horz, false)
        .bind_key_to_axis(Keycode(KEY_RIGHT), Axis::Horz, true)
        .bind_key_to_button(Keycode(KEY_NUM1), Button::Num1)
        .bind_key_to_button(Keycode(KEY_NUM1 + 1), Button::Num2)
        .bind_key_to_button(Keycode(KEY_NUM1 + 2), Button::Num3)
        .bind_key_to_button(Keycode(KEY_NUM1 + 3), Button::Num4)
        .bind_key_to_button(Keycode(KEY_NUM1 + 4), Button::Num5)
        .bind_key_to_button(Keycode(KEY_NUM1 + 5), Button::Num6)
        .bind_key_to_button(Keycode(KEY_NUM1 + 6), Button::Num7)
        .bind_key_to_button(Keycode(KEY_NUM1 + 7), Button::Num8)
        .bind_key_to_button(Keycode(KEY_NUM1 + 8), Button::Num9)
        .bind_key_to_button(Keycode(KEY_ESCAPE), Button::Exit)
        .bind_mouse_to_button(MouseButton::Left, Button::Select)
        .bind_mouse_motion();
    r
}

} // verus!
