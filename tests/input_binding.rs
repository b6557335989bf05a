use sudoku_rpg::input::create_input_binding;
use sudoku_rpg::input::events::InputBinding;
use sudoku_rpg::input::events::InputEffect;
use sudoku_rpg::input::events::Keycode;
use sudoku_rpg::input::events::MouseButton;
use sudoku_rpg::input::Axis;
use sudoku_rpg::input::Button;
use sudoku_rpg::input::InputEvent;
use sudoku_rpg::input::KEY_DOWN;
use sudoku_rpg::input::KEY_ESCAPE;
use sudoku_rpg::input::KEY_LEFT;
use sudoku_rpg::input::KEY_NUM1;
use sudoku_rpg::input::KEY_RIGHT;
use sudoku_rpg::input::KEY_UP;

#[test]
fn new_table_resolves_nothing() {
    let b: InputBinding<Axis, Button> = InputBinding::new();
    assert_eq!(b.resolve_key(Keycode(KEY_UP)), None);
    assert_eq!(b.resolve_mouse(MouseButton::Left, 1, 2), None);
    assert_eq!(b.resolve_mouse_motion(1, 2, 3, 4), None);
}

#[test]
fn key_bound_to_axis_resolves_to_it() {
    let b: InputBinding<Axis, Button> =
        InputBinding::new().bind_key_to_axis(Keycode(KEY_UP), Axis::Vert, true);
    assert_eq!(b.resolve_key(Keycode(KEY_UP)), Some(InputEffect::Axis(Axis::Vert, true)));
    assert_eq!(b.resolve_key(Keycode(KEY_DOWN)), None);
}

#[test]
fn key_bound_to_button_resolves_without_position() {
    let b: InputBinding<Axis, Button> =
        InputBinding::new().bind_key_to_button(Keycode(KEY_ESCAPE), Button::Exit);
    assert_eq!(b.resolve_key(Keycode(KEY_ESCAPE)), Some(InputEffect::Button(Button::Exit, None)));
}

#[test]
fn last_binding_of_a_key_wins() {
    let b: InputBinding<Axis, Button> = InputBinding::new()
        .bind_key_to_axis(Keycode(KEY_UP), Axis::Vert, true)
        .bind_key_to_button(Keycode(KEY_DOWN), Button::Num2)
        .bind_key_to_button(Keycode(KEY_UP), Button::Num1)
        .bind_key_to_axis(Keycode(KEY_DOWN), Axis::Horz, false);
    assert_eq!(b.resolve_key(Keycode(KEY_UP)), Some(InputEffect::Button(Button::Num1, None)));
    assert_eq!(b.resolve_key(Keycode(KEY_DOWN)), Some(InputEffect::Axis(Axis::Horz, false)));
    assert_eq!(b.resolve_key(Keycode(KEY_LEFT)), None);
}

#[test]
fn last_binding_of_a_mouse_button_wins() {
    let b: InputBinding<Axis, Button> = InputBinding::new()
        .bind_mouse_to_button(MouseButton::Left, Button::Select)
        .bind_mouse_to_button(MouseButton::Left, Button::Delete);
    assert_eq!(
        b.resolve_mouse(MouseButton::Left, 3, 4),
        Some(InputEffect::Button(Button::Delete, Some((3, 4))))
    );
    assert_eq!(b.resolve_mouse(MouseButton::Right, 3, 4), None);
}

#[test]
fn mouse_resolution_carries_the_live_position() {
    let b: InputBinding<Axis, Button> =
        InputBinding::new().bind_mouse_to_button(MouseButton::Left, Button::Select);
    assert_eq!(
        b.resolve_mouse(MouseButton::Left, 120, 340),
        Some(InputEffect::Button(Button::Select, Some((120, 340))))
    );
    assert_eq!(
        b.resolve_mouse(MouseButton::Left, -7, -9),
        Some(InputEffect::Button(Button::Select, Some((-7, -9))))
    );
}

#[test]
fn mouse_motion_is_reported_only_when_bound() {
    let unbound: InputBinding<Axis, Button> = InputBinding::new();
    assert_eq!(unbound.resolve_mouse_motion(10, 20, -1, 2), None);
    let bound: InputBinding<Axis, Button> = InputBinding::new().bind_mouse_motion();
    assert_eq!(
        bound.resolve_mouse_motion(10, 20, -1, 2),
        Some(InputEffect::MouseMotion(10, 20, -1, 2))
    );
}

#[test]
fn a_key_and_a_mouse_button_do_not_collide() {
    let b: InputBinding<Axis, Button> = InputBinding::new()
        .bind_key_to_button(Keycode(1), Button::Num1)
        .bind_mouse_to_button(MouseButton::Left, Button::Select);
    assert_eq!(b.resolve_key(Keycode(1)), Some(InputEffect::Button(Button::Num1, None)));
    assert_eq!(
        b.resolve_mouse(MouseButton::Left, 0, 0),
        Some(InputEffect::Button(Button::Select, Some((0, 0))))
    );
}

#[test]
fn default_bindings() {
    let b = create_input_binding();
    let up: Option<InputEvent> = b.resolve_key(Keycode(KEY_UP));
    assert_eq!(up, Some(InputEffect::Axis(Axis::Vert, true)));
    assert_eq!(b.resolve_key(Keycode(KEY_DOWN)), Some(InputEffect::Axis(Axis::Vert, false)));
    assert_eq!(b.resolve_key(Keycode(KEY_LEFT)), Some(InputEffect::Axis(Axis::Horz, false)));
    assert_eq!(b.resolve_key(Keycode(KEY_RIGHT)), Some(InputEffect::Axis(Axis::Horz, true)));
    assert_eq!(b.resolve_key(Keycode(KEY_NUM1)), Some(InputEffect::Button(Button::Num1, None)));
    assert_eq!(
        b.resolve_key(Keycode(KEY_NUM1 + 4)),
        Some(InputEffect::Button(Button::Num5, None))
    );
    assert_eq!(
        b.resolve_key(Keycode(KEY_NUM1 + 8)),
        Some(InputEffect::Button(Button::Num9, None))
    );
    assert_eq!(b.resolve_key(Keycode(KEY_ESCAPE)), Some(InputEffect::Button(Button::Exit, None)));
    assert_eq!(b.resolve_key(Keycode(KEY_NUM1 - 1)), None);
    assert_eq!(
        b.resolve_mouse(MouseButton::Left, 60, 110),
        Some(InputEffect::Button(Button::Select, Some((60, 110))))
    );
    assert_eq!(b.resolve_mouse(MouseButton::Right, 60, 110), None);
    assert_eq!(b.resolve_mouse_motion(1, 2, 3, 4), Some(InputEffect::MouseMotion(1, 2, 3, 4)));
}
