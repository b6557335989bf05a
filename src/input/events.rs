//! Mapping of physical input events to logical effects, and the
//! time-integrated state of logical axes and buttons.
use vstd::prelude::*;
use vstd::std_specs::cmp::PartialEqSpec;

use crate::assoc::entries_map;
use crate::assoc::find_key;
use crate::assoc::keys_unique;
use crate::assoc::lemma_entries_map_absent;
use crate::assoc::lemma_entries_map_index;
use crate::assoc::lemma_entries_map_push;
use crate::assoc::lemma_entries_map_update;
use crate::assoc::lemma_entries_map_values;
use crate::assoc::map_get;

verus! {

/// A key, by the key code that the windowing layer reports for it.
#[derive(Debug, Copy, Clone, PartialEq, Eq, Hash, Structural)]
pub struct Keycode(pub i32);

/// A mouse button as the windowing layer names it.
#[derive(Debug, Copy, Clone, PartialEq, Eq, Hash, Structural)]
pub enum MouseButton {
    Unknown,
    Left,
    Middle,
    Right,
    X1,
    X2,
}

/// The identity of a physical input, used to look up its binding.
#[derive(Debug, Copy, Clone, PartialEq, Eq, Hash, Structural)]
pub enum InputType {
    KeyEvent(Keycode),
    MouseButtonEvent(MouseButton),
    MouseMotionEvent,
}

/// A physical input expressed in the application's own terms.
#[derive(Debug, Copy, Clone, PartialEq)]
pub enum InputEffect<Axes, Buttons> {
    /// An axis driven in the positive (`true`) or negative direction.
    Axis(Axes, bool),
    /// A button, with the pointer position when a mouse button caused it.
    Button(Buttons, Option<(i32, i32)>),
    /// Pointer position and its change: `x`, `y`, `dx`, `dy`.
    MouseMotion(i32, i32, i32, i32),
}

/// A mapping from physical inputs to whatever the logical axis and button
/// types of the application are.
pub struct InputBinding<Axes, Buttons> {
    bindings: Vec<(InputType, InputEffect<Axes, Buttons>)>,
}

impl<Axes, Buttons> View for InputBinding<Axes, Buttons> {
    type V = Map<InputType, InputEffect<Axes, Buttons>>;

    closed spec fn view(&self) -> Self::V {
        entries_map(self.bindings@)
    }
}

impl<Axes, Buttons> InputBinding<Axes, Buttons> {
    #[verifier::type_invariant]
    spec fn inv(&self) -> bool {
        keys_unique(self.bindings@)
    }

    /// The effect bound to the physical input `t`, if any.
    pub open spec fn binding(&self, t: InputType) -> Option<InputEffect<Axes, Buttons>> {
        map_get(self@, t)
    }

    pub fn new() -> (r: Self)
        ensures
            r@ == Map::<InputType, InputEffect<Axes, Buttons>>::empty(),
    {
        let r = InputBinding { bindings: Vec::new() };
        assert(r@ =~= Map::empty());
        r
    }

    fn find(&self, t: &InputType) -> (r: Option<usize>)
        ensures
            match r {
                Some(i) => i < self.bindings@.len() && self.bindings@[i as int].0 == *t,
                None => forall|i: int|
                    0 <= i < self.bindings@.len() ==> #[trigger] self.bindings@[i].0 != *t,
            },
    {
        let mut i: usize = 0;
        while i < self.bindings.len()
            invariant
                i <= self.bindings@.len(),
                forall|j: int| 0 <= j < i ==> #[trigger] self.bindings@[j].0 != *t,
            decreases self.bindings@.len() - i,
        {
            if self.bindings[i].0 == *t {
                return Some(i);
            }
            i = i + 1;
        }
        None
    }

    fn lookup(&self, t: &InputType) -> (r: Option<&InputEffect<Axes, Buttons>>)
        ensures
            match r {
                Some(e) => self@.contains_key(*t) && self@[*t] == *e,
                None => !self@.contains_key(*t),
            },
    {
        proof {
            use_type_invariant(self);
        }
        match self.find(t) {
            Some(i) => {
                proof {
                    lemma_entries_map_index(self.bindings@, i as int);
                }
                Some(&self.bindings[i].1)
            },
            None => {
                proof {
                    lemma_entries_map_absent(self.bindings@, *t);
                }
                None
            },
        }
    }

    fn insert(&mut self, t: InputType, e: InputEffect<Axes, Buttons>)
        ensures
            final(self)@ == old(self)@.insert(t, e),
    {
        proof {
            use_type_invariant(&*self);
        }
        let mut entries: Vec<(InputType, InputEffect<Axes, Buttons>)> = Vec::new();
        match self.find(&t) {
            Some(i) => {
                std::mem::swap(&mut self.bindings, &mut entries);
                proof {
                    lemma_entries_map_update(entries@, i as int, e);
                }
                entries.set(i, (t, e));
            },
            None => {
                std::mem::swap(&mut self.bindings, &mut entries);
                proof {
                    lemma_entries_map_push(entries@, t, e);
                }
                entries.push((t, e));
            },
        }
        std::mem::swap(&mut self.bindings, &mut entries);
    }

    /// Adds a key binding connecting the given keycode to the given
    /// logical axis.
    pub fn bind_key_to_axis(self, keycode: Keycode, axis: Axes, positive: bool) -> (r: Self)
        ensures
            r@ == self@.insert(InputType::KeyEvent(keycode), InputEffect::Axis(axis, positive)),
    {
        let mut r = self;
        r.insert(InputType::KeyEvent(keycode), InputEffect::Axis(axis, positive));
        r
    }

    /// Adds a key binding connecting the given keycode to the given
    /// logical button.
    pub fn bind_key_to_button(self, keycode: Keycode, button: Buttons) -> (r: Self)
        ensures
            r@ == self@.insert(InputType::KeyEvent(keycode), InputEffect::Button(button, None)),
    {
        let mut r = self;
        r.insert(InputType::KeyEvent(keycode), InputEffect::Button(button, None));
        r
    }

    /// Adds a binding connecting the given mouse button to the given
    /// logical button.
    pub fn bind_mouse_to_button(self, mouse: MouseButton, button: Buttons) -> (r: Self)
        ensures
            r@ == self@.insert(
                InputType::MouseButtonEvent(mouse),
                InputEffect::Button(button, None),
            ),
    {
        let mut r = self;
        r.insert(InputType::MouseButtonEvent(mouse), InputEffect::Button(button, None));
        r
    }

    /// Turns on the reporting of mouse motion.
    pub fn bind_mouse_motion(self) -> (r: Self)
        ensures
            r@ == self@.insert(InputType::MouseMotionEvent, InputEffect::MouseMotion(0, 0, 0, 0)),
    {
        let mut r = self;
        r.insert(InputType::MouseMotionEvent, InputEffect::MouseMotion(0, 0, 0, 0));
        r
    }
}

impl<Axes: Copy, Buttons: Copy> InputBinding<Axes, Buttons> {
    /// Turns a key into the logical effect bound to it.
    pub fn resolve_key(&self, keycode: Keycode) -> (r: Option<InputEffect<Axes, Buttons>>)
        ensures
            r == self.binding(InputType::KeyEvent(keycode)),
    {
        match self.lookup(&InputType::KeyEvent(keycode)) {
            Some(e) => Some(*e),
            None => None,
        }
    }

    /// Turns a mouse button into the logical button bound to it, carrying the
    /// pointer position of the event.
    pub fn resolve_mouse(&self, mouse: MouseButton, x: i32, y: i32) -> (r: Option<
        InputEffect<Axes, Buttons>,
    >)
        ensures
            r == mouse_resolution(self.binding(InputType::MouseButtonEvent(mouse)), x, y),
    {
        if let Some(InputEffect::Button(button, _)) = self.lookup(
            &InputType::MouseButtonEvent(mouse),
        ) {
            Some(InputEffect::Button(*button, Some((x, y))))
        } else {
            None
        }
    }

    /// Reports mouse motion, if mouse motion is bound.
    pub fn resolve_mouse_motion(&self, x: i32, y: i32, xrel: i32, yrel: i32) -> (r: Option<
        InputEffect<Axes, Buttons>,
    >)
        ensures
            r == (if self@.contains_key(InputType::MouseMotionEvent) {
                Some(InputEffect::<Axes, Buttons>::MouseMotion(x, y, xrel, yrel))
            } else {
                None
            }),
    {
        match self.lookup(&InputType::MouseMotionEvent) {
            Some(_) => Some(InputEffect::MouseMotion(x, y, xrel, yrel)),
            None => None,
        }
    }
}

/// What a mouse button resolves to, given its binding and the pointer position:
/// the bound button, with the position put in.
pub open spec fn mouse_resolution<Axes, Buttons>(
    bound: Option<InputEffect<Axes, Buttons>>,
    x: i32,
    y: i32,
) -> Option<InputEffect<Axes, Buttons>> {
    match bound {
        Some(InputEffect::Button(b, _)) => Some(InputEffect::Button(b, Some((x, y)))),
        _ => None,
    }
}

/// One full deflection of an axis. Axis positions and directions are held in
/// thousandths of a deflection, so they lie in `-AXIS_SCALE..=AXIS_SCALE`.
pub const AXIS_SCALE: i32 = 1000;

/// Default speed toward the driven direction: thousandths of a deflection per
/// millisecond, which is the same number as deflections per second.
pub const DEFAULT_ACCELERATION: i32 = 4;

/// Default speed back toward rest, in the same unit as the acceleration.
pub const DEFAULT_GRAVITY: i32 = 3;

/// The state of one logical axis.
#[derive(Debug, Copy, Clone, PartialEq, Eq, Structural)]
pub struct AxisState {
    /// Where the axis currently is.
    pub position: i32,
    /// Where the axis is moving towards.
    pub direction: i32,
    /// Speed toward `direction` while the axis is driven.
    pub acceleration: i32,
    /// Speed back toward zero while it is not.
    pub gravity: i32,
}

/// The state of one logical button.
#[derive(Debug, Copy, Clone, PartialEq, Eq, Structural)]
pub struct ButtonState {
    pub pressed: bool,
    pub pressed_last_frame: bool,
}

impl Default for AxisState {
    fn default() -> (r: AxisState)
        ensures
            r == axis_at_rest(),
    {
        AxisState {
            position: 0,
            direction: 0,
            acceleration: DEFAULT_ACCELERATION,
            gravity: DEFAULT_GRAVITY,
        }
    }
}

impl Default for ButtonState {
    fn default() -> (r: ButtonState)
        ensures
            r == button_at_rest(),
    {
        ButtonState { pressed: false, pressed_last_frame: false }
    }
}

/// An axis that has not been touched yet.
pub open spec fn axis_at_rest() -> AxisState {
    AxisState {
        position: 0,
        direction: 0,
        acceleration: DEFAULT_ACCELERATION,
        gravity: DEFAULT_GRAVITY,
    }
}

/// A button that has not been touched yet.
pub open spec fn button_at_rest() -> ButtonState {
    ButtonState { pressed: false, pressed_last_frame: false }
}

/// Position and direction within one deflection, speeds not negative.
pub open spec fn axis_valid(s: AxisState) -> bool {
    &&& -AXIS_SCALE <= s.position <= AXIS_SCALE
    &&& -AXIS_SCALE <= s.direction <= AXIS_SCALE
    &&& s.acceleration >= 0
    &&& s.gravity >= 0
}

/// Moves `pos` toward `target` by at most `rate`, without passing `target`.
pub open spec fn approach(pos: int, target: int, rate: int) -> int {
    if pos < target {
        if target - pos <= rate {
            target
        } else {
            pos + rate
        }
    } else if pos > target {
        if pos - target <= rate {
            target
        } else {
            pos - rate
        }
    } else {
        pos
    }
}

/// An axis after `dt` milliseconds: driven toward its direction at its
/// acceleration, or pulled back to zero by its gravity when its direction is zero.
pub open spec fn axis_after(s: AxisState, dt: nat) -> AxisState {
    if s.direction != 0 {
        AxisState { position: approach(s.position as int, s.direction as int, s.acceleration * dt) as i32, ..s }
    } else {
        AxisState { position: approach(s.position as int, 0, s.gravity * dt) as i32, ..s }
    }
}

/// A button after a tick: this tick's state becomes the previous one.
pub open spec fn button_after(b: ButtonState) -> ButtonState {
    ButtonState { pressed_last_frame: b.pressed, ..b }
}

/// The state of `a` in `m`, or the untouched state.
pub open spec fn axis_or_rest<K>(m: Map<K, AxisState>, a: K) -> AxisState {
    if m.contains_key(a) {
        m[a]
    } else {
        axis_at_rest()
    }
}

/// The state of `b` in `m`, or the untouched state.
pub open spec fn button_or_rest<K>(m: Map<K, ButtonState>, b: K) -> ButtonState {
    if m.contains_key(b) {
        m[b]
    } else {
        button_at_rest()
    }
}

/// The direction that an axis effect asserts: full deflection toward its
/// side while the input is down, zero once it is released.
pub open spec fn effect_direction(positive: bool, started: bool) -> i32 {
    if !started {
        0
    } else if positive {
        AXIS_SCALE
    } else {
        (-AXIS_SCALE) as i32
    }
}

/// `m` with the direction of axis `a` set to `direction`.
pub open spec fn set_axis_direction<K>(m: Map<K, AxisState>, a: K, direction: i32) -> Map<
    K,
    AxisState,
> {
    m.insert(a, AxisState { direction, ..axis_or_rest(m, a) })
}

/// `m` with button `b` set pressed or released.
pub open spec fn set_button_pressed<K>(m: Map<K, ButtonState>, b: K, pressed: bool) -> Map<
    K,
    ButtonState,
> {
    m.insert(b, ButtonState { pressed, ..button_or_rest(m, b) })
}

/// Every axis of `m` after `dt` milliseconds.
pub open spec fn axes_after<K>(m: Map<K, AxisState>, dt: nat) -> Map<K, AxisState> {
    m.map_values(|s: AxisState| axis_after(s, dt))
}

/// Every button of `m` after a tick.
pub open spec fn buttons_after<K>(m: Map<K, ButtonState>) -> Map<K, ButtonState> {
    m.map_values(|b: ButtonState| button_after(b))
}

/// The buttons of `m` after `n` ticks.
pub open spec fn buttons_after_ticks<K>(m: Map<K, ButtonState>, n: nat) -> Map<K, ButtonState>
    decreases n,
{
    if n == 0 {
        m
    } else {
        buttons_after(buttons_after_ticks(m, (n - 1) as nat))
    }
}

/// Pressed now and not at the previous tick.
pub open spec fn just_pressed(b: ButtonState) -> bool {
    b.pressed && !b.pressed_last_frame
}

/// Released now and pressed at the previous tick.
pub open spec fn just_released(b: ButtonState) -> bool {
    !b.pressed && b.pressed_last_frame
}

/// The per-axis and per-button state of the logical inputs.
pub struct InputState<Axes, Buttons> {
    axes: Vec<(Axes, AxisState)>,
    buttons: Vec<(Buttons, ButtonState)>,
}

impl<Axes, Buttons> InputState<Axes, Buttons> {
    #[verifier::type_invariant]
    spec fn inv(&self) -> bool {
        &&& keys_unique(self.axes@)
        &&& keys_unique(self.buttons@)
        &&& forall|i: int| 0 <= i < self.axes@.len() ==> axis_valid(#[trigger] self.axes@[i].1)
    }

    /// The state of each axis that has been touched.
    pub closed spec fn axes(&self) -> Map<Axes, AxisState> {
        entries_map(self.axes@)
    }

    /// The state of each button that has been touched.
    pub closed spec fn buttons(&self) -> Map<Buttons, ButtonState> {
        entries_map(self.buttons@)
    }

    pub fn new() -> (r: Self)
        ensures
            r.axes() == Map::<Axes, AxisState>::empty(),
            r.buttons() == Map::<Buttons, ButtonState>::empty(),
    {
        let r = InputState { axes: Vec::new(), buttons: Vec::new() };
        assert(r.axes() =~= Map::empty());
        assert(r.buttons() =~= Map::empty());
        r
    }
}

impl<Axes: Copy + PartialEq, Buttons: Copy + PartialEq> InputState<Axes, Buttons> {
    /// Applies one effect: an axis effect sets the axis's direction, a button
    /// effect sets whether the button is pressed, each by whether the input
    /// went down (`started`) or up. Untouched axes and buttons are created at
    /// rest first. Mouse motion changes nothing.
    pub fn update_effect(&mut self, effect: InputEffect<Axes, Buttons>, started: bool)
        requires
            vstd::laws_eq::obeys_concrete_eq::<Axes>(),
            vstd::laws_eq::obeys_concrete_eq::<Buttons>(),
        ensures
            match effect {
                InputEffect::Axis(a, positive) => {
                    &&& final(self).axes() == set_axis_direction(
                        old(self).axes(),
                        a,
                        effect_direction(positive, started),
                    )
                    &&& final(self).buttons() == old(self).buttons()
                },
                InputEffect::Button(b, _) => {
                    &&& final(self).axes() == old(self).axes()
                    &&& final(self).buttons() == set_button_pressed(old(self).buttons(), b, started)
                },
                InputEffect::MouseMotion(..) => {
                    &&& final(self).axes() == old(self).axes()
                    &&& final(self).buttons() == old(self).buttons()
                },
            },
    {
        proof {
            use_type_invariant(&*self);
        }
        match effect {
            InputEffect::Axis(a, positive) => {
                let direction: i32 = if !started {
                    0
                } else if positive {
                    AXIS_SCALE
                } else {
                    -AXIS_SCALE
                };
                let mut axes: Vec<(Axes, AxisState)> = Vec::new();
                std::mem::swap(&mut self.axes, &mut axes);
                match find_key(&axes, &a) {
                    Some(i) => {
                        let new_state = AxisState { direction, ..axes[i].1 };
                        proof {
                            lemma_entries_map_index(axes@, i as int);
                            lemma_entries_map_update(axes@, i as int, new_state);
                        }
                        axes.set(i, (a, new_state));
                        assert(new_state == AxisState {
                            direction: effect_direction(positive, started),
                            ..axis_or_rest(old(self).axes(), a)
                        });
                    },
                    None => {
                        let new_state = AxisState { direction, ..AxisState::default() };
                        proof {
                            lemma_entries_map_absent(axes@, a);
                            lemma_entries_map_push(axes@, a, new_state);
                        }
                        axes.push((a, new_state));
                        assert(new_state == AxisState {
                            direction: effect_direction(positive, started),
                            ..axis_or_rest(old(self).axes(), a)
                        });
                    },
                }
                std::mem::swap(&mut self.axes, &mut axes);
            },
            InputEffect::Button(b, _) => {
                let mut buttons: Vec<(Buttons, ButtonState)> = Vec::new();
                std::mem::swap(&mut self.buttons, &mut buttons);
                match find_key(&buttons, &b) {
                    Some(i) => {
                        let new_state = ButtonState { pressed: started, ..buttons[i].1 };
                        proof {
                            lemma_entries_map_index(buttons@, i as int);
                            lemma_entries_map_update(buttons@, i as int, new_state);
                        }
                        buttons.set(i, (b, new_state));
                    },
                    None => {
                        let new_state = ButtonState { pressed: started, ..ButtonState::default() };
                        proof {
                            lemma_entries_map_absent(buttons@, b);
                            lemma_entries_map_push(buttons@, b, new_state);
                        }
                        buttons.push((b, new_state));
                    },
                }
                std::mem::swap(&mut self.buttons, &mut buttons);
            },
            InputEffect::MouseMotion(..) => {},
        }
    }
    /// Advances every axis by `dt` milliseconds, and makes each button's
    /// current state its state at the previous tick.
    pub fn tick(&mut self, dt: u32)
        ensures
            final(self).axes() == axes_after(old(self).axes(), dt as nat),
            final(self).buttons() == buttons_after(old(self).buttons()),
    {
        proof {
            use_type_invariant(&*self);
        }
        let mut axes: Vec<(Axes, AxisState)> = Vec::new();
        std::mem::swap(&mut self.axes, &mut axes);
        let ghost axes0 = axes@;
        let mut i: usize = 0;
        while i < axes.len()
            invariant
                axes@.len() == axes0.len(),
                i <= axes0.len(),
                forall|j: int|
                    0 <= j < i ==> #[trigger] axes@[j] == (
                        axes0[j].0,
                        axis_after(axes0[j].1, dt as nat),
                    ),
                forall|j: int| i <= j < axes0.len() ==> #[trigger] axes@[j] == axes0[j],
                forall|j: int| 0 <= j < axes0.len() ==> axis_valid(#[trigger] axes0[j].1),
                forall|j: int| 0 <= j < axes0.len() ==> axis_valid(#[trigger] axes@[j].1),
            decreases axes0.len() - i,
        {
            let (k, st) = axes[i];
            axes.set(i, (k, step_axis(st, dt)));
            i = i + 1;
        }
        proof {
            lemma_entries_map_values(axes0, axes@, |s: AxisState| axis_after(s, dt as nat));
            assert forall|a: int, b: int|
                0 <= a < axes@.len() && 0 <= b < axes@.len() && a != b implies #[trigger] axes@[a].0
                != #[trigger] axes@[b].0 by {
                assert(axes@[a].0 == axes0[a].0 && axes@[b].0 == axes0[b].0);
            }
        }
        std::mem::swap(&mut self.axes, &mut axes);
        let mut buttons: Vec<(Buttons, ButtonState)> = Vec::new();
        std::mem::swap(&mut self.buttons, &mut buttons);
        let ghost buttons0 = buttons@;
        let mut i: usize = 0;
        while i < buttons.len()
            invariant
                buttons@.len() == buttons0.len(),
                i <= buttons0.len(),
                forall|j: int|
                    0 <= j < i ==> #[trigger] buttons@[j] == (
                        buttons0[j].0,
                        button_after(buttons0[j].1),
                    ),
                forall|j: int| i <= j < buttons0.len() ==> #[trigger] buttons@[j] == buttons0[j],
            decreases buttons0.len() - i,
        {
            let (k, st) = buttons[i];
            buttons.set(i, (k, ButtonState { pressed_last_frame: st.pressed, ..st }));
            i = i + 1;
        }
        proof {
            lemma_entries_map_values(buttons0, buttons@, |b: ButtonState| button_after(b));
            assert forall|a: int, b: int|
                0 <= a < buttons@.len() && 0 <= b < buttons@.len() && a != b implies #[trigger] buttons@[a].0
                != #[trigger] buttons@[b].0 by {
                assert(buttons@[a].0 == buttons0[a].0 && buttons@[b].0 == buttons0[b].0);
            }
        }
        std::mem::swap(&mut self.buttons, &mut buttons);
    }

    fn axis_state(&self, axis: Axes) -> (r: AxisState)
        requires
            vstd::laws_eq::obeys_concrete_eq::<Axes>(),
        ensures
            r == axis_or_rest(self.axes(), axis),
    {
        proof {
            use_type_invariant(self);
        }
        match find_key(&self.axes, &axis) {
            Some(i) => {
                proof {
                    lemma_entries_map_index(self.axes@, i as int);
                }
                self.axes[i].1
            },
            None => {
                proof {
                    lemma_entries_map_absent(self.axes@, axis);
                }
                AxisState::default()
            },
        }
    }

    fn button_state(&self, button: Buttons) -> (r: ButtonState)
        requires
            vstd::laws_eq::obeys_concrete_eq::<Buttons>(),
        ensures
            r == button_or_rest(self.buttons(), button),
    {
        proof {
            use_type_invariant(self);
        }
        match find_key(&self.buttons, &button) {
            Some(i) => {
                proof {
                    lemma_entries_map_index(self.buttons@, i as int);
                }
                self.buttons[i].1
            },
            None => {
                proof {
                    lemma_entries_map_absent(self.buttons@, button);
                }
                ButtonState::default()
            },
        }
    }

    /// Where the axis currently is, in thousandths of a deflection.
    pub fn get_axis(&self, axis: Axes) -> (r: i32)
        requires
            vstd::laws_eq::obeys_concrete_eq::<Axes>(),
        ensures
            r == axis_or_rest(self.axes(), axis).position,
    {
        self.axis_state(axis).position
    }

    /// Where the axis is moving towards.
    pub fn get_axis_raw(&self, axis: Axes) -> (r: i32)
        requires
            vstd::laws_eq::obeys_concrete_eq::<Axes>(),
        ensures
            r == axis_or_rest(self.axes(), axis).direction,
    {
        self.axis_state(axis).direction
    }

    /// Whether the button is pressed.
    pub fn get_button(&self, button: Buttons) -> (r: bool)
        requires
            vstd::laws_eq::obeys_concrete_eq::<Buttons>(),
        ensures
            r == button_or_rest(self.buttons(), button).pressed,
    {
        self.button_state(button).pressed
    }

    /// Whether the button went down since the previous tick.
    pub fn get_button_down(&self, button: Buttons) -> (r: bool)
        requires
            vstd::laws_eq::obeys_concrete_eq::<Buttons>(),
        ensures
            r == just_pressed(button_or_rest(self.buttons(), button)),
    {
        let s = self.button_state(button);
        s.pressed && !s.pressed_last_frame
    }

    /// Whether the button went up since the previous tick.
    pub fn get_button_up(&self, button: Buttons) -> (r: bool)
        requires
            vstd::laws_eq::obeys_concrete_eq::<Buttons>(),
        ensures
            r == just_released(button_or_rest(self.buttons(), button)),
    {
        let s = self.button_state(button);
        !s.pressed && s.pressed_last_frame
    }
}

/// One axis after `dt` milliseconds.
fn step_axis(s: AxisState, dt: u32) -> (r: AxisState)
    requires
        axis_valid(s),
    ensures
        r == axis_after(s, dt as nat),
        axis_valid(r),
{
    let pos = s.position as i64;
    let target: i64 = if s.direction != 0 {
        s.direction as i64
    } else {
        0
    };
    let speed: i64 = if s.direction != 0 {
        s.acceleration as i64
    } else {
        s.gravity as i64
    };
    assert(0 <= speed * dt <= 0x7fff_ffff * 0xffff_ffff) by (nonlinear_arith)
        requires
            0 <= speed <= 0x7fff_ffff,
            0 <= dt <= 0xffff_ffff,
    ;
    let rate: i64 = speed * (dt as i64);
    let position: i64 = if pos < target {
        if target - pos <= rate {
            target
        } else {
            pos + rate
        }
    } else if pos > target {
        if pos - target <= rate {
            target
        } else {
            pos - rate
        }
    } else {
        pos
    };
    AxisState { position: position as i32, ..s }
}

} // verus!
