//! What holds of the binding table and the input state over many calls.
use vstd::math::max;
use vstd::math::min;
use vstd::prelude::*;

use crate::assoc::map_get;
use crate::input::events::axis_after;
use crate::input::events::axis_valid;
use crate::input::events::AxisState;
use crate::input::events::button_or_rest;
use crate::input::events::buttons_after;
use crate::input::events::ButtonState;
use crate::input::events::buttons_after_ticks;
use crate::input::events::just_pressed;
use crate::input::events::mouse_resolution;
use crate::input::events::set_button_pressed;
use crate::input::events::InputEffect;
use crate::input::events::InputType;
use crate::input::events::Keycode;
use crate::input::events::MouseButton;
use crate::input::events::AXIS_SCALE;

verus! {

/// One call of a `bind_*` method of `InputBinding`, with its arguments.
pub enum BindCall<Axes, Buttons> {
    KeyToAxis(Keycode, Axes, bool),
    KeyToButton(Keycode, Buttons),
    MouseToButton(MouseButton, Buttons),
    MouseMotion,
}

/// The physical input that a call binds.
pub open spec fn bound_input<Axes, Buttons>(c: BindCall<Axes, Buttons>) -> InputType {
    match c {
        BindCall::KeyToAxis(k, _, _) => InputType::KeyEvent(k),
        BindCall::KeyToButton(k, _) => InputType::KeyEvent(k),
        BindCall::MouseToButton(m, _) => InputType::MouseButtonEvent(m),
        BindCall::MouseMotion => InputType::MouseMotionEvent,
    }
}

/// The effect that a call stores for its input.
pub open spec fn bound_effect<Axes, Buttons>(c: BindCall<Axes, Buttons>) -> InputEffect<
    Axes,
    Buttons,
> {
    match c {
        BindCall::KeyToAxis(_, a, positive) => InputEffect::Axis(a, positive),
        BindCall::KeyToButton(_, b) => InputEffect::Button(b, None),
        BindCall::MouseToButton(_, b) => InputEffect::Button(b, None),
        BindCall::MouseMotion => InputEffect::MouseMotion(0, 0, 0, 0),
    }
}

/// The table `m` after the calls, made in order: each `bind_*` method
/// ensures that it inserts its call's effect under its call's input.
pub open spec fn bind_all<Axes, Buttons>(
    m: Map<InputType, InputEffect<Axes, Buttons>>,
    calls: Seq<BindCall<Axes, Buttons>>,
) -> Map<InputType, InputEffect<Axes, Buttons>>
    decreases calls.len(),
{
    if calls.len() == 0 {
        m
    } else {
        bind_all(m, calls.drop_last()).insert(
            bound_input(calls.last()),
            bound_effect(calls.last()),
        )
    }
}

/// The effect of the last of the calls that binds `t`, if one does.
pub open spec fn last_binding<Axes, Buttons>(
    calls: Seq<BindCall<Axes, Buttons>>,
    t: InputType,
) -> Option<InputEffect<Axes, Buttons>>
    decreases calls.len(),
{
    if calls.len() == 0 {
        None
    } else if bound_input(calls.last()) == t {
        Some(bound_effect(calls.last()))
    } else {
        last_binding(calls.drop_last(), t)
    }
}

/// After any sequence of binding calls, a physical input is bound to the
/// effect of the last call that bound it; one that no call bound keeps what
/// the table held before, which for a new table is nothing.
pub proof fn lemma_last_binding_wins<Axes, Buttons>(
    m: Map<InputType, InputEffect<Axes, Buttons>>,
    calls: Seq<BindCall<Axes, Buttons>>,
    t: InputType,
)
    ensures
        map_get(bind_all(m, calls), t) == match last_binding(calls, t) {
            Some(e) => Some(e),
            None => map_get(m, t),
        },
        m == Map::<InputType, InputEffect<Axes, Buttons>>::empty() && last_binding(calls, t)
            is None ==> map_get(bind_all(m, calls), t) is None,
    decreases calls.len(),
{
    if calls.len() > 0 {
        lemma_last_binding_wins(m, calls.drop_last(), t);
    }
}

/// A mouse button bound to a logical button resolves to that button with the
/// pointer position of the event, whatever the position, negative included.
pub proof fn lemma_mouse_position_injected<Axes, Buttons>(
    m: Map<InputType, InputEffect<Axes, Buttons>>,
    mouse: MouseButton,
    button: Buttons,
)
    requires
        map_get(m, InputType::MouseButtonEvent(mouse)) == Some(
            InputEffect::<Axes, Buttons>::Button(button, None),
        ),
    ensures
        forall|x: i32, y: i32|
            #[trigger] mouse_resolution(map_get(m, InputType::MouseButtonEvent(mouse)), x, y)
                == Some(InputEffect::<Axes, Buttons>::Button(button, Some((x, y)))),
{
}

/// Driven to full positive deflection, an axis moves strictly up on every
/// tick until it is there, and never passes it. Left at rest, it moves
/// strictly back toward zero and never crosses it, from either side. In every
/// case it stays within one deflection.
pub proof fn lemma_axis_converges(s: AxisState, dt: nat)
    requires
        axis_valid(s),
        dt > 0,
    ensures
        axis_valid(axis_after(s, dt)),
        s.direction == AXIS_SCALE && s.acceleration > 0 && s.position < AXIS_SCALE ==> s.position
            < axis_after(s, dt).position <= AXIS_SCALE,
        s.direction == AXIS_SCALE ==> axis_after(s, dt).position <= AXIS_SCALE,
        s.direction == 0 && s.gravity > 0 && s.position > 0 ==> 0 <= axis_after(s, dt).position
            < s.position,
        s.direction == 0 && s.gravity > 0 && s.position < 0 ==> s.position < axis_after(
            s,
            dt,
        ).position <= 0,
        s.direction == 0 && s.position == 0 ==> axis_after(s, dt).position == 0,
{
    assert(s.acceleration > 0 ==> s.acceleration * dt > 0) by (nonlinear_arith)
        requires
            dt > 0,
    ;
    assert(s.gravity > 0 ==> s.gravity * dt > 0) by (nonlinear_arith)
        requires
            dt > 0,
    ;
    assert(s.acceleration * dt >= 0 && s.gravity * dt >= 0) by (nonlinear_arith)
        requires
            s.acceleration >= 0,
            s.gravity >= 0,
    ;
}

/// An axis after `n` ticks of `dt` milliseconds each.
pub open spec fn axis_after_ticks(s: AxisState, dt: nat, n: nat) -> AxisState
    decreases n,
{
    if n == 0 {
        s
    } else {
        axis_after(axis_after_ticks(s, dt, (n - 1) as nat), dt)
    }
}

/// Over repeated ticks, an axis keeps its direction and speeds and stays
/// within one deflection. Driven to full positive deflection, it rises
/// strictly on each tick until it is there and then stays there; left at
/// rest, it moves strictly toward zero on each tick, from either side,
/// without crossing it.
pub proof fn lemma_axis_converges_over_ticks(s: AxisState, dt: nat, n: nat)
    requires
        axis_valid(s),
        dt > 0,
    ensures
        ({
            let t = axis_after_ticks(s, dt, n);
            &&& axis_valid(t)
            &&& t.direction == s.direction
            &&& t.acceleration == s.acceleration
            &&& t.gravity == s.gravity
        }),
        n > 0 ==> ({
            let p = axis_after_ticks(s, dt, (n - 1) as nat).position;
            let q = axis_after_ticks(s, dt, n).position;
            &&& s.direction == AXIS_SCALE && s.acceleration > 0 && p < AXIS_SCALE ==> p < q
                <= AXIS_SCALE
            &&& s.direction == AXIS_SCALE && p == AXIS_SCALE ==> q == AXIS_SCALE
            &&& s.direction == 0 && s.gravity > 0 && p > 0 ==> 0 <= q < p
            &&& s.direction == 0 && s.gravity > 0 && p < 0 ==> p < q <= 0
            &&& s.direction == 0 && p == 0 ==> q == 0
        }),
    decreases n,
{
    if n > 0 {
        lemma_axis_converges_over_ticks(s, dt, (n - 1) as nat);
        lemma_axis_converges(axis_after_ticks(s, dt, (n - 1) as nat), dt);
    }
}

/// Where an axis is after `n` ticks of `dt` milliseconds: driven to full
/// positive deflection from `p`, at `min(AXIS_SCALE, p + n * acceleration * dt)`,
/// so it gets there once `n * acceleration * dt >= AXIS_SCALE - p` and stays;
/// left at rest, at `max(0, p - n * gravity * dt)` from above zero and at
/// `min(0, p + n * gravity * dt)` from below.
pub proof fn lemma_axis_position_after_ticks(s: AxisState, dt: nat, n: nat)
    requires
        axis_valid(s),
    ensures
        s.direction == AXIS_SCALE ==> axis_after_ticks(s, dt, n).position == min(
            AXIS_SCALE as int,
            s.position + n * (s.acceleration * dt),
        ),
        s.direction == 0 && s.position >= 0 ==> axis_after_ticks(s, dt, n).position == max(
            0,
            s.position - n * (s.gravity * dt),
        ),
        s.direction == 0 && s.position <= 0 ==> axis_after_ticks(s, dt, n).position == min(
            0,
            s.position + n * (s.gravity * dt),
        ),
    decreases n,
{
    if n > 0 {
        let m = (n - 1) as nat;
        lemma_axis_position_after_ticks(s, dt, m);
        lemma_axis_keeps_speeds(s, dt, m);
        let a = s.acceleration * dt;
        let g = s.gravity * dt;
        assert(a >= 0 && g >= 0) by (nonlinear_arith)
            requires
                a == s.acceleration * dt,
                g == s.gravity * dt,
                dt >= 0,
                s.acceleration >= 0,
                s.gravity >= 0,
        ;
        assert(n * a == m * a + a && n * g == m * g + g && m * a >= 0 && m * g >= 0)
            by (nonlinear_arith)
            requires
                n == m + 1,
                a >= 0,
                g >= 0,
        ;
    }
}

proof fn lemma_axis_keeps_speeds(s: AxisState, dt: nat, n: nat)
    requires
        axis_valid(s),
    ensures
        axis_valid(axis_after_ticks(s, dt, n)),
        axis_after_ticks(s, dt, n).direction == s.direction,
        axis_after_ticks(s, dt, n).acceleration == s.acceleration,
        axis_after_ticks(s, dt, n).gravity == s.gravity,
    decreases n,
{
    if n > 0 {
        lemma_axis_keeps_speeds(s, dt, (n - 1) as nat);
        let t = axis_after_ticks(s, dt, (n - 1) as nat);
        assert(t.acceleration * dt >= 0 && t.gravity * dt >= 0) by (nonlinear_arith)
            requires
                dt >= 0,
                t.acceleration >= 0,
                t.gravity >= 0,
        ;
    }
}

/// A button pressed after a tick keeps, until the next tick, the previous
/// state that the tick recorded; so if it was up then, it is "just pressed"
/// until the next tick. From that tick on, while it stays down, it is held
/// and no longer just pressed.
pub proof fn lemma_button_edge<Buttons>(m: Map<Buttons, ButtonState>, b: Buttons, n: nat)
    requires
        n >= 1,
    ensures
        ({
            let pressed = set_button_pressed(m, b, true);
            &&& button_or_rest(pressed, b).pressed
            &&& button_or_rest(pressed, b).pressed_last_frame == button_or_rest(
                m,
                b,
            ).pressed_last_frame
            &&& !button_or_rest(m, b).pressed_last_frame ==> just_pressed(
                button_or_rest(pressed, b),
            )
            &&& button_or_rest(buttons_after_ticks(pressed, n), b).pressed
            &&& !just_pressed(button_or_rest(buttons_after_ticks(pressed, n), b))
        }),
    decreases n,
{
    let pressed = set_button_pressed(m, b, true);
    if n > 1 {
        lemma_button_edge(m, b, (n - 1) as nat);
    }
    let before = buttons_after_ticks(pressed, (n - 1) as nat);
    if n == 1 {
        assert(before == pressed);
    }
    assert(before.contains_key(b)) by {
        lemma_ticks_keep_keys(pressed, (n - 1) as nat, b);
    }
    assert(buttons_after(before)[b] == crate::input::events::button_after(before[b]));
}

proof fn lemma_ticks_keep_keys<Buttons>(m: Map<Buttons, ButtonState>, n: nat, b: Buttons)
    ensures
        buttons_after_ticks(m, n).contains_key(b) == m.contains_key(b),
    decreases n,
{
    if n > 0 {
        lemma_ticks_keep_keys(m, (n - 1) as nat, b);
    }
}

} // verus!
