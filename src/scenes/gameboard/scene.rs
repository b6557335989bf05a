//! The scene in which the player fills the board.
use vstd::prelude::*;

use super::models::gameboard::cell_index;
use super::models::gameboard::moved_selection;
use super::models::gameboard::on_board;
use super::models::gameboard::Gameboard;
use super::models::gameboard::Point;
use super::models::gameboard::SIDE;
use crate::input::button_digit;
use crate::input::Button;
use crate::input::InputEvent;
use crate::input::events::InputEffect;
use crate::scenes::stack::Scene;
use crate::scenes::stack::SceneSwitch;

verus! {

/// Where the board is drawn, in pixels: its top left corner and its side.
#[derive(Debug, Copy, Clone, PartialEq, Eq, Structural)]
pub struct BoardArea {
    pub x: i32,
    pub y: i32,
    pub size: i32,
}

/// The cell under the pointer at `(x, y)`, if the pointer is on the board.
pub open spec fn cell_at(area: BoardArea, x: i32, y: i32) -> Option<Point> {
    let dx = x - area.x;
    let dy = y - area.y;
    if 0 <= dx < area.size && 0 <= dy < area.size {
        Some(Point((dx * SIDE / area.size as int) as u8, (dy * SIDE / area.size as int) as u8))
    } else {
        None
    }
}

/// Two boards agree on everything but the selection.
pub open spec fn same_cells(a: Gameboard, b: Gameboard) -> bool {
    &&& b.spec_problem() == a.spec_problem()
    &&& b.spec_current() == a.spec_current()
    &&& b.spec_solution() == a.spec_solution()
    &&& b.spec_moves() == a.spec_moves()
}

/// `b` is `a` with `value` written at `p` and the move counted.
pub open spec fn written(a: Gameboard, b: Gameboard, p: Point, value: Option<u8>) -> bool {
    &&& b.spec_problem() == a.spec_problem()
    &&& b.spec_current() == a.spec_current().update(cell_index(p), value)
    &&& b.spec_solution() == a.spec_solution()
    &&& b.spec_moves() == a.spec_moves() + 1
    &&& b.spec_selected() == a.spec_selected()
}

/// The player may change the cell at `p`: the puzzle leaves it empty (and
/// the move counter has room).
pub open spec fn editable(g: Gameboard, p: Point) -> bool {
    &&& g.spec_problem()[cell_index(p)] is None
    &&& g.spec_moves() < usize::MAX
}

/// What a button with no pointer position writes in the selected cell:
/// its digit, or nothing for `Delete`; `None` for a button that writes nothing.
pub open spec fn button_entry(b: Button) -> Option<Option<u8>> {
    if b == Button::Delete {
        Some(None)
    } else {
        match button_digit(b) {
            Some(d) => Some(Some(d)),
            None => None,
        }
    }
}

/// How the board changes when the scene receives `event`, `started`
/// telling a press from a release.
pub open spec fn board_after_input(
    a: Gameboard,
    b: Gameboard,
    area: BoardArea,
    event: InputEvent,
    started: bool,
) -> bool {
    match event {
        InputEffect::Axis(axis, positive) => if !started {
            same_cells(a, b) && b.spec_selected() == Some(
                moved_selection(a.spec_selected(), axis, positive),
            )
        } else {
            b == a
        },
        InputEffect::Button(button, None) => match (a.spec_selected(), button_entry(button)) {
            (Some(p), Some(value)) => if editable(a, p) {
                written(a, b, p, value)
            } else {
                b == a
            },
            _ => b == a,
        },
        InputEffect::Button(button, Some((x, y))) => if button == Button::Select {
            same_cells(a, b) && b.spec_selected() == cell_at(area, x, y)
        } else {
            b == a
        },
        InputEffect::MouseMotion(..) => b == a,
    }
}

/// The board scene: the board in play, where it is drawn, and whatever the
/// application draws it with.
pub struct GameboardScene<V> {
    pub gameboard: Gameboard,
    pub board_area: BoardArea,
    pub views: V,
}

impl<V> GameboardScene<V> {
    pub fn new(gameboard: Gameboard, board_area: BoardArea, views: V) -> (r: Self)
        ensures
            r.gameboard == gameboard,
            r.board_area == board_area,
            r.views == views,
    {
        GameboardScene { gameboard, board_area, views }
    }

    /// Writes `num` at `point` if the player may change that cell.
    fn assign_number(&mut self, point: Point, num: u8)
        requires
            on_board(point),
        ensures
            final(self).board_area == old(self).board_area,
            final(self).views == old(self).views,
            if editable(old(self).gameboard, point) {
                written(old(self).gameboard, final(self).gameboard, point, Some(num))
            } else {
                final(self).gameboard == old(self).gameboard
            },
    {
        if self.gameboard.is_mutable(point) && self.gameboard.moves() < usize::MAX {
            self.gameboard.insert(point, num)
        }
    }

    /// Selects the cell under the pointer, or nothing when the pointer is off
    /// the board.
    fn handle_mouse(&mut self, x: i32, y: i32)
        ensures
            final(self).board_area == old(self).board_area,
            final(self).views == old(self).views,
            same_cells(old(self).gameboard, final(self).gameboard),
            final(self).gameboard.spec_selected() == cell_at(old(self).board_area, x, y),
    {
        let area = self.board_area;
        let dx = x as i64 - area.x as i64;
        let dy = y as i64 - area.y as i64;
        let size = area.size as i64;
        let cell = if 0 <= dx && dx < size && 0 <= dy && dy < size {
            proof {
                assert(0 <= (dx as int) * 9 / (size as int) < 9) by (nonlinear_arith)
                    requires
                        0 <= dx < size,
                ;
                assert(0 <= (dy as int) * 9 / (size as int) < 9) by (nonlinear_arith)
                    requires
                        0 <= dy < size,
                ;
            }
            Some(Point((dx * 9 / size) as u8, (dy * 9 / size) as u8))
        } else {
            None
        };
        self.gameboard.set_selected_cell(cell);
    }
}

impl<W, V> Scene<W, InputEvent> for GameboardScene<V> {
    /// An update changes nothing, and leaves the scene once the board is solved.
    open spec fn updated(before: Self, after: Self, next: SceneSwitch<Self>) -> bool {
        &&& before.gameboard.has_all_cells()
        &&& after == before
        &&& next == (if before.gameboard.spec_current() == before.gameboard.spec_solution() {
            SceneSwitch::<Self>::Pop
        } else {
            SceneSwitch::<Self>::NoChange
        })
    }

    /// Input changes the board as `board_after_input` says, and nothing else.
    open spec fn handled(before: Self, after: Self, event: InputEvent, started: bool) -> bool {
        &&& before.gameboard.has_all_cells()
        &&& after.gameboard.has_all_cells()
        &&& after.board_area == before.board_area
        &&& after.views == before.views
        &&& board_after_input(
            before.gameboard,
            after.gameboard,
            before.board_area,
            event,
            started,
        )
    }

    /// Leaves the scene once the board is solved.
    fn update(&mut self, world: &mut W) -> (r: SceneSwitch<Self>)
    {
        if self.gameboard.is_solved() {
            SceneSwitch::Pop
        } else {
            SceneSwitch::NoChange
        }
    }

    /// Arrows move the selection when released; digits and `Delete` change
    /// the selected cell if the puzzle leaves it open; a click selects the
    /// cell under the pointer.
    fn input(&mut self, world: &mut W, event: InputEvent, started: bool)
    {
        let selected = self.gameboard.selected_cell();
        match event {
            InputEffect::Axis(axis, is_positive) => {
                if !started {
                    self.gameboard.move_selected_cell(axis, is_positive)
                }
            },
            InputEffect::Button(button, None) => {
                if let Some(point) = selected {
                    match button {
                        Button::Delete => {
                            if self.gameboard.is_mutable(point) && self.gameboard.moves()
                                < usize::MAX {
                                let _ = self.gameboard.remove(point);
                            }
                        },
                        Button::Num1 => self.assign_number(point, 1),
                        Button::Num2 => self.assign_number(point, 2),
                        Button::Num3 => self.assign_number(point, 3),
                        Button::Num4 => self.assign_number(point, 4),
                        Button::Num5 => self.assign_number(point, 5),
                        Button::Num6 => self.assign_number(point, 6),
                        Button::Num7 => self.assign_number(point, 7),
                        Button::Num8 => self.assign_number(point, 8),
                        Button::Num9 => self.assign_number(point, 9),
                        _ => {},
                    }
                }
            },
            InputEffect::Button(Button::Select, Some((x, y))) => self.handle_mouse(x, y),
            _ => {},
        }
    }

    fn name(&self) -> &str {
        "Game Board"
    }
}

} // verus!
