use sudoku_rpg::input::events::InputEffect;
use sudoku_rpg::input::Axis;
use sudoku_rpg::input::Button;
use sudoku_rpg::resources::FSFontKey;
use sudoku_rpg::scenes::gameboard::models::ability::ability_asset_path;
use sudoku_rpg::scenes::gameboard::models::ability::AbilityStatus;
use sudoku_rpg::scenes::gameboard::models::gameboard::Gameboard;
use sudoku_rpg::scenes::gameboard::models::gameboard::Point;
use sudoku_rpg::scenes::gameboard::scene::BoardArea;
use sudoku_rpg::scenes::gameboard::scene::GameboardScene;
use sudoku_rpg::scenes::stack::Scene;
use sudoku_rpg::scenes::stack::SceneSwitch;

fn idx(x: usize, y: usize) -> usize {
    y * 9 + x
}

/// A board whose solution holds 5 at (2, 3), with (2, 3) open and (0, 0)
/// given.
fn board() -> Gameboard {
    let mut problem = vec![None; 81];
    let mut solution = vec![Some(1u8); 81];
    solution[idx(2, 3)] = Some(5);
    problem[idx(0, 0)] = Some(1);
    Gameboard::new(problem, solution).unwrap()
}

fn scene(board: Gameboard) -> GameboardScene<()> {
    GameboardScene::new(board, BoardArea { x: 55, y: 100, size: 400 }, ())
}

#[test]
fn boards_need_one_value_per_cell() {
    assert!(Gameboard::new(vec![None; 80], vec![None; 81]).is_none());
    assert!(Gameboard::new(vec![None; 81], vec![None; 82]).is_none());
    let b = Gameboard::new(vec![None; 81], vec![Some(2); 81]).unwrap();
    assert_eq!(b.moves(), 0);
    assert_eq!(b.selected_cell(), None);
    assert_eq!(b.value_at(Point(4, 4)), None);
    assert_eq!(b.solution_at(Point(4, 4)), Some(2));
}

#[test]
fn digit_goes_into_an_open_selected_cell() {
    let mut s = scene(board());
    s.gameboard.set_selected_cell(Some(Point(2, 3)));
    s.input(&mut (), InputEffect::Button(Button::Num5, None), true);
    assert_eq!(s.gameboard.value_at(Point(2, 3)), Some(5));
    assert_eq!(s.gameboard.moves(), 1);
    assert!(s.gameboard.insertion_is_correct(Point(2, 3), 5));
}

#[test]
fn digit_leaves_a_given_cell_alone() {
    let mut s = scene(board());
    s.gameboard.set_selected_cell(Some(Point(0, 0)));
    s.input(&mut (), InputEffect::Button(Button::Num5, None), true);
    assert_eq!(s.gameboard.value_at(Point(0, 0)), Some(1));
    assert_eq!(s.gameboard.moves(), 0);
}

#[test]
fn digit_without_selection_does_nothing() {
    let mut s = scene(board());
    s.input(&mut (), InputEffect::Button(Button::Num3, None), true);
    assert_eq!(s.gameboard.moves(), 0);
    assert_eq!(s.gameboard.value_at(Point(4, 4)), None);
}

#[test]
fn delete_empties_an_open_cell() {
    let mut s = scene(board());
    s.gameboard.set_selected_cell(Some(Point(2, 3)));
    s.input(&mut (), InputEffect::Button(Button::Num7, None), false);
    assert_eq!(s.gameboard.value_at(Point(2, 3)), Some(7));
    assert!(!s.gameboard.insertion_is_correct(Point(2, 3), 7));
    s.input(&mut (), InputEffect::Button(Button::Delete, None), true);
    assert_eq!(s.gameboard.value_at(Point(2, 3)), None);
    assert_eq!(s.gameboard.moves(), 2);
}

#[test]
fn remove_hands_back_the_old_value() {
    let mut b = board();
    b.insert(Point(3, 3), 4);
    assert_eq!(b.remove(Point(3, 3)), Some(4));
    assert_eq!(b.remove(Point(3, 3)), None);
    assert_eq!(b.moves(), 3);
    assert!(b.is_mutable(Point(3, 3)));
    assert!(!b.is_mutable(Point(0, 0)));
}

#[test]
fn arrows_move_the_selection_on_release() {
    let mut s = scene(board());
    s.input(&mut (), InputEffect::Axis(Axis::Horz, true), true);
    assert_eq!(s.gameboard.selected_cell(), None);
    s.input(&mut (), InputEffect::Axis(Axis::Horz, true), false);
    assert_eq!(s.gameboard.selected_cell(), Some(Point(4, 4)));
    s.input(&mut (), InputEffect::Axis(Axis::Horz, true), false);
    assert_eq!(s.gameboard.selected_cell(), Some(Point(5, 4)));
    s.input(&mut (), InputEffect::Axis(Axis::Vert, true), false);
    assert_eq!(s.gameboard.selected_cell(), Some(Point(5, 3)));
    s.input(&mut (), InputEffect::Axis(Axis::Vert, false), false);
    assert_eq!(s.gameboard.selected_cell(), Some(Point(5, 4)));
    s.input(&mut (), InputEffect::Axis(Axis::Horz, false), false);
    assert_eq!(s.gameboard.selected_cell(), Some(Point(4, 4)));
}

#[test]
fn selection_wraps_at_the_edges() {
    let mut b = board();
    b.set_selected_cell(Some(Point(8, 0)));
    b.move_selected_cell(Axis::Horz, true);
    assert_eq!(b.selected_cell(), Some(Point(0, 0)));
    b.move_selected_cell(Axis::Horz, false);
    assert_eq!(b.selected_cell(), Some(Point(8, 0)));
    b.move_selected_cell(Axis::Vert, true);
    assert_eq!(b.selected_cell(), Some(Point(8, 8)));
    b.move_selected_cell(Axis::Vert, false);
    assert_eq!(b.selected_cell(), Some(Point(8, 0)));
}

#[test]
fn click_selects_the_cell_under_the_pointer() {
    let mut s = scene(board());
    s.input(&mut (), InputEffect::Button(Button::Select, Some((55, 100))), true);
    assert_eq!(s.gameboard.selected_cell(), Some(Point(0, 0)));
    s.input(&mut (), InputEffect::Button(Button::Select, Some((55 + 399, 100 + 200))), true);
    assert_eq!(s.gameboard.selected_cell(), Some(Point(8, 4)));
    s.input(&mut (), InputEffect::Button(Button::Select, Some((55 + 45, 100 + 44))), true);
    assert_eq!(s.gameboard.selected_cell(), Some(Point(1, 0)));
    s.input(&mut (), InputEffect::Button(Button::Select, Some((54, 150))), true);
    assert_eq!(s.gameboard.selected_cell(), None);
    s.input(&mut (), InputEffect::Button(Button::Select, Some((-5, -5))), true);
    assert_eq!(s.gameboard.selected_cell(), None);
    assert_eq!(s.gameboard.moves(), 0);
}

#[test]
fn solved_board_leaves_the_scene() {
    let mut problem = vec![Some(3u8); 81];
    problem[idx(1, 1)] = None;
    let solution = vec![Some(3u8); 81];
    let mut s = scene(Gameboard::new(problem, solution).unwrap());
    assert!(matches!(s.update(&mut ()), SceneSwitch::NoChange));
    assert!(!s.gameboard.is_solved());
    s.gameboard.set_selected_cell(Some(Point(1, 1)));
    s.input(&mut (), InputEffect::Button(Button::Num3, None), true);
    assert!(s.gameboard.is_solved());
    assert!(matches!(s.update(&mut ()), SceneSwitch::Pop));
    assert_eq!(Scene::<(), _>::name(&s), "Game Board");
}

#[test]
fn board_geometry() {
    let b = board();
    assert_eq!(b.size(), [9, 9]);
    let points = b.points();
    assert_eq!(points.len(), 81);
    assert_eq!(points[0], Point(0, 0));
    assert_eq!(points[10], Point(1, 1));
    assert_eq!(points[80], Point(8, 8));
}

#[test]
fn badge_paths() {
    assert_eq!(
        ability_asset_path("Reveal Numbers", &AbilityStatus::InStock),
        "/images/badges/Reveal Numbers_InStock.png"
    );
    assert_eq!(ability_asset_path("x", &AbilityStatus::Active), "/images/badges/x_Activated.png");
    assert_eq!(ability_asset_path("", &AbilityStatus::Inactive), "/images/badges/_Inactive.png");
}

#[test]
fn font_keys() {
    let k = FSFontKey::new("/fonts/Multicolore.ttf", 44);
    assert_eq!(k.as_path(), "/fonts/Multicolore.ttf");
    assert_eq!(k.points(), 44);
    assert_eq!(k, FSFontKey::new("/fonts/Multicolore.ttf", 44));
}

#[test]
fn solution_must_fit_the_puzzle() {
    let mut problem = vec![None; 81];
    problem[idx(4, 4)] = Some(7);
    let mut disagreeing = vec![Some(1u8); 81];
    disagreeing[idx(4, 4)] = Some(6);
    assert!(Gameboard::new(problem.clone(), disagreeing).is_none());
    let mut unfilled = vec![Some(7u8); 81];
    unfilled[idx(8, 8)] = None;
    assert!(Gameboard::new(problem.clone(), unfilled).is_none());
    let mut zero = vec![Some(7u8); 81];
    zero[idx(1, 2)] = Some(0);
    assert!(Gameboard::new(problem.clone(), zero).is_none());
    let mut ten = vec![Some(7u8); 81];
    ten[idx(2, 1)] = Some(10);
    assert!(Gameboard::new(problem.clone(), ten).is_none());
    assert!(Gameboard::new(problem, vec![Some(7u8); 81]).is_some());
}

const PUZZLE: &str = "\
___|2__|_63
3__|__5|4_1
__1|__3|98_
___|___|_9_
___|538|___
_3_|___|___
_26|3__|5__
5_3|7__|__8
47_|__1|___";

#[test]
fn puzzle_text_gives_a_solved_board() {
    let b = Gameboard::from_puzzle(PUZZLE).unwrap();
    assert_eq!(b.value_at(Point(3, 0)), Some(2));
    assert_eq!(b.value_at(Point(7, 0)), Some(6));
    assert_eq!(b.value_at(Point(0, 1)), Some(3));
    assert_eq!(b.value_at(Point(0, 0)), None);
    assert!(b.is_mutable(Point(0, 0)));
    assert!(!b.is_mutable(Point(3, 0)));
    assert_eq!(b.solution_at(Point(3, 0)), Some(2));
    for p in b.points() {
        let d = b.solution_at(p).unwrap();
        assert!((1..=9).contains(&d));
        if let Some(given) = b.value_at(p) {
            assert_eq!(given, d);
        }
    }
    for row in 0..9u8 {
        let mut seen = [false; 10];
        for col in 0..9u8 {
            let d = b.solution_at(Point(col, row)).unwrap() as usize;
            assert!(!seen[d]);
            seen[d] = true;
        }
    }
    assert!(!b.is_solved());
    assert_eq!(b.moves(), 0);
}

#[test]
fn malformed_puzzle_text_gives_no_board() {
    assert!(Gameboard::from_puzzle("123").is_none());
    assert!(Gameboard::from_puzzle(&PUZZLE.replace('_', "x")).is_none());
}

#[test]
fn font_keys_differ_by_path_or_size() {
    let k = FSFontKey::new("/fonts/a.ttf", 12);
    assert!(k != FSFontKey::new("/fonts/a.ttf", 13));
    assert!(k != FSFontKey::new("/fonts/b.ttf", 12));
    assert!(k == k.clone());
}
