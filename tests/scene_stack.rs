use sudoku_rpg::scenes::stack::Scene;
use sudoku_rpg::scenes::stack::SceneStack;
use sudoku_rpg::scenes::stack::SceneSwitch;

/// A scene that records what reached it in the world, and follows a script
/// of switches on its updates.
struct Scripted {
    name: &'static str,
    script: Vec<SceneSwitch<Scripted>>,
}

impl Scripted {
    fn new(name: &'static str, script: Vec<SceneSwitch<Scripted>>) -> Scripted {
        Scripted { name, script }
    }
}

impl Scene<Vec<String>, u32> for Scripted {
    fn update(&mut self, world: &mut Vec<String>) -> SceneSwitch<Scripted> {
        world.push(format!("update {}", self.name));
        if self.script.is_empty() {
            SceneSwitch::NoChange
        } else {
            self.script.remove(0)
        }
    }

    fn input(&mut self, world: &mut Vec<String>, event: u32, started: bool) {
        world.push(format!("input {} {} {}", self.name, event, started));
    }

    fn name(&self) -> &str {
        self.name
    }
}

#[test]
fn push_then_pop_returns_to_the_scene_beneath() {
    let mut stack: SceneStack<Vec<String>, Scripted> = SceneStack::new(Vec::new());
    let b = Scripted::new("B", vec![SceneSwitch::NoChange, SceneSwitch::Pop]);
    stack.push(Scripted::new("A", vec![SceneSwitch::Push(b)]));

    stack.update::<u32>();
    assert_eq!(stack.scenes.len(), 2);
    assert_eq!(stack.current().name(), "B");

    stack.input(7u32, true);
    stack.update::<u32>();
    assert_eq!(stack.current().name(), "B");
    stack.update::<u32>();
    assert_eq!(stack.scenes.len(), 1);
    assert_eq!(stack.current().name(), "A");

    stack.update::<u32>();
    assert_eq!(
        stack.world,
        vec![
            "update A".to_string(),
            "input B 7 true".to_string(),
            "update B".to_string(),
            "update B".to_string(),
            "update A".to_string(),
        ]
    );
}

#[test]
fn replace_swaps_the_top_scene() {
    let mut stack: SceneStack<Vec<String>, Scripted> = SceneStack::new(Vec::new());
    stack.push(Scripted::new("A", vec![]));
    let c = Scripted::new("C", vec![]);
    stack.push(Scripted::new("B", vec![SceneSwitch::Replace(c)]));
    stack.update::<u32>();
    assert_eq!(stack.scenes.len(), 2);
    assert_eq!(stack.current().name(), "C");
    assert_eq!(stack.scenes[0].name(), "A");
    stack.input(1u32, false);
    assert_eq!(stack.world, vec!["update B".to_string(), "input C 1 false".to_string()]);
}

#[test]
fn popping_the_last_scene_empties_the_stack() {
    let mut stack: SceneStack<Vec<String>, Scripted> = SceneStack::new(Vec::new());
    assert!(stack.is_empty());
    stack.push(Scripted::new("A", vec![SceneSwitch::Pop]));
    assert!(!stack.is_empty());
    stack.update::<u32>();
    assert!(stack.is_empty());
}

#[test]
fn switch_hands_back_the_removed_scene() {
    let mut stack: SceneStack<Vec<String>, Scripted> = SceneStack::new(Vec::new());
    assert!(stack.switch(SceneSwitch::Push(Scripted::new("A", vec![]))).is_none());
    assert!(stack.switch(SceneSwitch::NoChange).is_none());
    let old = stack.switch(SceneSwitch::Replace(Scripted::new("B", vec![])));
    assert_eq!(old.map(|s| s.name), Some("A"));
    let popped = stack.switch(SceneSwitch::Pop);
    assert_eq!(popped.map(|s| s.name), Some("B"));
    assert!(stack.is_empty());
}

#[test]
fn pop_returns_the_top_scene() {
    let mut stack: SceneStack<Vec<String>, Scripted> = SceneStack::new(Vec::new());
    stack.push(Scripted::new("A", vec![]));
    stack.push(Scripted::new("B", vec![]));
    assert_eq!(stack.pop().name, "B");
    assert_eq!(stack.current().name(), "A");
}
