//! A stack of scenes of which only the top one is active.
use vstd::prelude::*;

verus! {

/// How a scene asks the stack to change after an update.
pub enum SceneSwitch<S> {
    /// Stay as it is.
    NoChange,
    /// Put a new scene on top; the current one waits beneath it.
    Push(S),
    /// Take the current scene off and put a new one in its place.
    Replace(S),
    /// Take the current scene off.
    Pop,
}

/// One state of the application, driven by the stack while it is on top.
pub trait Scene<W, E>: Sized {
    /// What one update may do: turn the scene `before` into `after` and
    /// ask for the switch `next`. A scene that says nothing allows anything.
    open spec fn updated(before: Self, after: Self, next: SceneSwitch<Self>) -> bool {
        true
    }

    /// What handling one input effect may do to the scene. A scene that says
    /// nothing allows anything.
    open spec fn handled(before: Self, after: Self, event: E, started: bool) -> bool {
        true
    }

    /// Advances the scene by one tick.
    fn update(&mut self, world: &mut W) -> (r: SceneSwitch<Self>)
        ensures
            Self::updated(*old(self), *final(self), r),
    ;

    /// Handles one input effect, `started` telling a press from a release.
    fn input(&mut self, world: &mut W, event: E, started: bool)
        ensures
            Self::handled(*old(self), *final(self), event, started),
    ;

    /// A name for diagnostics.
    fn name(&self) -> &str;
}

/// The scenes after a switch.
pub open spec fn switched<S>(scenes: Seq<S>, next: SceneSwitch<S>) -> Seq<S> {
    match next {
        SceneSwitch::NoChange => scenes,
        SceneSwitch::Push(s) => scenes.push(s),
        SceneSwitch::Replace(s) => scenes.drop_last().push(s),
        SceneSwitch::Pop => scenes.drop_last(),
    }
}

/// A scene pushed on top that then pops itself leaves the stack as it was,
/// with the scene beneath on top again; a replacement changes only the top.
pub proof fn lemma_push_then_pop<S>(scenes: Seq<S>, pushed: S, replacement: S)
    ensures
        switched(switched(scenes, SceneSwitch::Push(pushed)), SceneSwitch::Pop) == scenes,
        switched(scenes, SceneSwitch::Push(pushed)).last() == pushed,
        scenes.len() > 0 ==> switched(scenes, SceneSwitch::Replace(replacement)).drop_last()
            == scenes.drop_last(),
        scenes.len() > 0 ==> switched(scenes, SceneSwitch::Replace(replacement)).len()
            == scenes.len(),
{
    assert(scenes.push(pushed).drop_last() =~= scenes);
    assert(scenes.drop_last().push(replacement).drop_last() =~= scenes.drop_last());
}

/// Whether a switch takes the current scene off.
pub open spec fn removes_top<S>(next: SceneSwitch<S>) -> bool {
    next is Replace || next is Pop
}

/// The scenes, bottom first, and the world that every scene works on.
pub struct SceneStack<W, S> {
    pub world: W,
    pub scenes: Vec<S>,
}

impl<W, S> View for SceneStack<W, S> {
    type V = Seq<S>;

    open spec fn view(&self) -> Seq<S> {
        self.scenes@
    }
}

impl<W, S> SceneStack<W, S> {
    pub fn new(world: W) -> (r: Self)
        ensures
            r@ == Seq::<S>::empty(),
            r.world == world,
    {
        SceneStack { world, scenes: Vec::new() }
    }

    /// Puts a scene on top.
    pub fn push(&mut self, scene: S)
        ensures
            final(self)@ == old(self)@.push(scene),
            final(self).world == old(self).world,
    {
        self.scenes.push(scene);
    }

    /// Takes the top scene off.
    pub fn pop(&mut self) -> (r: S)
        requires
            old(self)@.len() > 0,
        ensures
            r == old(self)@.last(),
            final(self)@ == old(self)@.drop_last(),
            final(self).world == old(self).world,
    {
        self.scenes.pop().unwrap()
    }

    /// The active scene.
    pub fn current(&self) -> (r: &S)
        requires
            self@.len() > 0,
        ensures
            *r == self@.last(),
    {
        &self.scenes[self.scenes.len() - 1]
    }

    /// Whether no scene is left.
    pub fn is_empty(&self) -> (r: bool)
        ensures
            r == (self@.len() == 0),
    {
        self.scenes.len() == 0
    }

    /// Carries out a switch, handing back the scene that it took off.
    pub fn switch(&mut self, next: SceneSwitch<S>) -> (r: Option<S>)
        requires
            removes_top(next) ==> old(self)@.len() > 0,
        ensures
            final(self)@ == switched(old(self)@, next),
            final(self).world == old(self).world,
            r == (if removes_top(next) {
                Some(old(self)@.last())
            } else {
                None
            }),
    {
        match next {
            SceneSwitch::NoChange => None,
            SceneSwitch::Push(s) => {
                self.scenes.push(s);
                None
            },
            SceneSwitch::Replace(s) => {
                let old_top = self.scenes.pop().unwrap();
                self.scenes.push(s);
                Some(old_top)
            },
            SceneSwitch::Pop => Some(self.scenes.pop().unwrap()),
        }
    }

    /// Updates the active scene, and only it, then carries out the switch
    /// that it asked for.
    pub fn update<E>(&mut self) where S: Scene<W, E>
        requires
            old(self)@.len() > 0,
        ensures
            exists|top: S, next: SceneSwitch<S>|
                #[trigger] S::updated(old(self)@.last(), top, next) && switched(
                    old(self)@.drop_last().push(top),
                    next,
                ) == final(self)@,
    {
        let mut top = self.scenes.pop().unwrap();
        let next = top.update(&mut self.world);
        let ghost updated = top;
        self.scenes.push(top);
        let ghost before = self.scenes@;
        let _ = self.switch(next);
        assert(S::updated(old(self)@.last(), updated, next) && switched(
            old(self)@.drop_last().push(updated),
            next,
        ) == self@) by {
            assert(before == old(self)@.drop_last().push(updated));
        }
    }

    /// Hands an input effect to the active scene, and only to it.
    pub fn input<E>(&mut self, event: E, started: bool) where S: Scene<W, E>
        requires
            old(self)@.len() > 0,
        ensures
            final(self)@.len() == old(self)@.len(),
            final(self)@.drop_last() == old(self)@.drop_last(),
            S::handled(old(self)@.last(), final(self)@.last(), event, started),
    {
        let mut top = self.scenes.pop().unwrap();
        top.input(&mut self.world, event, started);
        self.scenes.push(top);
        assert(self@.drop_last() =~= old(self)@.drop_last());
    }
}

} // verus!
