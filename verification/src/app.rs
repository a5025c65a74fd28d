use vstd::prelude::*;

use crate::event::{is_quit, is_quit_event, Event, RenderEvent, UpdateEvent};
use crate::scene::{Action, Scene};

verus! {

/// Why the driver stopped, reported to the caller so that terminal
/// teardown can still run.
#[derive(Clone, Copy, PartialEq, Eq, Structural, Debug)]
pub enum EngineError {
    /// The input subsystem reported a failed read (`Event::Error`).
    InputFailure,
}

/// What the caller must do after one consumed event.
#[derive(Clone, Copy, PartialEq, Eq, Structural, Debug)]
pub enum Directive {
    /// Redraw the active scene, then pull the next event.
    Redraw,
    /// Nothing to present; pull the next event.
    Proceed,
}

/// The stack after one action: `Continue` keeps it, `End` pops the top
/// (an empty stack stays empty), `NewScene` pushes.
pub open spec fn apply_action<S>(stack: Seq<S>, a: Action<S>) -> Seq<S> {
    match a {
        Action::Continue => stack,
        Action::End => if stack.len() == 0 {
            stack
        } else {
            stack.drop_last()
        },
        Action::NewScene(s) => stack.push(s),
    }
}

/// Law: one action moves the stack size exactly by its own kind's amount:
/// `Continue` keeps it, `End` lowers it by one with a floor at zero, and
/// `NewScene` raises it by one.
pub proof fn lemma_action_stack_size<S>(stack: Seq<S>, a: Action<S>)
    ensures
        a is Continue ==> apply_action(stack, a).len() == stack.len(),
        a is End && stack.len() == 0 ==> apply_action(stack, a).len() == 0,
        a is End && stack.len() > 0 ==> apply_action(stack, a).len() == stack.len() - 1,
        a is NewScene ==> apply_action(stack, a).len() == stack.len() + 1,
{
}

/// Law: a `NewScene` followed by `End` restores the stack exactly; the
/// scene that was active before the push is active again, its state as it
/// was the moment the push was requested.
pub proof fn lemma_push_then_end<S>(stack: Seq<S>, pushed: S)
    ensures
        apply_action(apply_action(stack, Action::NewScene(pushed)), Action::End) == stack,
{
    assert(apply_action(apply_action(stack, Action::NewScene(pushed)), Action::End) =~= stack);
}

/// Law: ending the only remaining scene leaves the stack empty.
pub proof fn lemma_end_only_scene<S>(stack: Seq<S>)
    requires
        stack.len() == 1,
    ensures
        apply_action(stack, Action::End).len() == 0,
{
}

/// The driver: it owns the scene stack (top is active) and the global
/// state, counts the events it consumes, and stays in its loop until the
/// liveness flag falls. An emptied stack does not terminate the driver:
/// it idles, counting events over a blank screen, until the quit
/// combination or an input failure ends it.
pub struct App<T, S> {
    /// The liveness flag: while it holds, the loop keeps consuming events.
    pub active: bool,
    /// The caller-supplied global state shared by all scenes.
    pub global: T,
    /// The tick interval, in milliseconds.
    pub tick_rate: u64,
    /// The render interval, in milliseconds.
    pub render_rate: u64,
    /// How many update-class events were consumed.
    pub tick_count: u64,
    /// How many render-class events were consumed.
    pub render_count: u64,
    /// The scene stack; the last element is the active scene.
    pub scenes: Vec<S>,
}

impl<T, S: Scene<T>> App<T, S> {
    /// Every scene in `stack` is well formed.
    pub open spec fn stack_ok(stack: Seq<S>) -> bool {
        forall|i: int| 0 <= i < stack.len() ==> (#[trigger] stack[i]).inv()
    }

    /// Every scene on the driver's stack is well formed.
    pub open spec fn wf(self) -> bool {
        Self::stack_ok(self.scenes@)
    }

    /// Law: the empty stack is well formed, so after the last scene is
    /// popped the driver's steps stay available and keep the stack empty.
    pub proof fn lemma_empty_stack_ok()
        ensures
            Self::stack_ok(Seq::<S>::empty()),
    {
    }

    /// Relation between driver states across one render-class event: the
    /// render counter advances by one and nothing else moves. Render-class
    /// events never produce stack transitions.
    pub open spec fn render_step(pre: Self, post: Self) -> bool {
        &&& post.render_count == pre.render_count + 1
        &&& post.tick_count == pre.tick_count
        &&& post.active == pre.active
        &&& post.scenes@ == pre.scenes@
        &&& post.global == pre.global
        &&& post.tick_rate == pre.tick_rate
        &&& post.render_rate == pre.render_rate
    }

    /// Relation across one update-class event: the tick counter advances by
    /// one; the quit combination clears the liveness flag, and nothing else
    /// touches that flag; with an empty stack the stack and the global
    /// state are untouched; otherwise the active scene takes exactly the
    /// update step its model `step` states, its action is applied to the
    /// stack, and every scene below the top stays as it was.
    pub open spec fn update_step(pre: Self, post: Self, event: UpdateEvent) -> bool {
        &&& post.tick_count == pre.tick_count + 1
        &&& post.render_count == pre.render_count
        &&& post.active == (pre.active && !is_quit(event))
        &&& post.tick_rate == pre.tick_rate
        &&& post.render_rate == pre.render_rate
        &&& if pre.scenes@.len() == 0 {
            post.scenes@ == pre.scenes@ && post.global == pre.global
        } else {
            let (top2, global2, a) = pre.scenes@.last().step(pre.global, event);
            &&& post.global == global2
            &&& post.scenes@ == apply_action(pre.scenes@.update(pre.scenes@.len() - 1, top2), a)
        }
    }

    /// Relation across a consumed `Event::Error`: the liveness flag is
    /// cleared and everything else is untouched.
    pub open spec fn error_step(pre: Self, post: Self) -> bool {
        &&& post.active == false
        &&& post.tick_count == pre.tick_count
        &&& post.render_count == pre.render_count
        &&& post.scenes@ == pre.scenes@
        &&& post.global == pre.global
        &&& post.tick_rate == pre.tick_rate
        &&& post.render_rate == pre.render_rate
    }

    /// Law: the quit combination always clears the liveness flag, whatever
    /// the active scene's own update logic did.
    pub proof fn lemma_quit_overrides(pre: Self, post: Self, event: UpdateEvent)
        requires
            Self::update_step(pre, post, event),
            is_quit(event),
        ensures
            !post.active,
    {
    }

    /// Law: across any one consumed event neither counter decreases, and
    /// the counter of the event's own class advances by exactly one while
    /// the other stands still.
    pub proof fn lemma_counters_step(pre: Self, post: Self, event: Event)
        requires
            event is Error ==> Self::error_step(pre, post),
            event is RenderEvent ==> Self::render_step(pre, post),
            event matches Event::UpdateEvent(u) ==> Self::update_step(pre, post, u),
        ensures
            post.tick_count >= pre.tick_count,
            post.render_count >= pre.render_count,
            event is RenderEvent ==> post.render_count == pre.render_count + 1
                && post.tick_count == pre.tick_count,
            event is UpdateEvent ==> post.tick_count == pre.tick_count + 1
                && post.render_count == pre.render_count,
    {
    }

    /// Law: one update step changes the stack size only through the action
    /// the active scene returned — down by one on `End`, up by one on
    /// `NewScene`, not at all on `Continue` — and an empty stack stays
    /// empty.
    pub proof fn lemma_update_step_stack_size(pre: Self, post: Self, event: UpdateEvent)
        requires
            Self::update_step(pre, post, event),
        ensures
            pre.scenes@.len() == 0 ==> post.scenes@.len() == 0,
            pre.scenes@.len() > 0 ==> {
                let a = pre.scenes@.last().step(pre.global, event).2;
                &&& (a is Continue ==> post.scenes@.len() == pre.scenes@.len())
                &&& (a is End ==> post.scenes@.len() == pre.scenes@.len() - 1)
                &&& (a is NewScene ==> post.scenes@.len() == pre.scenes@.len() + 1)
            },
    {
        if pre.scenes@.len() > 0 {
            let (top2, global2, a) = pre.scenes@.last().step(pre.global, event);
            lemma_action_stack_size(pre.scenes@.update(pre.scenes@.len() - 1, top2), a);
        }
    }

    /// Law: an update step never mutates a scene below the top of the
    /// stack; a scene waits unchanged until it is active again.
    pub proof fn lemma_below_top_unchanged(pre: Self, post: Self, event: UpdateEvent)
        requires
            Self::update_step(pre, post, event),
        ensures
            forall|i: int|
                0 <= i < pre.scenes@.len() - 1 && i < post.scenes@.len() ==> post.scenes@[i]
                    == pre.scenes@[i],
    {
        if pre.scenes@.len() > 0 {
            let (top2, global2, a) = pre.scenes@.last().step(pre.global, event);
            let stack2 = pre.scenes@.update(pre.scenes@.len() - 1, top2);
            assert forall|i: int|
                0 <= i < pre.scenes@.len() - 1 && i < post.scenes@.len() implies post.scenes@[i]
                == pre.scenes@[i] by {
                assert(stack2[i] == pre.scenes@[i]);
                assert(post.scenes@[i] == stack2[i]);
            }
        }
    }

    /// Law: when the active scene's step pushes a new scene and that new
    /// scene's next step ends itself, the stack is back to what the push
    /// left below: the scene that pushed is active again, its state exactly
    /// as it was the moment it requested the push.
    pub proof fn lemma_round_trip(s0: Self, s1: Self, s2: Self, e1: UpdateEvent, e2: UpdateEvent)
        requires
            Self::update_step(s0, s1, e1),
            Self::update_step(s1, s2, e2),
            s0.scenes@.len() > 0,
            s0.scenes@.last().step(s0.global, e1).2 is NewScene,
            s1.scenes@.last().step(s1.global, e2).2 is End,
        ensures
            s2.scenes@ == s0.scenes@.update(
                s0.scenes@.len() - 1,
                s0.scenes@.last().step(s0.global, e1).0,
            ),
            s2.scenes@.last() == s0.scenes@.last().step(s0.global, e1).0,
    {
        let last0 = s0.scenes@.len() - 1;
        let (top2, global2, a) = s0.scenes@.last().step(s0.global, e1);
        let pushed = a->NewScene_0;
        let stack1 = s0.scenes@.update(last0, top2);
        assert(s1.scenes@ == stack1.push(pushed));
        assert(s1.scenes@.last() == pushed);

        let (top3, global3, a2) = s1.scenes@.last().step(s1.global, e2);
        assert(s2.scenes@ == apply_action(s1.scenes@.update(s1.scenes@.len() - 1, top3), a2));
        assert(s2.scenes@ =~= stack1);
        assert(s2.scenes@.last() == top2);
    }

    /// A fresh driver: live, counters at zero, an empty stack, and the
    /// given intervals (milliseconds) and global state.
    pub fn new(tick_rate: u64, render_rate: u64, data: T) -> (app: Self)
        ensures
            app.active,
            app.global == data,
            app.tick_rate == tick_rate,
            app.render_rate == render_rate,
            app.tick_count == 0,
            app.render_count == 0,
            app.scenes@ == Seq::<S>::empty(),
            app.wf(),
    {
        App {
            active: true,
            global: data,
            tick_rate,
            render_rate,
            tick_count: 0,
            render_count: 0,
            scenes: Vec::new(),
        }
    }

    /// Consume one render-class event: count it. The caller redraws
    /// afterwards; drawing reads the scenes and never changes them.
    pub fn handle_render(&mut self, _event: RenderEvent)
        requires
            old(self).render_count < u64::MAX,
        ensures
            Self::render_step(*old(self), *final(self)),
    {
        self.render_count = self.render_count + 1;
    }

    /// Consume one update-class event: count it, apply the global quit
    /// combination, and let the active scene take one step, its action
    /// moving the stack. With an empty stack the event is counted and
    /// otherwise ignored.
    pub fn handle_update(&mut self, event: UpdateEvent)
        requires
            old(self).wf(),
            old(self).tick_count < u64::MAX,
        ensures
            final(self).wf(),
            Self::update_step(*old(self), *final(self), event),
    {
        if is_quit_event(&event) {
            self.active = false;
        }
        self.tick_count = self.tick_count + 1;
        if self.scenes.len() > 0 {
            let ghost pre_stack = self.scenes@;
            let mut top = self.scenes.pop().unwrap();
            proof {
                assert(pre_stack[pre_stack.len() - 1].inv());
            }
            let action = top.update(&mut self.global, event);
            let ghost top2 = top;
            let ghost ga = action;
            let ghost stack2 = pre_stack.update(pre_stack.len() - 1, top2);
            match action {
                Action::Continue => {
                    self.scenes.push(top);
                    proof {
                        assert(self.scenes@ =~= stack2);
                        assert(self.scenes@ == apply_action(stack2, ga));
                        assert forall|i: int| 0 <= i < self.scenes@.len() implies (
                        #[trigger] self.scenes@[i]).inv() by {
                            if i < pre_stack.len() - 1 {
                                assert(self.scenes@[i] == pre_stack[i]);
                                assert(pre_stack[i].inv());
                            }
                        }
                    }
                },
                Action::End => {
                    proof {
                        assert(self.scenes@ =~= stack2.drop_last());
                        assert(self.scenes@ == apply_action(stack2, ga));
                        assert forall|i: int| 0 <= i < self.scenes@.len() implies (
                        #[trigger] self.scenes@[i]).inv() by {
                            assert(self.scenes@[i] == pre_stack[i]);
                            assert(pre_stack[i].inv());
                        }
                    }
                },
                Action::NewScene(s) => {
                    let ghost gs = s;
                    self.scenes.push(top);
                    self.scenes.push(s);
                    proof {
                        assert(self.scenes@ =~= stack2.push(gs));
                        assert(self.scenes@ == apply_action(stack2, ga));
                        assert forall|i: int| 0 <= i < self.scenes@.len() implies (
                        #[trigger] self.scenes@[i]).inv() by {
                            if i < pre_stack.len() - 1 {
                                assert(self.scenes@[i] == pre_stack[i]);
                                assert(pre_stack[i].inv());
                            }
                        }
                    }
                },
            }
        }
    }

    /// Consume one event of any class. A render-class event asks the
    /// caller to redraw; an update-class event drives the active scene; an
    /// input failure clears the liveness flag and is reported as a
    /// structured error, so the caller shuts the loop down and still
    /// restores the terminal.
    pub fn handle_event(&mut self, event: Event) -> (r: Result<Directive, EngineError>)
        requires
            old(self).wf(),
            old(self).tick_count < u64::MAX,
            old(self).render_count < u64::MAX,
        ensures
            final(self).wf(),
            event is Error ==> r == Err::<Directive, EngineError>(EngineError::InputFailure)
                && Self::error_step(*old(self), *final(self)),
            event is RenderEvent ==> r == Ok::<Directive, EngineError>(Directive::Redraw)
                && Self::render_step(*old(self), *final(self)),
            event matches Event::UpdateEvent(u) ==> r == Ok::<Directive, EngineError>(
                Directive::Proceed,
            ) && Self::update_step(*old(self), *final(self), u),
    {
        match event {
            Event::Error => {
                self.active = false;
                Err(EngineError::InputFailure)
            },
            Event::RenderEvent(re) => {
                self.handle_render(re);
                Ok(Directive::Redraw)
            },
            Event::UpdateEvent(ue) => {
                self.handle_update(ue);
                Ok(Directive::Proceed)
            },
        }
    }
}

} // verus!
