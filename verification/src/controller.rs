//! The camera's input state machine.

use vstd::prelude::*;
use crate::binding::{
    bound, default_bindings, default_bound, default_intent, lemma_bound_empty, lemma_bound_push,
    lemma_default_bound, lemma_motions_push, motions_of, table_view, Binding, BindingView,
};
use crate::event::{Event, PRIMARY_BUTTON};
use crate::intent::{Intent, Motion};
use crate::model::Model;
use crate::movement::Movement;
use crate::text::same_text;

verus! {

/// The input side of a first-person camera: which intents are held, where
/// the cursor is, and whether a drag is under way. It turns events into
/// that state, and that state into the motions of a frame; moving the
/// camera by them is the caller's part. Every camera has the same binding
/// table, `default_bindings()`.
#[derive(Debug)]
pub struct FirstPersonCamera {
    state: Movement,
    handlers: Vec<Binding>,
    mouse_pos: (i32, i32),
    clicked: bool,
    click_pos: (i32, i32),
}

/// What a frame asks of the caller.
#[derive(Debug)]
pub struct Frame {
    /// Whether a drag ended in this frame's events. If so, the live yaw and
    /// pitch become the base orientation before any motion is applied.
    pub commit: bool,
    /// The motions to apply, in order.
    pub motions: Vec<Motion>,
    /// The cursor's offset from the drag anchor, for `Motion::Look`.
    pub look: (i64, i64),
}

impl View for FirstPersonCamera {
    type V = Model;

    closed spec fn view(&self) -> Model {
        Model {
            bindings: table_view(self.handlers@),
            active: self.state@,
            mouse: self.mouse_pos,
            dragging: self.clicked,
            anchor: self.click_pos,
        }
    }
}

impl FirstPersonCamera {
    #[verifier::type_invariant]
    spec fn table_is_default(self) -> bool {
        table_view(self.handlers@) == default_bindings()
    }

    /// A camera with the default bindings, nothing held and no drag.
    pub fn new() -> (m: FirstPersonCamera)
        ensures
            m@ == Model::initial(),
    {
        let mut handlers: Vec<Binding> = Vec::new();
        assert(table_view(handlers@) =~= Seq::<BindingView>::empty());
        Self::add(&mut handlers, Intent::TurnLeft, Some("KeyA"));
        Self::add(&mut handlers, Intent::TurnRight, Some("KeyD"));
        Self::add(&mut handlers, Intent::Up, Some("Kposition"));
        Self::add(&mut handlers, Intent::Down, Some("KeyC"));
        Self::add(&mut handlers, Intent::Forward, Some("KeyW"));
        Self::add(&mut handlers, Intent::Backward, Some("KeyS"));
        Self::add(&mut handlers, Intent::StrafeLeft, Some("KeyZ"));
        Self::add(&mut handlers, Intent::StrafeRight, Some("KeyX"));
        Self::add(&mut handlers, Intent::MouseLook, None);
        assert(table_view(handlers@) =~= default_bindings());
        FirstPersonCamera {
            state: Movement::empty(),
            handlers,
            mouse_pos: (0, 0),
            clicked: false,
            click_pos: (0, 0),
        }
    }

    /// Registers one more binding behind those that are there; `key` is
    /// the code that switches `mv`, if a key does.
    fn add(handlers: &mut Vec<Binding>, mv: Intent, key: Option<&str>)
        ensures
            table_view(final(handlers)@) == table_view(old(handlers)@).push(
                BindingView {
                    intent: mv,
                    key: match key {
                        Some(code) => Some(code@),
                        None => None,
                    },
                },
            ),
    {
        let key = match key {
            Some(code) => Some(code.to_owned()),
            None => None,
        };
        handlers.push(Binding { intent: mv, key });
        assert(table_view(handlers@) =~= table_view(old(handlers)@).push(handlers@.last()@));
    }

    /// A key went down: the intent of the key `input` becomes active. A
    /// code that is none of the eight key codes, the empty one included,
    /// changes nothing, and no code changes mouse look.
    pub fn key_down(&mut self, input: &str)
        ensures
            final(self)@ == old(self)@.key_down(input@),
            final(self)@.active == old(self)@.active.union(default_bound(input@)),
            default_intent(input@) is None ==> final(self)@ == old(self)@,
            final(self)@.active.contains(Intent::MouseLook) == old(self)@.active.contains(
                Intent::MouseLook,
            ),
    {
        let ghost table = self@.bindings;
        let mut k: usize = 0;
        proof {
            use_type_invariant(&*self);
            lemma_default_bound(input@);
            assert(old(self)@.active.union(Set::<Intent>::empty()) =~= old(self)@.active);
            assert(table.take(0) =~= Seq::<BindingView>::empty());
            lemma_bound_empty(input@);
            assert(self@.active =~= old(self)@.active.union(bound(table.take(0), input@)));
        }
        while k < self.handlers.len()
            invariant
                k <= self.handlers.len(),
                table == old(self)@.bindings,
                self@ == (Model {
                    active: old(self)@.active.union(bound(table.take(k as int), input@)),
                    ..old(self)@
                }),
            decreases self.handlers.len() - k,
        {
            let hit = match &self.handlers[k].key {
                Some(code) => same_text(input, code.as_str()),
                None => false,
            };
            if hit {
                let mv = self.handlers[k].intent;
                proof {
                    use_type_invariant(&*self);
                }
                self.state.insert(mv);
            }
            proof {
                assert(table.take(k + 1) =~= table.take(k as int).push(table[k as int]));
                lemma_bound_push(table.take(k as int), table[k as int], input@);
                assert(self@.active =~= old(self)@.active.union(
                    bound(table.take(k + 1), input@),
                ));
            }
            k += 1;
        }
        assert(table.take(k as int) =~= table);
    }

    /// A key came up: the intent of the key `input` becomes inactive. A
    /// code that is none of the eight key codes, the empty one included,
    /// changes nothing, and no code changes mouse look.
    pub fn key_up(&mut self, input: &str)
        ensures
            final(self)@ == old(self)@.key_up(input@),
            final(self)@.active == old(self)@.active.difference(default_bound(input@)),
            default_intent(input@) is None ==> final(self)@ == old(self)@,
            final(self)@.active.contains(Intent::MouseLook) == old(self)@.active.contains(
                Intent::MouseLook,
            ),
    {
        let ghost table = self@.bindings;
        let mut k: usize = 0;
        proof {
            use_type_invariant(&*self);
            lemma_default_bound(input@);
            assert(old(self)@.active.difference(Set::<Intent>::empty()) =~= old(self)@.active);
            assert(table.take(0) =~= Seq::<BindingView>::empty());
            lemma_bound_empty(input@);
            assert(self@.active =~= old(self)@.active.difference(bound(table.take(0), input@)));
        }
        while k < self.handlers.len()
            invariant
                k <= self.handlers.len(),
                table == old(self)@.bindings,
                self@ == (Model {
                    active: old(self)@.active.difference(bound(table.take(k as int), input@)),
                    ..old(self)@
                }),
            decreases self.handlers.len() - k,
        {
            let hit = match &self.handlers[k].key {
                Some(code) => same_text(input, code.as_str()),
                None => false,
            };
            if hit {
                let mv = self.handlers[k].intent;
                proof {
                    use_type_invariant(&*self);
                }
                self.state.remove(mv);
            }
            proof {
                assert(table.take(k + 1) =~= table.take(k as int).push(table[k as int]));
                lemma_bound_push(table.take(k as int), table[k as int], input@);
                assert(self@.active =~= old(self)@.active.difference(
                    bound(table.take(k + 1), input@),
                ));
            }
            k += 1;
        }
        assert(table.take(k as int) =~= table);
    }

    /// A button went down: the primary button begins a drag at the cursor.
    /// Any other button, or a press while dragging, changes nothing.
    pub fn mouse_down(&mut self, input: usize)
        ensures
            final(self)@ == old(self)@.mouse_down(input),
            !old(self)@.grabs(input) ==> *final(self) == *old(self),
    {
        proof {
            use_type_invariant(&*self);
        }
        if input == PRIMARY_BUTTON && !self.clicked {
            self.clicked = true;
            self.click_pos = self.mouse_pos;
        }
    }

    /// A button came up: the primary button ends the drag that is under
    /// way. The result says whether it did; the caller then commits the
    /// live yaw and pitch as the new base. Any other button, or a release
    /// without a drag, changes nothing.
    pub fn mouse_up(&mut self, input: usize) -> (commit: bool)
        ensures
            final(self)@ == old(self)@.mouse_up(input),
            commit == old(self)@.releases(input),
            !commit ==> *final(self) == *old(self),
    {
        proof {
            use_type_invariant(&*self);
        }
        if input == PRIMARY_BUTTON && self.clicked {
            self.clicked = false;
            self.click_pos = self.mouse_pos;
            true
        } else {
            false
        }
    }

    /// The cursor moved to `input`: mouse look is active exactly while
    /// dragging.
    pub fn mouse_pos(&mut self, input: &(i32, i32))
        ensures
            final(self)@ == old(self)@.mouse_pos(input.0, input.1),
    {
        proof {
            use_type_invariant(&*self);
        }
        self.mouse_pos = (input.0, input.1);
        if self.clicked {
            self.state.insert(Intent::MouseLook);
        } else {
            self.state.remove(Intent::MouseLook);
        }
    }

    /// Takes one event. The result says whether the event ended a drag.
    pub fn handle_event(&mut self, evt: &Event) -> (commit: bool)
        ensures
            final(self)@ == old(self)@.handle(*evt),
            commit == old(self)@.commits(*evt),
    {
        match evt {
            Event::KeyUp { code } => {
                self.key_up(code.as_str());
                false
            },
            Event::KeyDown { code } => {
                self.key_down(code.as_str());
                false
            },
            Event::MouseDown { button } => {
                self.mouse_down(*button);
                false
            },
            Event::MouseUp { button } => self.mouse_up(*button),
            Event::MousePos { x, y } => {
                self.mouse_pos(&(*x, *y));
                false
            },
            Event::Other => false,
        }
    }

    /// Takes a frame's events in order. The result says whether one of
    /// them ended a drag.
    pub fn handle_events(&mut self, events: &[Event]) -> (commit: bool)
        ensures
            final(self)@ == old(self)@.handle_all(events@),
            commit == old(self)@.commits_any(events@),
    {
        let mut commit = false;
        let mut k: usize = 0;
        assert(events@.take(0) =~= Seq::<Event>::empty());
        while k < events.len()
            invariant
                k <= events.len(),
                self@ == old(self)@.handle_all(events@.take(k as int)),
                commit == old(self)@.commits_any(events@.take(k as int)),
            decreases events.len() - k,
        {
            proof {
                assert(events@.take(k + 1).drop_last() =~= events@.take(k as int));
                assert(events@.take(k + 1).last() == events@[k as int]);
            }
            let ended = self.handle_event(&events[k]);
            commit = commit || ended;
            k += 1;
        }
        assert(events@.take(k as int) =~= events@);
        commit
    }

    /// The motions that a frame applies: one for each binding whose intent
    /// is active, in the order of registration.
    pub fn motions(&self) -> (out: Vec<Motion>)
        ensures
            out@ == self@.motions(),
    {
        let ghost table = self@.bindings;
        let ghost active = self@.active;
        let mut out: Vec<Motion> = Vec::new();
        let mut k: usize = 0;
        proof {
            assert(table.take(0) =~= Seq::<BindingView>::empty());
            reveal(Seq::filter);
            assert(motions_of(table.take(0), active) =~= Seq::<Motion>::empty());
        }
        while k < self.handlers.len()
            invariant
                k <= self.handlers.len(),
                table == self@.bindings,
                active == self@.active,
                out@ == motions_of(table.take(k as int), active),
            decreases self.handlers.len() - k,
        {
            let mv = self.handlers[k].intent;
            if self.state.contains(mv) {
                out.push(mv.motion());
            }
            proof {
                assert(table.take(k + 1) =~= table.take(k as int).push(table[k as int]));
                lemma_motions_push(table.take(k as int), table[k as int], active);
            }
            k += 1;
        }
        assert(table.take(k as int) =~= table);
        out
    }

    /// The cursor's offset from the drag anchor, in pixels.
    pub fn look_delta(&self) -> (d: (i64, i64))
        ensures
            d.0 == self@.look_delta().0,
            d.1 == self@.look_delta().1,
    {
        (
            self.mouse_pos.0 as i64 - self.click_pos.0 as i64,
            self.mouse_pos.1 as i64 - self.click_pos.1 as i64,
        )
    }

    /// Whether `intent` is active.
    pub fn is_active(&self, intent: Intent) -> (r: bool)
        ensures
            r == self@.active.contains(intent),
    {
        self.state.contains(intent)
    }

    /// The set of active intents.
    pub fn active(&self) -> (r: Movement)
        ensures
            r@ == self@.active,
    {
        self.state
    }

    /// Whether a drag is under way.
    pub fn is_dragging(&self) -> (r: bool)
        ensures
            r == self@.dragging,
    {
        self.clicked
    }

    /// The latest cursor position.
    pub fn mouse_position(&self) -> (r: (i32, i32))
        ensures
            r == self@.mouse,
    {
        self.mouse_pos
    }

    /// Where the drag began, or where the last one ended.
    pub fn drag_anchor(&self) -> (r: (i32, i32))
        ensures
            r == self@.anchor,
    {
        self.click_pos
    }

    /// The binding table, in the order of registration. It is the same
    /// for every camera.
    pub fn bindings(&self) -> (r: &Vec<Binding>)
        ensures
            table_view(r@) == self@.bindings,
            self@.bindings == default_bindings(),
    {
        proof {
            use_type_invariant(self);
        }
        &self.handlers
    }

    /// One frame of input: takes the events in order, then says what the
    /// caller is to do with the camera.
    pub fn update(&mut self, events: &[Event]) -> (frame: Frame)
        ensures
            final(self)@ == old(self)@.handle_all(events@),
            frame.commit == old(self)@.commits_any(events@),
            frame.motions@ == final(self)@.motions(),
            frame.look.0 == final(self)@.look_delta().0,
            frame.look.1 == final(self)@.look_delta().1,
    {
        let commit = self.handle_events(events);
        let motions = self.motions();
        let look = self.look_delta();
        Frame { commit, motions, look }
    }
}

} // verus!
