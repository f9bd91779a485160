//! The camera's input state as a mathematical value, and what each event
//! does to it.

use vstd::prelude::*;
use crate::binding::{bound, default_bindings, motions_of, BindingView};
use crate::event::{Event, PRIMARY_BUTTON};
use crate::intent::{Intent, Motion};

verus! {

/// The input state of a camera.
pub struct Model {
    /// The binding table, in the order of registration.
    pub bindings: Seq<BindingView>,
    /// The intents that held input asks for.
    pub active: Set<Intent>,
    /// The latest cursor position.
    pub mouse: (i32, i32),
    /// Whether a drag is under way.
    pub dragging: bool,
    /// Where the drag began. After a drag it rests where the drag ended.
    pub anchor: (i32, i32),
}

impl Model {
    /// The state of a new camera: the default table, nothing active, no
    /// drag, cursor and anchor at the origin.
    pub open spec fn initial() -> Model {
        Model {
            bindings: default_bindings(),
            active: Set::empty(),
            mouse: (0, 0),
            dragging: false,
            anchor: (0, 0),
        }
    }

    /// A key went down: every intent bound to `code` becomes active.
    pub open spec fn key_down(self, code: Seq<char>) -> Model {
        Model { active: self.active.union(bound(self.bindings, code)), ..self }
    }

    /// A key came up: every intent bound to `code` becomes inactive.
    pub open spec fn key_up(self, code: Seq<char>) -> Model {
        Model { active: self.active.difference(bound(self.bindings, code)), ..self }
    }

    /// Whether pressing `button` begins a drag.
    pub open spec fn grabs(self, button: usize) -> bool {
        button == PRIMARY_BUTTON && !self.dragging
    }

    /// Whether releasing `button` ends a drag.
    pub open spec fn releases(self, button: usize) -> bool {
        button == PRIMARY_BUTTON && self.dragging
    }

    /// A button went down: the primary button begins a drag at the cursor,
    /// unless one is under way.
    pub open spec fn mouse_down(self, button: usize) -> Model {
        if self.grabs(button) {
            Model { dragging: true, anchor: self.mouse, ..self }
        } else {
            self
        }
    }

    /// A button came up: the primary button ends the drag that is under
    /// way, and the anchor comes to rest at the cursor.
    pub open spec fn mouse_up(self, button: usize) -> Model {
        if self.releases(button) {
            Model { dragging: false, anchor: self.mouse, ..self }
        } else {
            self
        }
    }

    /// The cursor moved: mouse look is active exactly while dragging.
    pub open spec fn mouse_pos(self, x: i32, y: i32) -> Model {
        Model {
            mouse: (x, y),
            active: if self.dragging {
                self.active.insert(Intent::MouseLook)
            } else {
                self.active.remove(Intent::MouseLook)
            },
            ..self
        }
    }

    /// The state after one event.
    pub open spec fn handle(self, event: Event) -> Model {
        match event {
            Event::KeyDown { code } => self.key_down(code@),
            Event::KeyUp { code } => self.key_up(code@),
            Event::MouseDown { button } => self.mouse_down(button),
            Event::MouseUp { button } => self.mouse_up(button),
            Event::MousePos { x, y } => self.mouse_pos(x, y),
            Event::Other => self,
        }
    }

    /// Whether `event` ends a drag, so that the live yaw and pitch are to
    /// be committed as the new base orientation.
    pub open spec fn commits(self, event: Event) -> bool {
        event matches Event::MouseUp { button } && self.releases(button)
    }

    /// The state after a batch of events, taken in order.
    pub open spec fn handle_all(self, events: Seq<Event>) -> Model
        decreases events.len(),
    {
        if events.len() == 0 {
            self
        } else {
            self.handle_all(events.drop_last()).handle(events.last())
        }
    }

    /// Whether some event of the batch ends a drag.
    pub open spec fn commits_any(self, events: Seq<Event>) -> bool
        decreases events.len(),
    {
        if events.len() == 0 {
            false
        } else {
            self.commits_any(events.drop_last()) || self.handle_all(events.drop_last()).commits(
                events.last(),
            )
        }
    }

    /// The cursor's offset from the anchor, in pixels.
    pub open spec fn look_delta(self) -> (int, int) {
        (self.mouse.0 - self.anchor.0, self.mouse.1 - self.anchor.1)
    }

    /// The motions that a frame applies: one for each binding whose intent
    /// is active, in the order of registration.
    pub open spec fn motions(self) -> Seq<Motion> {
        motions_of(self.bindings, self.active)
    }
}

} // verus!
