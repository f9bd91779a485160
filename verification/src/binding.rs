//! The table that ties key codes to intents.

use vstd::prelude::*;
use crate::intent::{Intent, Motion};

verus! {

/// One row of the table: while the key `key` is held, `intent` is active.
/// A row without a key stands for an intent that no key switches.
#[derive(Clone, Debug)]
pub struct Binding {
    pub intent: Intent,
    pub key: Option<String>,
}

/// A row of the table as a mathematical value.
pub struct BindingView {
    pub intent: Intent,
    pub key: Option<Seq<char>>,
}

impl View for Binding {
    type V = BindingView;

    open spec fn view(&self) -> BindingView {
        BindingView {
            intent: self.intent,
            key: match self.key {
                Some(code) => Some(code@),
                None => None,
            },
        }
    }
}

/// A whole table as a mathematical value, row by row.
pub open spec fn table_view(rows: Seq<Binding>) -> Seq<BindingView> {
    rows.map_values(|b: Binding| b@)
}

/// The intents that the key `code` stands for: those of every row with
/// that key. A row without a key stands for no code, the empty one
/// included.
pub open spec fn bound(table: Seq<BindingView>, code: Seq<char>) -> Set<Intent> {
    Set::new(
        |i: Intent|
            exists|k: int|
                0 <= k < table.len() && #[trigger] table[k].intent == i && table[k].key == Some(
                    code,
                ),
    )
}

/// The motions of the rows whose intent is in `active`, in the order of
/// the rows. A row counts each time it occurs.
pub open spec fn motions_of(table: Seq<BindingView>, active: Set<Intent>) -> Seq<Motion> {
    table.filter(|b: BindingView| active.contains(b.intent)).map_values(
        |b: BindingView| b.intent.spec_motion(),
    )
}

/// The table of every camera, in the order of registration. Mouse look
/// comes last and has no key: cursor moves during a drag switch it, and no
/// key event does.
pub open spec fn default_bindings() -> Seq<BindingView> {
    seq![
        BindingView { intent: Intent::TurnLeft, key: Some("KeyA"@) },
        BindingView { intent: Intent::TurnRight, key: Some("KeyD"@) },
        BindingView { intent: Intent::Up, key: Some("Kposition"@) },
        BindingView { intent: Intent::Down, key: Some("KeyC"@) },
        BindingView { intent: Intent::Forward, key: Some("KeyW"@) },
        BindingView { intent: Intent::Backward, key: Some("KeyS"@) },
        BindingView { intent: Intent::StrafeLeft, key: Some("KeyZ"@) },
        BindingView { intent: Intent::StrafeRight, key: Some("KeyX"@) },
        BindingView { intent: Intent::MouseLook, key: None },
    ]
}

/// The intent that a key code stands for in the default table, if any.
pub open spec fn default_intent(code: Seq<char>) -> Option<Intent> {
    if code == "KeyA"@ {
        Some(Intent::TurnLeft)
    } else if code == "KeyD"@ {
        Some(Intent::TurnRight)
    } else if code == "Kposition"@ {
        Some(Intent::Up)
    } else if code == "KeyC"@ {
        Some(Intent::Down)
    } else if code == "KeyW"@ {
        Some(Intent::Forward)
    } else if code == "KeyS"@ {
        Some(Intent::Backward)
    } else if code == "KeyZ"@ {
        Some(Intent::StrafeLeft)
    } else if code == "KeyX"@ {
        Some(Intent::StrafeRight)
    } else {
        None
    }
}

/// The intents that a key code stands for in the default table: the one
/// of its key, or none.
pub open spec fn default_bound(code: Seq<char>) -> Set<Intent> {
    match default_intent(code) {
        Some(i) => set![i],
        None => Set::empty(),
    }
}

/// In the default table each of the eight key codes stands for one intent,
/// and every other code, the empty one included, for none. No code stands
/// for mouse look.
pub proof fn lemma_default_bound(code: Seq<char>)
    ensures
        bound(default_bindings(), code) == default_bound(code),
        !bound(default_bindings(), code).contains(Intent::MouseLook),
        default_intent(code) is None ==> bound(default_bindings(), code) == Set::<Intent>::empty(),
        default_intent(""@) is None,
{
    reveal_strlit("KeyA");
    reveal_strlit("KeyD");
    reveal_strlit("Kposition");
    reveal_strlit("KeyC");
    reveal_strlit("KeyW");
    reveal_strlit("KeyS");
    reveal_strlit("KeyZ");
    reveal_strlit("KeyX");
    reveal_strlit("");
    let t = default_bindings();
    assert("KeyA"@[3] == 'A' && "KeyD"@[3] == 'D' && "Kposition"@[3] == 's' && "KeyC"@[3] == 'C');
    assert("KeyW"@[3] == 'W' && "KeyS"@[3] == 'S' && "KeyZ"@[3] == 'Z' && "KeyX"@[3] == 'X');
    assert(""@.len() == 0);
    let expected = default_bound(code);
    assert forall|i: Intent| bound(t, code).contains(i) == expected.contains(i) by {
        if bound(t, code).contains(i) {
            let k = choose|k: int|
                0 <= k < t.len() && #[trigger] t[k].intent == i && t[k].key == Some(code);
            assert(default_intent(code) == Some(i));
        }
        if expected.contains(i) {
            let k = choose|k: int| 0 <= k < 8 && (#[trigger] t[k]).intent == i;
            assert(t[k].intent == i && t[k].key == Some(code));
        }
    }
    assert(bound(t, code) =~= expected);
}

/// A table with no rows binds nothing.
pub proof fn lemma_bound_empty(code: Seq<char>)
    ensures
        bound(Seq::<BindingView>::empty(), code) == Set::<Intent>::empty(),
{
    assert(bound(Seq::<BindingView>::empty(), code) =~= Set::<Intent>::empty());
}

/// One more row binds its intent if its key is `code`, and changes nothing
/// otherwise.
pub proof fn lemma_bound_push(table: Seq<BindingView>, row: BindingView, code: Seq<char>)
    ensures
        bound(table.push(row), code) == if row.key == Some(code) {
            bound(table, code).insert(row.intent)
        } else {
            bound(table, code)
        },
{
    let longer = table.push(row);
    let expected = if row.key == Some(code) {
        bound(table, code).insert(row.intent)
    } else {
        bound(table, code)
    };
    assert forall|i: Intent| bound(longer, code).contains(i) == expected.contains(i) by {
        if bound(longer, code).contains(i) {
            let k = choose|k: int|
                0 <= k < longer.len() && #[trigger] longer[k].intent == i && longer[k].key
                    == Some(code);
            if k < table.len() {
                assert(table[k].intent == i && table[k].key == Some(code));
            }
        }
        if expected.contains(i) {
            if bound(table, code).contains(i) {
                let k = choose|k: int|
                    0 <= k < table.len() && #[trigger] table[k].intent == i && table[k].key
                        == Some(code);
                assert(longer[k].intent == i && longer[k].key == Some(code));
            } else {
                let last = longer.len() - 1;
                assert(longer[last].intent == i && longer[last].key == Some(code));
            }
        }
    }
    assert(bound(longer, code) =~= expected);
}

/// One more row adds its motion at the end if its intent is active, and
/// changes nothing otherwise.
pub proof fn lemma_motions_push(table: Seq<BindingView>, row: BindingView, active: Set<Intent>)
    ensures
        motions_of(table.push(row), active) == if active.contains(row.intent) {
            motions_of(table, active).push(row.intent.spec_motion())
        } else {
            motions_of(table, active)
        },
{
    let live = |b: BindingView| active.contains(b.intent);
    let longer = table.push(row);
    reveal(Seq::filter);
    assert(longer.drop_last() =~= table);
    assert(longer.last() == row);
    if active.contains(row.intent) {
        assert(longer.filter(live) == table.filter(live).push(row));
        assert(motions_of(longer, active) =~= motions_of(table, active).push(
            row.intent.spec_motion(),
        ));
    } else {
        assert(longer.filter(live) == table.filter(live));
    }
}

} // verus!
