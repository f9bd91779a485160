use first_person_camera::{Event, FirstPersonCamera, Intent, Motion, Sign};

fn key_down_event(code: &str) -> Event {
    Event::KeyDown { code: code.to_string() }
}

fn key_up_event(code: &str) -> Event {
    Event::KeyUp { code: code.to_string() }
}

const EVERY_INTENT: [Intent; 9] = [
    Intent::TurnLeft,
    Intent::TurnRight,
    Intent::Forward,
    Intent::Backward,
    Intent::Up,
    Intent::Down,
    Intent::StrafeLeft,
    Intent::StrafeRight,
    Intent::MouseLook,
];

#[test]
fn new_camera_is_at_rest() {
    let cam = FirstPersonCamera::new();
    assert_eq!(cam.active().bits(), 0);
    assert!(!cam.is_dragging());
    assert_eq!(cam.mouse_position(), (0, 0));
    assert_eq!(cam.drag_anchor(), (0, 0));
    assert_eq!(cam.look_delta(), (0, 0));
    assert!(cam.motions().is_empty());
}

#[test]
fn default_table_in_order_of_registration() {
    let cam = FirstPersonCamera::new();
    let rows: Vec<(Intent, Option<&str>)> =
        cam.bindings().iter().map(|b| (b.intent, b.key.as_deref())).collect();
    assert_eq!(
        rows,
        vec![
            (Intent::TurnLeft, Some("KeyA")),
            (Intent::TurnRight, Some("KeyD")),
            (Intent::Up, Some("Kposition")),
            (Intent::Down, Some("KeyC")),
            (Intent::Forward, Some("KeyW")),
            (Intent::Backward, Some("KeyS")),
            (Intent::StrafeLeft, Some("KeyZ")),
            (Intent::StrafeRight, Some("KeyX")),
            (Intent::MouseLook, None),
        ]
    );
}

#[test]
fn each_key_switches_its_own_intent() {
    let table = [
        ("KeyA", Intent::TurnLeft),
        ("KeyD", Intent::TurnRight),
        ("Kposition", Intent::Up),
        ("KeyC", Intent::Down),
        ("KeyW", Intent::Forward),
        ("KeyS", Intent::Backward),
        ("KeyZ", Intent::StrafeLeft),
        ("KeyX", Intent::StrafeRight),
    ];
    for (code, intent) in table.iter() {
        let mut cam = FirstPersonCamera::new();
        cam.key_down(code);
        for other in EVERY_INTENT.iter() {
            assert_eq!(cam.is_active(*other), other == intent);
        }
        assert_eq!(cam.active().bits(), intent.bit());
        cam.key_up(code);
        assert_eq!(cam.active().bits(), 0);
    }
}

#[test]
fn unknown_codes_change_nothing() {
    let mut cam = FirstPersonCamera::new();
    cam.key_down("KeyW");
    for code in ["KeyQ", "keyw", "KeyWW", "Key", "Space", "KeyE", "W", "KeyW ", " KeyW", ""].iter() {
        cam.key_down(code);
        assert_eq!(cam.active().bits(), 8);
        cam.key_up(code);
        assert_eq!(cam.active().bits(), 8);
    }
    assert!(!cam.handle_event(&key_down_event("Escape")));
    assert_eq!(cam.active().bits(), 8);
}

#[test]
fn double_key_down_has_no_further_effect() {
    let mut cam = FirstPersonCamera::new();
    cam.key_down("KeyA");
    cam.key_down("KeyA");
    assert_eq!(cam.active().bits(), 1);
    assert_eq!(cam.motions(), vec![Motion::Turn(Sign::Positive)]);
    cam.key_up("KeyA");
    assert_eq!(cam.active().bits(), 0);
    assert!(cam.motions().is_empty());
}

#[test]
fn key_up_without_key_down_changes_nothing() {
    let mut cam = FirstPersonCamera::new();
    cam.key_up("KeyS");
    assert_eq!(cam.active().bits(), 0);
}

#[test]
fn last_event_on_a_key_decides_its_flag() {
    let runs: [(&[bool], bool); 6] = [
        (&[true], true),
        (&[false], false),
        (&[true, false], false),
        (&[true, false, true], true),
        (&[true, true, false], false),
        (&[true, false, true, false, false, true, true], true),
    ];
    for (downs, expected) in runs.iter() {
        let mut cam = FirstPersonCamera::new();
        cam.key_down("KeyD");
        for down in downs.iter() {
            let event = if *down { key_down_event("KeyW") } else { key_up_event("KeyW") };
            assert!(!cam.handle_event(&event));
        }
        assert_eq!(cam.is_active(Intent::Forward), *expected);
        assert!(cam.is_active(Intent::TurnRight));
    }
}

#[test]
fn presses_and_releases_in_turn_leave_the_flag_on_after_an_odd_number() {
    let mut cam = FirstPersonCamera::new();
    for n in 1..=8 {
        let event = if n % 2 == 1 { key_down_event("KeyZ") } else { key_up_event("KeyZ") };
        assert!(!cam.handle_event(&event));
        assert_eq!(cam.is_active(Intent::StrafeLeft), n % 2 == 1);
        assert_eq!(cam.active().bits(), if n % 2 == 1 { 1 << 7 } else { 0 });
    }
}

#[test]
fn events_never_change_the_table() {
    let mut cam = FirstPersonCamera::new();
    let before: Vec<(Intent, Option<String>)> =
        cam.bindings().iter().map(|b| (b.intent, b.key.clone())).collect();
    cam.handle_events(&[
        key_down_event("KeyW"),
        Event::MouseDown { button: 0 },
        Event::MousePos { x: 5, y: 6 },
        key_up_event("KeyW"),
        Event::MouseUp { button: 0 },
        Event::Other,
    ]);
    let after: Vec<(Intent, Option<String>)> =
        cam.bindings().iter().map(|b| (b.intent, b.key.clone())).collect();
    assert_eq!(before, after);
    assert_eq!(after.len(), 9);
}

#[test]
fn motions_follow_the_order_of_registration() {
    let mut cam = FirstPersonCamera::new();
    for code in ["KeyX", "KeyW", "KeyC", "KeyA"].iter() {
        cam.key_down(code);
    }
    assert_eq!(
        cam.motions(),
        vec![
            Motion::Turn(Sign::Positive),
            Motion::Climb(Sign::Negative),
            Motion::Advance(Sign::Positive),
            Motion::Strafe(Sign::Positive),
        ]
    );
    cam.key_up("KeyC");
    assert_eq!(
        cam.motions(),
        vec![
            Motion::Turn(Sign::Positive),
            Motion::Advance(Sign::Positive),
            Motion::Strafe(Sign::Positive),
        ]
    );
}

#[test]
fn all_keys_held_give_all_motions() {
    let mut cam = FirstPersonCamera::new();
    for code in ["KeyA", "KeyD", "Kposition", "KeyC", "KeyW", "KeyS", "KeyZ", "KeyX"].iter() {
        cam.key_down(code);
    }
    assert_eq!(cam.active().bits(), 0x1FD);
    assert_eq!(
        cam.motions(),
        vec![
            Motion::Turn(Sign::Positive),
            Motion::Turn(Sign::Negative),
            Motion::Climb(Sign::Positive),
            Motion::Climb(Sign::Negative),
            Motion::Advance(Sign::Positive),
            Motion::Advance(Sign::Negative),
            Motion::Strafe(Sign::Negative),
            Motion::Strafe(Sign::Positive),
        ]
    );
}

#[test]
fn motions_do_not_change_the_state() {
    let mut cam = FirstPersonCamera::new();
    cam.key_down("KeyW");
    let first = cam.motions();
    let second = cam.motions();
    assert_eq!(first, second);
    assert_eq!(cam.active().bits(), 8);
}

#[test]
fn the_empty_code_is_no_key() {
    let mut cam = FirstPersonCamera::new();
    cam.key_down("");
    assert_eq!(cam.active().bits(), 0);
    assert!(cam.motions().is_empty());
    assert!(!cam.handle_event(&key_down_event("")));
    assert_eq!(cam.active().bits(), 0);
    cam.key_down("KeyW");
    cam.key_up("");
    assert_eq!(cam.active().bits(), 8);
    assert!(!cam.is_dragging());
    assert_eq!(cam.mouse_position(), (0, 0));
    assert_eq!(cam.drag_anchor(), (0, 0));
}

#[test]
fn no_key_event_switches_mouse_look() {
    let codes = ["", "KeyA", "KeyD", "Kposition", "KeyC", "KeyW", "KeyS", "KeyZ", "KeyX", "Mouse"];
    let mut idle = FirstPersonCamera::new();
    for code in codes.iter() {
        idle.key_down(code);
        assert!(!idle.is_active(Intent::MouseLook));
        idle.key_up(code);
        assert!(!idle.is_active(Intent::MouseLook));
    }
    let mut dragging = FirstPersonCamera::new();
    dragging.mouse_pos(&(10, 10));
    dragging.mouse_down(0);
    dragging.mouse_pos(&(12, 15));
    assert!(dragging.is_active(Intent::MouseLook));
    for code in codes.iter() {
        dragging.key_up(code);
        assert!(dragging.is_active(Intent::MouseLook));
        dragging.key_down(code);
        assert!(dragging.is_active(Intent::MouseLook));
        assert!(dragging.is_dragging());
        assert_eq!(dragging.look_delta(), (2, 5));
    }
    dragging.key_up("");
    assert_eq!(dragging.active().bits(), (1 << 16) | 0x1FD);
    assert_eq!(dragging.motions().last(), Some(&Motion::Look));
    assert_eq!(dragging.motions().len(), 9);
}

#[test]
fn a_key_changes_no_flag_but_its_own() {
    let mut cam = FirstPersonCamera::new();
    cam.key_down("KeyA");
    cam.key_down("KeyC");
    cam.key_down("KeyW");
    assert_eq!(cam.active().bits(), 0x1 | 0x40 | 0x8);
    cam.key_up("KeyC");
    assert_eq!(cam.active().bits(), 0x1 | 0x8);
    cam.key_down("KeyS");
    assert_eq!(cam.active().bits(), 0x1 | 0x8 | 0x10);
    cam.key_up("KeyX");
    assert_eq!(cam.active().bits(), 0x1 | 0x8 | 0x10);
}

#[test]
fn other_events_are_ignored() {
    let mut cam = FirstPersonCamera::new();
    cam.key_down("KeyW");
    cam.mouse_pos(&(3, 4));
    assert!(!cam.handle_event(&Event::Other));
    assert_eq!(cam.active().bits(), 8);
    assert_eq!(cam.mouse_position(), (3, 4));
    assert!(!cam.is_dragging());
}
