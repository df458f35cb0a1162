use ohos_event_loop::events::{
    ButtonSource, DeviceId, ElementState, FingerId, InputEvent, KeyAction, KeyEventRecord,
    PointerKind, PointerPosition, PointerSource, TouchAction, TouchEventRecord, TouchPoint,
    WindowEvent,
};
use ohos_event_loop::normalizer::{
    normalize_input, normalize_key_event, normalize_touch_event, normalize_touch_point,
};

fn point(id: u64, x: u64, y: u64) -> TouchPoint {
    TouchPoint { id: FingerId { raw: id }, position: PointerPosition { x, y }, force: 0 }
}

fn dev(raw: i64) -> Option<DeviceId> {
    Some(DeviceId { raw })
}

#[test]
fn single_finger_down_moves_up_in_order() {
    let mut primary: Option<FingerId> = None;
    let d = dev(4);
    let mut all: Vec<WindowEvent> = Vec::new();
    all.extend(normalize_touch_point(&mut primary, d, TouchAction::Down, &point(7, 10, 20)));
    all.extend(normalize_touch_point(&mut primary, d, TouchAction::Move, &point(7, 11, 21)));
    all.extend(normalize_touch_point(&mut primary, d, TouchAction::Move, &point(7, 12, 22)));
    all.extend(normalize_touch_point(&mut primary, d, TouchAction::Up, &point(7, 13, 23)));

    assert_eq!(all.len(), 6);
    assert_eq!(
        all[0],
        WindowEvent::PointerEntered {
            device_id: d,
            position: PointerPosition { x: 10, y: 20 },
            primary: true,
            kind: PointerKind::Unknown,
        }
    );
    assert_eq!(
        all[1],
        WindowEvent::PointerButton {
            device_id: d,
            state: ElementState::Pressed,
            position: PointerPosition { x: 10, y: 20 },
            primary: true,
            button: ButtonSource::Unknown(0),
        }
    );
    assert_eq!(
        all[2],
        WindowEvent::PointerMoved {
            device_id: d,
            position: PointerPosition { x: 11, y: 21 },
            primary: true,
            source: PointerSource::Unknown,
        }
    );
    assert_eq!(
        all[3],
        WindowEvent::PointerMoved {
            device_id: d,
            position: PointerPosition { x: 12, y: 22 },
            primary: true,
            source: PointerSource::Unknown,
        }
    );
    assert_eq!(
        all[4],
        WindowEvent::PointerButton {
            device_id: d,
            state: ElementState::Released,
            position: PointerPosition { x: 13, y: 23 },
            primary: true,
            button: ButtonSource::Unknown(0),
        }
    );
    assert_eq!(
        all[5],
        WindowEvent::PointerLeft {
            device_id: d,
            position: Some(PointerPosition { x: 13, y: 23 }),
            primary: true,
            kind: PointerKind::Unknown,
        }
    );
    assert_eq!(primary, Some(FingerId { raw: 7 }));
}

#[test]
fn down_cancel_emits_no_release() {
    let mut primary: Option<FingerId> = None;
    let d = dev(1);
    let mut all: Vec<WindowEvent> = Vec::new();
    all.extend(normalize_touch_point(&mut primary, d, TouchAction::Down, &point(3, 5, 6)));
    all.extend(normalize_touch_point(&mut primary, d, TouchAction::Cancel, &point(3, 7, 8)));

    assert_eq!(all.len(), 3);
    assert!(matches!(all[0], WindowEvent::PointerEntered { .. }));
    assert!(matches!(
        all[1],
        WindowEvent::PointerButton { state: ElementState::Pressed, .. }
    ));
    assert_eq!(
        all[2],
        WindowEvent::PointerLeft {
            device_id: d,
            position: Some(PointerPosition { x: 7, y: 8 }),
            primary: true,
            kind: PointerKind::Unknown,
        }
    );
    // No Released event anywhere.
    assert!(!all.iter().any(|e| matches!(
        e,
        WindowEvent::PointerButton { state: ElementState::Released, .. }
    )));
}

#[test]
fn second_down_takes_primary() {
    let mut primary: Option<FingerId> = None;
    let d = dev(2);
    normalize_touch_point(&mut primary, d, TouchAction::Down, &point(1, 0, 0));
    normalize_touch_point(&mut primary, d, TouchAction::Down, &point(2, 0, 0));

    let move_a = normalize_touch_point(&mut primary, d, TouchAction::Move, &point(1, 9, 9));
    assert_eq!(
        move_a,
        vec![WindowEvent::PointerMoved {
            device_id: d,
            position: PointerPosition { x: 9, y: 9 },
            primary: false,
            source: PointerSource::Unknown,
        }]
    );

    let move_b = normalize_touch_point(&mut primary, d, TouchAction::Move, &point(2, 8, 8));
    assert_eq!(
        move_b,
        vec![WindowEvent::PointerMoved {
            device_id: d,
            position: PointerPosition { x: 8, y: 8 },
            primary: true,
            source: PointerSource::Unknown,
        }]
    );
}

#[test]
fn up_on_other_finger_keeps_primary_tracked() {
    let mut primary: Option<FingerId> = None;
    let d = dev(2);
    normalize_touch_point(&mut primary, d, TouchAction::Down, &point(1, 0, 0));
    normalize_touch_point(&mut primary, d, TouchAction::Down, &point(2, 0, 0));
    // Up on the non-primary finger reports primary=false and does not
    // reset the tracked finger.
    let up_a = normalize_touch_point(&mut primary, d, TouchAction::Up, &point(1, 1, 1));
    assert!(matches!(up_a[0], WindowEvent::PointerButton { primary: false, .. }));
    assert_eq!(primary, Some(FingerId { raw: 2 }));
}

#[test]
fn multi_point_touch_event_processes_points_in_order() {
    let mut primary: Option<FingerId> = None;
    let d = dev(6);
    let points = vec![point(10, 1, 1), point(11, 2, 2)];
    let events = normalize_touch_event(&mut primary, d, TouchAction::Down, &points);
    // Two events per contact, contacts in order; each Down is reported
    // primary, and the last one stays tracked.
    assert_eq!(events.len(), 4);
    assert!(matches!(
        events[0],
        WindowEvent::PointerEntered { position: PointerPosition { x: 1, y: 1 }, primary: true, .. }
    ));
    assert!(matches!(
        events[2],
        WindowEvent::PointerEntered { position: PointerPosition { x: 2, y: 2 }, primary: true, .. }
    ));
    assert_eq!(primary, Some(FingerId { raw: 11 }));
}

#[test]
fn key_down_is_pressed() {
    let rec = KeyEventRecord { device_id: 5, code: 40, action: KeyAction::Down };
    let e = normalize_key_event(&rec);
    match e {
        WindowEvent::KeyboardInput { device_id, event, is_synthetic } => {
            assert_eq!(device_id, Some(DeviceId { raw: 5 }));
            assert_eq!(event.code, 40);
            assert_eq!(event.state, ElementState::Pressed);
            assert!(!event.repeat);
            assert!(!is_synthetic);
        },
        other => panic!("expected keyboard input, got {other:?}"),
    }
}

#[test]
fn key_up_is_released() {
    let rec = KeyEventRecord { device_id: 5, code: 41, action: KeyAction::Up };
    match normalize_key_event(&rec) {
        WindowEvent::KeyboardInput { event, .. } => {
            assert_eq!(event.state, ElementState::Released)
        },
        other => panic!("expected keyboard input, got {other:?}"),
    }
}

#[test]
fn unknown_key_action_folds_to_released() {
    let rec = KeyEventRecord { device_id: 5, code: 42, action: KeyAction::Other };
    match normalize_key_event(&rec) {
        WindowEvent::KeyboardInput { event, .. } => {
            assert_eq!(event.state, ElementState::Released)
        },
        other => panic!("expected keyboard input, got {other:?}"),
    }
}

#[test]
fn unknown_input_emits_nothing() {
    let mut primary: Option<FingerId> = Some(FingerId { raw: 9 });
    let events = normalize_input(&mut primary, &InputEvent::Unknown);
    assert!(events.is_empty());
    assert_eq!(primary, Some(FingerId { raw: 9 }));
}

#[test]
fn touch_input_through_normalize_input() {
    let mut primary: Option<FingerId> = None;
    let record = TouchEventRecord {
        device_id: 3,
        action: TouchAction::Down,
        points: vec![point(1, 4, 4)],
    };
    let events = normalize_input(&mut primary, &InputEvent::Touch(record));
    assert_eq!(events.len(), 2);
    assert_eq!(primary, Some(FingerId { raw: 1 }));
}
