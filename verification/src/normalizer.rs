//! Input normalization: native touch and key notifications become ordered
//! portable pointer and keyboard events.
//!
//! The one piece of state is the identity of the primary pointer.  Every
//! `Down` action makes its finger the primary one; `Move`, `Up` and
//! `Cancel` compare against (and do not reset) the tracked finger.  Per
//! native touch notification the contacts are processed in order, each one
//! observing the primary-pointer state its predecessors left behind.

use vstd::prelude::*;

use crate::events::{
    ButtonSource, DeviceId, ElementState, FingerId, InputEvent, KeyEvent, KeyEventExtra,
    KeyAction, KeyEventRecord, PointerKind, PointerPosition, PointerSource, TouchAction,
    TouchPoint, WindowEvent,
};

verus! {

/// The primary pointer after one touch action on the contact `id`.
pub open spec fn primary_after(
    previous: Option<FingerId>,
    action: TouchAction,
    id: FingerId,
) -> Option<FingerId> {
    match action {
        TouchAction::Down => Some(id),
        _ => previous,
    }
}

/// Whether the contact `id` is reported as primary for one touch action.
/// A `Down` always is (it just became the tracked finger); every other
/// action is primary exactly when `id` is the tracked finger.
pub open spec fn is_primary(previous: Option<FingerId>, action: TouchAction, id: FingerId) -> bool {
    match action {
        TouchAction::Down => true,
        _ => previous == Some(id),
    }
}

/// A pointer-entered event, with the placeholder `Unknown` pointer kind.
pub open spec fn entered_event(
    device_id: Option<DeviceId>,
    position: PointerPosition,
    primary: bool,
) -> WindowEvent {
    WindowEvent::PointerEntered { device_id, position, primary, kind: PointerKind::Unknown }
}

/// A pointer-button event, with the placeholder `Unknown(0)` button.
pub open spec fn button_event(
    device_id: Option<DeviceId>,
    state: ElementState,
    position: PointerPosition,
    primary: bool,
) -> WindowEvent {
    WindowEvent::PointerButton {
        device_id,
        state,
        position,
        primary,
        button: ButtonSource::Unknown(0),
    }
}

/// A pointer-moved event, with the placeholder `Unknown` pointer source.
pub open spec fn moved_event(
    device_id: Option<DeviceId>,
    position: PointerPosition,
    primary: bool,
) -> WindowEvent {
    WindowEvent::PointerMoved { device_id, position, primary, source: PointerSource::Unknown }
}

/// A pointer-left event, with the placeholder `Unknown` pointer kind.
pub open spec fn left_event(
    device_id: Option<DeviceId>,
    position: PointerPosition,
    primary: bool,
) -> WindowEvent {
    WindowEvent::PointerLeft {
        device_id,
        position: Some(position),
        primary,
        kind: PointerKind::Unknown,
    }
}

/// The portable events one touch contact produces: `Down` enters the
/// pointer and presses its button, `Move` moves it, `Up` releases the
/// button and leaves, `Cancel` leaves without a synthetic release.
pub open spec fn point_events(
    previous: Option<FingerId>,
    device_id: Option<DeviceId>,
    action: TouchAction,
    point: TouchPoint,
) -> Seq<WindowEvent> {
    let primary = is_primary(previous, action, point.id);
    match action {
        TouchAction::Down => seq![
            entered_event(device_id, point.position, primary),
            button_event(device_id, ElementState::Pressed, point.position, primary),
        ],
        TouchAction::Move => seq![moved_event(device_id, point.position, primary)],
        TouchAction::Up => seq![
            button_event(device_id, ElementState::Released, point.position, primary),
            left_event(device_id, point.position, primary),
        ],
        TouchAction::Cancel => seq![left_event(device_id, point.position, primary)],
    }
}

/// The primary pointer after a whole sequence of contacts, processed in
/// order under one action.
pub open spec fn primary_after_points(
    previous: Option<FingerId>,
    action: TouchAction,
    points: Seq<TouchPoint>,
) -> Option<FingerId>
    decreases points.len(),
{
    if points.len() == 0 {
        previous
    } else {
        primary_after_points(primary_after(previous, action, points[0].id), action, points.skip(1))
    }
}

/// The portable events a whole touch notification produces: the events of
/// each contact in order, each contact observing the primary-pointer state
/// its predecessors left behind.
pub open spec fn touch_events(
    previous: Option<FingerId>,
    device_id: Option<DeviceId>,
    action: TouchAction,
    points: Seq<TouchPoint>,
) -> Seq<WindowEvent>
    decreases points.len(),
{
    if points.len() == 0 {
        Seq::empty()
    } else {
        point_events(previous, device_id, action, points[0]) + touch_events(
            primary_after(previous, action, points[0].id),
            device_id,
            action,
            points.skip(1),
        )
    }
}

/// The element state a native key action folds to: `Down` presses, every
/// other action value (including the unknown ones) releases.
pub open spec fn key_state(action: KeyAction) -> ElementState {
    match action {
        KeyAction::Down => ElementState::Pressed,
        _ => ElementState::Released,
    }
}

/// The portable keyboard event of one native key notification.  `repeat`
/// is always `false` and the event is never synthetic.
pub open spec fn key_event_of(k: KeyEventRecord) -> WindowEvent {
    WindowEvent::KeyboardInput {
        device_id: Some(DeviceId { raw: k.device_id }),
        event: KeyEvent {
            code: k.code,
            state: key_state(k.action),
            repeat: false,
            platform_specific: KeyEventExtra {},
        },
        is_synthetic: false,
    }
}

/// The portable events of one native input notification.
pub open spec fn input_events(previous: Option<FingerId>, input: InputEvent) -> Seq<WindowEvent> {
    match input {
        InputEvent::Touch(t) => touch_events(
            previous,
            Some(DeviceId { raw: t.device_id }),
            t.action,
            t.points@,
        ),
        InputEvent::Key(k) => seq![key_event_of(k)],
        InputEvent::Unknown => Seq::empty(),
    }
}

/// The primary pointer after one native input notification.
pub open spec fn primary_after_input(
    previous: Option<FingerId>,
    input: InputEvent,
) -> Option<FingerId> {
    match input {
        InputEvent::Touch(t) => primary_after_points(previous, t.action, t.points@),
        _ => previous,
    }
}

/// Normalize one touch contact, updating the tracked primary pointer.
pub fn normalize_touch_point(
    primary_pointer: &mut Option<FingerId>,
    device_id: Option<DeviceId>,
    action: TouchAction,
    point: &TouchPoint,
) -> (events: Vec<WindowEvent>)
    ensures
        events@ == point_events(*old(primary_pointer), device_id, action, *point),
        *final(primary_pointer) == primary_after(*old(primary_pointer), action, point.id),
{
    let previous: Option<FingerId> = *primary_pointer;
    let primary: bool = match action {
        TouchAction::Down => true,
        _ => match previous {
            Some(p) => p.raw == point.id.raw,
            None => false,
        },
    };
    proof {
        assert(primary == is_primary(previous, action, point.id));
    }
    if let TouchAction::Down = action {
        *primary_pointer = Some(point.id);
    }
    let mut events: Vec<WindowEvent> = Vec::new();
    match action {
        TouchAction::Down => {
            events.push(WindowEvent::PointerEntered {
                device_id,
                position: point.position,
                primary,
                kind: PointerKind::Unknown,
            });
            events.push(WindowEvent::PointerButton {
                device_id,
                state: ElementState::Pressed,
                position: point.position,
                primary,
                button: ButtonSource::Unknown(0),
            });
        },
        TouchAction::Move => {
            events.push(WindowEvent::PointerMoved {
                device_id,
                position: point.position,
                primary,
                source: PointerSource::Unknown,
            });
        },
        TouchAction::Up => {
            events.push(WindowEvent::PointerButton {
                device_id,
                state: ElementState::Released,
                position: point.position,
                primary,
                button: ButtonSource::Unknown(0),
            });
            events.push(WindowEvent::PointerLeft {
                device_id,
                position: Some(point.position),
                primary,
                kind: PointerKind::Unknown,
            });
        },
        TouchAction::Cancel => {
            events.push(WindowEvent::PointerLeft {
                device_id,
                position: Some(point.position),
                primary,
                kind: PointerKind::Unknown,
            });
        },
    }
    proof {
        assert(events@ =~= point_events(previous, device_id, action, *point));
    }
    events
}

/// Normalize a whole touch notification: every contact in order, under the
/// notification's action.
pub fn normalize_touch_event(
    primary_pointer: &mut Option<FingerId>,
    device_id: Option<DeviceId>,
    action: TouchAction,
    points: &Vec<TouchPoint>,
) -> (events: Vec<WindowEvent>)
    ensures
        events@ == touch_events(*old(primary_pointer), device_id, action, points@),
        *final(primary_pointer) == primary_after_points(*old(primary_pointer), action, points@),
{
    let ghost initial: Option<FingerId> = *primary_pointer;
    let mut events: Vec<WindowEvent> = Vec::new();
    let mut i: usize = 0;
    proof {
        assert(points@.skip(0) =~= points@);
        assert(events@ + touch_events(initial, device_id, action, points@)
            =~= touch_events(initial, device_id, action, points@));
    }
    while i < points.len()
        invariant
            i <= points.len(),
            events@ + touch_events(*primary_pointer, device_id, action, points@.skip(i as int))
                == touch_events(initial, device_id, action, points@),
            primary_after_points(*primary_pointer, action, points@.skip(i as int))
                == primary_after_points(initial, action, points@),
        decreases points.len() - i,
    {
        let ghost before: Option<FingerId> = *primary_pointer;
        let point = points[i];
        let mut step = normalize_touch_point(primary_pointer, device_id, action, &point);
        proof {
            assert(points@.skip(i as int)[0] == points@[i as int]);
            assert(points@.skip(i as int).skip(1) =~= points@.skip(i as int + 1));
        }
        events.append(&mut step);
        i = i + 1;
    }
    proof {
        assert(points@.skip(points@.len() as int) =~= Seq::<TouchPoint>::empty());
        assert(events@ =~= events@ + Seq::<WindowEvent>::empty());
    }
    events
}

/// Normalize one native key notification.  Any action other than `Down`
/// folds to a released state; the translation is total and never fails.
pub fn normalize_key_event(k: &KeyEventRecord) -> (e: WindowEvent)
    ensures
        e == key_event_of(*k),
{
    let state = match k.action {
        KeyAction::Down => ElementState::Pressed,
        KeyAction::Up => ElementState::Released,
        KeyAction::Other => ElementState::Released,
    };
    WindowEvent::KeyboardInput {
        device_id: Some(DeviceId { raw: k.device_id }),
        event: KeyEvent {
            code: k.code,
            state,
            repeat: false,
            platform_specific: KeyEventExtra {},
        },
        is_synthetic: false,
    }
}

/// Normalize one native input notification, updating the tracked primary
/// pointer.  Unknown input produces no portable event.
pub fn normalize_input(
    primary_pointer: &mut Option<FingerId>,
    input: &InputEvent,
) -> (events: Vec<WindowEvent>)
    ensures
        events@ == input_events(*old(primary_pointer), *input),
        *final(primary_pointer) == primary_after_input(*old(primary_pointer), *input),
{
    match input {
        InputEvent::Touch(t) => {
            let device_id = Some(DeviceId { raw: t.device_id });
            normalize_touch_event(primary_pointer, device_id, t.action, &t.points)
        },
        InputEvent::Key(k) => {
            let mut events: Vec<WindowEvent> = Vec::new();
            events.push(normalize_key_event(k));
            proof {
                assert(events@ =~= seq![key_event_of(*k)]);
            }
            events
        },
        InputEvent::Unknown => {
            let events: Vec<WindowEvent> = Vec::new();
            proof {
                assert(events@ =~= Seq::<WindowEvent>::empty());
            }
            events
        },
    }
}

/// The portable events of a sequence of single-contact touch
/// notifications, each processed against the primary-pointer state its
/// predecessors left behind.
pub open spec fn run_actions(
    previous: Option<FingerId>,
    device_id: Option<DeviceId>,
    acts: Seq<(TouchAction, TouchPoint)>,
) -> Seq<WindowEvent>
    decreases acts.len(),
{
    if acts.len() == 0 {
        Seq::empty()
    } else {
        point_events(previous, device_id, acts[0].0, acts[0].1) + run_actions(
            primary_after(previous, acts[0].0, acts[0].1.id),
            device_id,
            acts.skip(1),
        )
    }
}

/// The primary pointer after a sequence of single-contact touch
/// notifications.
pub open spec fn primary_after_actions(
    previous: Option<FingerId>,
    acts: Seq<(TouchAction, TouchPoint)>,
) -> Option<FingerId>
    decreases acts.len(),
{
    if acts.len() == 0 {
        previous
    } else {
        primary_after_actions(primary_after(previous, acts[0].0, acts[0].1.id), acts.skip(1))
    }
}

/// While the finger `f` is the tracked primary pointer, a run of `Move`
/// actions on `f` emits exactly one primary `Moved` event per action and
/// leaves `f` primary.
proof fn lemma_moves_on_primary(
    f: FingerId,
    device_id: Option<DeviceId>,
    moves: Seq<TouchPoint>,
    tail: Seq<(TouchAction, TouchPoint)>,
)
    requires
        forall|j: int| 0 <= j < moves.len() ==> moves[j].id == f,
    ensures
        run_actions(
            Some(f),
            device_id,
            moves.map_values(|p: TouchPoint| (TouchAction::Move, p)) + tail,
        ) == moves.map_values(|p: TouchPoint| moved_event(device_id, p.position, true))
            + run_actions(Some(f), device_id, tail),
    decreases moves.len(),
{
    let acts = moves.map_values(|p: TouchPoint| (TouchAction::Move, p)) + tail;
    let emitted = moves.map_values(|p: TouchPoint| moved_event(device_id, p.position, true));
    if moves.len() == 0 {
        assert(acts =~= tail);
        assert(emitted + run_actions(Some(f), device_id, tail)
            =~= run_actions(Some(f), device_id, tail));
    } else {
        let m = moves[0];
        assert(acts[0] == (TouchAction::Move, m));
        assert(is_primary(Some(f), TouchAction::Move, m.id));
        assert(point_events(Some(f), device_id, TouchAction::Move, m)
            =~= seq![moved_event(device_id, m.position, true)]);
        assert(acts.skip(1)
            =~= moves.skip(1).map_values(|p: TouchPoint| (TouchAction::Move, p)) + tail);
        lemma_moves_on_primary(f, device_id, moves.skip(1), tail);
        assert(emitted =~= seq![moved_event(device_id, m.position, true)] + moves.skip(1)
            .map_values(|p: TouchPoint| moved_event(device_id, p.position, true)));
        assert(run_actions(Some(f), device_id, acts) =~= emitted + run_actions(
            Some(f),
            device_id,
            tail,
        ));
    }
}

/// A single-finger touch sequence `Down`, `Move`*, `Up` emits exactly
/// `PointerEntered`, `PointerButton(Pressed)`, one `PointerMoved` per
/// `Move`, `PointerButton(Released)`, `PointerLeft` — in that order, every
/// one of them reported as the primary pointer — and leaves that finger
/// tracked as primary, whatever pointer was tracked before.
pub proof fn lemma_single_finger_sequence(
    previous: Option<FingerId>,
    device_id: Option<DeviceId>,
    f: FingerId,
    down: TouchPoint,
    moves: Seq<TouchPoint>,
    up: TouchPoint,
)
    requires
        down.id == f,
        up.id == f,
        forall|j: int| 0 <= j < moves.len() ==> moves[j].id == f,
    ensures
        run_actions(
            previous,
            device_id,
            seq![(TouchAction::Down, down)]
                + moves.map_values(|p: TouchPoint| (TouchAction::Move, p))
                + seq![(TouchAction::Up, up)],
        ) == seq![
            entered_event(device_id, down.position, true),
            button_event(device_id, ElementState::Pressed, down.position, true),
        ] + moves.map_values(|p: TouchPoint| moved_event(device_id, p.position, true))
            + seq![
            button_event(device_id, ElementState::Released, up.position, true),
            left_event(device_id, up.position, true),
        ],
        primary_after_actions(
            previous,
            seq![(TouchAction::Down, down)]
                + moves.map_values(|p: TouchPoint| (TouchAction::Move, p))
                + seq![(TouchAction::Up, up)],
        ) == Some(f),
{
    let move_acts = moves.map_values(|p: TouchPoint| (TouchAction::Move, p));
    let up_acts = seq![(TouchAction::Up, up)];
    let acts = seq![(TouchAction::Down, down)] + move_acts + up_acts;
    let empty_acts = Seq::<(TouchAction, TouchPoint)>::empty();

    assert(run_actions(Some(f), device_id, empty_acts) == Seq::<WindowEvent>::empty());
    assert(primary_after_actions(Some(f), empty_acts) == Some(f));
    assert(up_acts[0] == (TouchAction::Up, up));
    assert(up_acts.skip(1) =~= empty_acts);
    assert(is_primary(Some(f), TouchAction::Up, up.id));
    assert(primary_after(Some(f), TouchAction::Up, up.id) == Some(f));
    assert(run_actions(Some(f), device_id, up_acts) =~= seq![
        button_event(device_id, ElementState::Released, up.position, true),
        left_event(device_id, up.position, true),
    ]);
    assert(primary_after_actions(Some(f), up_acts) == Some(f));

    lemma_moves_on_primary(f, device_id, moves, up_acts);
    lemma_primary_fixed_by_moves(f, moves, up_acts);

    assert(acts[0] == (TouchAction::Down, down));
    assert(acts.skip(1) =~= move_acts + up_acts);
    assert(point_events(previous, device_id, TouchAction::Down, down) =~= seq![
        entered_event(device_id, down.position, true),
        button_event(device_id, ElementState::Pressed, down.position, true),
    ]);
    assert(primary_after(previous, TouchAction::Down, down.id) == Some(f));
    assert(run_actions(previous, device_id, acts) == point_events(
        previous,
        device_id,
        TouchAction::Down,
        down,
    ) + run_actions(Some(f), device_id, move_acts + up_acts));
    assert(run_actions(previous, device_id, acts) =~= seq![
        entered_event(device_id, down.position, true),
        button_event(device_id, ElementState::Pressed, down.position, true),
    ] + moves.map_values(|p: TouchPoint| moved_event(device_id, p.position, true)) + seq![
        button_event(device_id, ElementState::Released, up.position, true),
        left_event(device_id, up.position, true),
    ]);
    assert(primary_after_actions(previous, acts)
        == primary_after_actions(Some(f), move_acts + up_acts));
    assert(primary_after_actions(previous, acts) == Some(f));
}

/// Helper for the single-finger laws: `Move` actions on the tracked finger
/// do not change the primary pointer.
proof fn lemma_primary_fixed_by_moves(
    f: FingerId,
    moves: Seq<TouchPoint>,
    tail: Seq<(TouchAction, TouchPoint)>,
)
    ensures
        primary_after_actions(
            Some(f),
            moves.map_values(|p: TouchPoint| (TouchAction::Move, p)) + tail,
        ) == primary_after_actions(Some(f), tail),
    decreases moves.len(),
{
    let acts = moves.map_values(|p: TouchPoint| (TouchAction::Move, p)) + tail;
    if moves.len() == 0 {
        assert(acts =~= tail);
    } else {
        assert(acts[0] == (TouchAction::Move, moves[0]));
        assert(acts.skip(1)
            =~= moves.skip(1).map_values(|p: TouchPoint| (TouchAction::Move, p)) + tail);
        lemma_primary_fixed_by_moves(f, moves.skip(1), tail);
    }
}

/// A touch sequence `Down`, `Cancel` on one finger emits exactly
/// `PointerEntered`, `PointerButton(Pressed)`, `PointerLeft` — and no
/// `PointerButton(Released)`.
pub proof fn lemma_down_then_cancel(
    previous: Option<FingerId>,
    device_id: Option<DeviceId>,
    down: TouchPoint,
    cancel: TouchPoint,
)
    requires
        cancel.id == down.id,
    ensures
        run_actions(
            previous,
            device_id,
            seq![(TouchAction::Down, down), (TouchAction::Cancel, cancel)],
        ) == seq![
            entered_event(device_id, down.position, true),
            button_event(device_id, ElementState::Pressed, down.position, true),
            left_event(device_id, cancel.position, true),
        ],
{
    let acts = seq![(TouchAction::Down, down), (TouchAction::Cancel, cancel)];
    let cancel_acts = seq![(TouchAction::Cancel, cancel)];
    let empty_acts = Seq::<(TouchAction, TouchPoint)>::empty();
    assert(run_actions(Some(down.id), device_id, empty_acts) == Seq::<WindowEvent>::empty());
    assert(cancel_acts[0] == (TouchAction::Cancel, cancel));
    assert(cancel_acts.skip(1) =~= empty_acts);
    assert(is_primary(Some(down.id), TouchAction::Cancel, cancel.id));
    assert(run_actions(Some(down.id), device_id, cancel_acts)
        =~= seq![left_event(device_id, cancel.position, true)]);
    assert(acts[0] == (TouchAction::Down, down));
    assert(acts.skip(1) =~= cancel_acts);
    assert(run_actions(previous, device_id, acts) == point_events(
        previous,
        device_id,
        TouchAction::Down,
        down,
    ) + run_actions(Some(down.id), device_id, cancel_acts));
    assert(run_actions(previous, device_id, acts) =~= seq![
        entered_event(device_id, down.position, true),
        button_event(device_id, ElementState::Pressed, down.position, true),
        left_event(device_id, cancel.position, true),
    ]);
}

/// After a `Down` on finger `a` followed by a `Down` on finger `b`, a
/// `Move` on `a` is reported as not primary and a `Move` on `b` as
/// primary: only the most recent `Down` owns the primary pointer.
pub proof fn lemma_second_down_takes_primary(
    previous: Option<FingerId>,
    device_id: Option<DeviceId>,
    a: TouchPoint,
    b: TouchPoint,
    move_a: TouchPoint,
    move_b: TouchPoint,
)
    requires
        a.id != b.id,
        move_a.id == a.id,
        move_b.id == b.id,
    ensures
        primary_after_actions(previous, seq![(TouchAction::Down, a), (TouchAction::Down, b)])
            == Some(b.id),
        point_events(Some(b.id), device_id, TouchAction::Move, move_a)
            == seq![moved_event(device_id, move_a.position, false)],
        point_events(Some(b.id), device_id, TouchAction::Move, move_b)
            == seq![moved_event(device_id, move_b.position, true)],
{
    let acts = seq![(TouchAction::Down, a), (TouchAction::Down, b)];
    let second = seq![(TouchAction::Down, b)];
    let empty_acts = Seq::<(TouchAction, TouchPoint)>::empty();
    assert(primary_after_actions(Some(b.id), empty_acts) == Some(b.id));
    assert(second[0] == (TouchAction::Down, b));
    assert(second.skip(1) =~= empty_acts);
    assert(primary_after_actions(Some(a.id), second) == Some(b.id));
    assert(acts[0] == (TouchAction::Down, a));
    assert(acts.skip(1) =~= second);
    assert(primary_after_actions(previous, acts) == Some(b.id));
    assert(!is_primary(Some(b.id), TouchAction::Move, move_a.id));
    assert(point_events(Some(b.id), device_id, TouchAction::Move, move_a)
        =~= seq![moved_event(device_id, move_a.position, false)]);
    assert(point_events(Some(b.id), device_id, TouchAction::Move, move_b)
        =~= seq![moved_event(device_id, move_b.position, true)]);
}

/// Any key action value other than `Down` — `Up` included, and every
/// unknown value the native side may carry — folds to a released state:
/// the translation never reports `Pressed` for it.
pub proof fn lemma_key_action_folds_to_released(action: KeyAction)
    ensures
        action != KeyAction::Down ==> key_state(action) == ElementState::Released,
{
}

} // verus!
