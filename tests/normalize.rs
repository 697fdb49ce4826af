use eclipse::event::{Normalized, RawEvent, Transition};
use eclipse::normalize::{button_event, key_event, normalize, route_batch};

fn pointer(n: Option<Normalized<f32>>) -> eclipse::event::PointerEvent<f32> {
    match n {
        Some(Normalized::Pointer(p)) => p,
        other => panic!("expected a pointer event, got {:?}", other),
    }
}

fn key(n: Option<Normalized<f32>>) -> eclipse::event::KeyEvent {
    match n {
        Some(Normalized::Key(k)) => k,
        other => panic!("expected a key event, got {:?}", other),
    }
}

#[test]
fn motion_carries_vector_only() {
    let p = pointer(normalize(&RawEvent::Motion { dx: 5.0f32, dy: -3.0 }));
    assert_eq!(p.motion, Some((5.0, -3.0)));
    assert_eq!(p.scroll_continuous, None);
    assert_eq!(p.scroll_discrete, None);
    assert_eq!(p.buttons_released, None);
    assert_eq!(p.buttons_pressed, None);
}

#[test]
fn motion_keeps_fractional_units() {
    let p = pointer(normalize(&RawEvent::Motion { dx: 0.25f32, dy: 1e6 }));
    assert_eq!(p.motion, Some((0.25, 1e6)));
}

#[test]
fn continuous_scroll_carries_axes() {
    let p = pointer(normalize(&RawEvent::ScrollContinuous { horizontal: -1.5f32, vertical: 7.0 }));
    assert_eq!(p.scroll_continuous, Some((-1.5, 7.0)));
    assert_eq!(p.motion, None);
    assert_eq!(p.scroll_discrete, None);
}

#[test]
fn wheel_carries_clicks() {
    let p = pointer(normalize(&RawEvent::ScrollWheel { horizontal: 120.0f32 / 120.0, vertical: -240.0 / 120.0 }));
    assert_eq!(p.scroll_discrete, Some((1.0, -2.0)));
    assert_eq!(p.motion, None);
    assert_eq!(p.scroll_continuous, None);
}

#[test]
fn key_press_then_release_are_disjoint_singletons() {
    let down = key(normalize(&RawEvent::Key { code: 30, state: Transition::Pressed }));
    let up = key(normalize(&RawEvent::Key { code: 30, state: Transition::Released }));
    assert_eq!(down.keys_pressed, Some(vec![30]));
    assert_eq!(down.keys_released, None);
    assert_eq!(up.keys_released, Some(vec![30]));
    assert_eq!(up.keys_pressed, None);
}

#[test]
fn button_press_and_release() {
    let down = pointer(normalize(&RawEvent::Button { code: 272, state: Transition::Pressed }));
    assert_eq!(down.buttons_pressed, Some(vec![272]));
    assert_eq!(down.buttons_released, None);
    assert_eq!(down.motion, None);
    let up: eclipse::event::PointerEvent<f32> = button_event(273, Transition::Released);
    assert_eq!(up.buttons_released, Some(vec![273]));
    assert_eq!(up.buttons_pressed, None);
}

#[test]
fn key_event_largest_code() {
    let k = key_event(u32::MAX, Transition::Pressed);
    assert_eq!(k.keys_pressed, Some(vec![u32::MAX]));
    assert_eq!(k.keys_released, None);
}

#[test]
fn other_events_are_ignored() {
    assert!(normalize(&RawEvent::<f32>::Other).is_none());
}

#[test]
fn end_to_end_batch_routes_in_order() {
    let raws = vec![
        RawEvent::Key { code: 30, state: Transition::Pressed },
        RawEvent::Motion { dx: 5.0f32, dy: -3.0 },
        RawEvent::Key { code: 30, state: Transition::Released },
    ];
    let (pointers, keys) = route_batch(&raws);
    assert_eq!(keys.len(), 2);
    assert_eq!(keys[0].keys_pressed, Some(vec![30]));
    assert_eq!(keys[0].keys_released, None);
    assert_eq!(keys[1].keys_released, Some(vec![30]));
    assert_eq!(keys[1].keys_pressed, None);
    assert_eq!(pointers.len(), 1);
    assert_eq!(pointers[0].motion, Some((5.0, -3.0)));
    assert_eq!(pointers[0].buttons_pressed, None);
}

#[test]
fn empty_batch_routes_nothing() {
    let (pointers, keys) = route_batch::<f32>(&vec![]);
    assert!(pointers.is_empty());
    assert!(keys.is_empty());
}

#[test]
fn batch_skips_other_events() {
    let raws = vec![RawEvent::Other, RawEvent::Button { code: 1, state: Transition::Released }, RawEvent::Other];
    let (pointers, keys) = route_batch::<f32>(&raws);
    assert!(keys.is_empty());
    assert_eq!(pointers.len(), 1);
    assert_eq!(pointers[0].buttons_released, Some(vec![1]));
}
