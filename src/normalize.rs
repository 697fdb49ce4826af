//! Stateless translation of raw device events into normalized events.
use vstd::prelude::*;
use crate::event::{
    KeyEvent, KeyModel, Normalized, NormalizedModel, PointerEvent, PointerModel, RawEvent,
    Transition, normalized_view,
};

verus! {

/// The codes that a transition places in the "released" list.
pub open spec fn released_codes(code: u32, state: Transition) -> Option<Seq<u32>> {
    if state == Transition::Released { Some(seq![code]) } else { None }
}

/// The codes that a transition places in the "pressed" list.
pub open spec fn pressed_codes(code: u32, state: Transition) -> Option<Seq<u32>> {
    if state == Transition::Pressed { Some(seq![code]) } else { None }
}

/// A pointer model with every field absent.
pub open spec fn empty_pointer<V>() -> PointerModel<V> {
    PointerModel {
        motion: None,
        scroll_continuous: None,
        scroll_discrete: None,
        buttons_released: None,
        buttons_pressed: None,
    }
}

/// What a raw event normalizes to, if anything.
pub open spec fn normalized<V>(raw: RawEvent<V>) -> Option<NormalizedModel<V>> {
    match raw {
        RawEvent::Key { code, state } => Some(
            NormalizedModel::Key(
                KeyModel {
                    keys_released: released_codes(code, state),
                    keys_pressed: pressed_codes(code, state),
                },
            ),
        ),
        RawEvent::Button { code, state } => Some(
            NormalizedModel::Pointer(
                PointerModel {
                    buttons_released: released_codes(code, state),
                    buttons_pressed: pressed_codes(code, state),
                    ..empty_pointer::<V>()
                },
            ),
        ),
        RawEvent::Motion { dx, dy } => Some(
            NormalizedModel::Pointer(PointerModel { motion: Some((dx, dy)), ..empty_pointer::<V>() }),
        ),
        RawEvent::ScrollContinuous { horizontal, vertical } => Some(
            NormalizedModel::Pointer(
                PointerModel { scroll_continuous: Some((horizontal, vertical)), ..empty_pointer() },
            ),
        ),
        RawEvent::ScrollWheel { horizontal, vertical } => Some(
            NormalizedModel::Pointer(
                PointerModel { scroll_discrete: Some((horizontal, vertical)), ..empty_pointer() },
            ),
        ),
        RawEvent::Other => None,
    }
}

/// A list holding `code` when `state` matches `wanted`, and nothing otherwise.
fn codes_if(code: u32, state: Transition, wanted: Transition) -> (r: Option<Vec<u32>>)
    ensures
        match r {
            Some(v) => state == wanted && v@ == seq![code],
            None => state != wanted,
        },
{
    if state == wanted {
        let v: Vec<u32> = vec![code];
        proof {
            assert(v@ =~= seq![code]);
        }
        Some(v)
    } else {
        None
    }
}

/// The key event for one key transition: the code lands in the released or
/// the pressed list, the other list stays absent.
pub fn key_event(code: u32, state: Transition) -> (r: KeyEvent)
    ensures
        r@ == (KeyModel {
            keys_released: released_codes(code, state),
            keys_pressed: pressed_codes(code, state),
        }),
{
    KeyEvent {
        keys_released: codes_if(code, state, Transition::Released),
        keys_pressed: codes_if(code, state, Transition::Pressed),
    }
}

/// The pointer event for one button transition; motion and scroll are absent.
pub fn button_event<V>(code: u32, state: Transition) -> (r: PointerEvent<V>)
    ensures
        r@ == (PointerModel {
            buttons_released: released_codes(code, state),
            buttons_pressed: pressed_codes(code, state),
            ..empty_pointer::<V>()
        }),
{
    PointerEvent {
        motion: None,
        scroll_continuous: None,
        scroll_discrete: None,
        buttons_released: codes_if(code, state, Transition::Released),
        buttons_pressed: codes_if(code, state, Transition::Pressed),
    }
}

/// Translates one raw event into at most one normalized event.
pub fn normalize<V: Copy>(raw: &RawEvent<V>) -> (r: Option<Normalized<V>>)
    ensures
        normalized_view(r) == normalized(*raw),
{
    match raw {
        RawEvent::Key { code, state } => Some(Normalized::Key(key_event(*code, *state))),
        RawEvent::Button { code, state } => Some(Normalized::Pointer(button_event(*code, *state))),
        RawEvent::Motion { dx, dy } => Some(
            Normalized::Pointer(
                PointerEvent {
                    motion: Some((*dx, *dy)),
                    scroll_continuous: None,
                    scroll_discrete: None,
                    buttons_released: None,
                    buttons_pressed: None,
                },
            ),
        ),
        RawEvent::ScrollContinuous { horizontal, vertical } => Some(
            Normalized::Pointer(
                PointerEvent {
                    motion: None,
                    scroll_continuous: Some((*horizontal, *vertical)),
                    scroll_discrete: None,
                    buttons_released: None,
                    buttons_pressed: None,
                },
            ),
        ),
        RawEvent::ScrollWheel { horizontal, vertical } => Some(
            Normalized::Pointer(
                PointerEvent {
                    motion: None,
                    scroll_continuous: None,
                    scroll_discrete: Some((*horizontal, *vertical)),
                    buttons_released: None,
                    buttons_pressed: None,
                },
            ),
        ),
        RawEvent::Other => None,
    }
}


/// The pointer events that a run of raw events yields, in order.
pub open spec fn pointer_stream<V>(raws: Seq<RawEvent<V>>) -> Seq<PointerModel<V>>
    decreases raws.len(),
{
    if raws.len() == 0 {
        Seq::empty()
    } else {
        let rest = pointer_stream(raws.drop_last());
        match normalized(raws.last()) {
            Some(NormalizedModel::Pointer(p)) => rest.push(p),
            _ => rest,
        }
    }
}

/// The key events that a run of raw events yields, in order.
pub open spec fn key_stream<V>(raws: Seq<RawEvent<V>>) -> Seq<KeyModel>
    decreases raws.len(),
{
    if raws.len() == 0 {
        Seq::empty()
    } else {
        let rest = key_stream(raws.drop_last());
        match normalized(raws.last()) {
            Some(NormalizedModel::Key(k)) => rest.push(k),
            _ => rest,
        }
    }
}

/// The models of a list of pointer events.
pub open spec fn pointer_models<V>(v: Seq<PointerEvent<V>>) -> Seq<PointerModel<V>> {
    v.map_values(|p: PointerEvent<V>| p@)
}

/// The models of a list of key events.
pub open spec fn key_models(v: Seq<KeyEvent>) -> Seq<KeyModel> {
    v.map_values(|k: KeyEvent| k@)
}

/// Normalizes a run of raw events and sorts the results by class: pointer
/// events for the pointer queue, key events for the keyboard queue, each in
/// the order the raw events came. Events of other kinds are left out.
pub fn route_batch<V: Copy>(raws: &Vec<RawEvent<V>>) -> (r: (Vec<PointerEvent<V>>, Vec<KeyEvent>))
    ensures
        pointer_models(r.0@) == pointer_stream(raws@),
        key_models(r.1@) == key_stream(raws@),
{
    let mut pointers: Vec<PointerEvent<V>> = Vec::new();
    let mut keys: Vec<KeyEvent> = Vec::new();
    let mut i: usize = 0;
    while i < raws.len()
        invariant
            i <= raws.len(),
            pointer_models(pointers@) == pointer_stream(raws@.subrange(0, i as int)),
            key_models(keys@) == key_stream(raws@.subrange(0, i as int)),
        decreases raws.len() - i,
    {
        let ghost before = raws@.subrange(0, i as int);
        let ghost old_pointers = pointers@;
        let ghost old_keys = keys@;
        let n = normalize(&raws[i]);
        match n {
            Some(Normalized::Pointer(p)) => {
                pointers.push(p);
            },
            Some(Normalized::Key(k)) => {
                keys.push(k);
            },
            None => {},
        }
        i = i + 1;
        proof {
            let after = raws@.subrange(0, i as int);
            assert(after.drop_last() =~= before);
            assert(after.last() == raws@[i - 1]);
            assert(pointer_models(pointers@) =~= pointer_stream(after)) by {
                if pointers@.len() > old_pointers.len() {
                    assert(pointers@ =~= old_pointers.push(pointers@.last()));
                } else {
                    assert(pointers@ =~= old_pointers);
                }
            }
            assert(key_models(keys@) =~= key_stream(after)) by {
                if keys@.len() > old_keys.len() {
                    assert(keys@ =~= old_keys.push(keys@.last()));
                } else {
                    assert(keys@ =~= old_keys);
                }
            }
        }
    }
    proof {
        assert(raws@.subrange(0, raws@.len() as int) =~= raws@);
    }
    (pointers, keys)
}

/// Relative motion normalizes to a pointer event that carries exactly that
/// motion vector, with every other field absent.
pub proof fn lemma_motion_only<V>(dx: V, dy: V)
    ensures
        normalized(RawEvent::Motion { dx, dy }) == Some(
            NormalizedModel::Pointer(
                PointerModel {
                    motion: Some((dx, dy)),
                    scroll_continuous: None,
                    scroll_discrete: None,
                    buttons_released: None,
                    buttons_pressed: None,
                },
            ),
        ),
{
}

/// Wheel scroll normalizes to a pointer event whose discrete scroll is the
/// wheel's click counts, with every other field absent.
pub proof fn lemma_wheel_only<V>(horizontal: V, vertical: V)
    ensures
        normalized(RawEvent::ScrollWheel { horizontal, vertical }) == Some(
            NormalizedModel::Pointer(
                PointerModel {
                    motion: None,
                    scroll_continuous: None,
                    scroll_discrete: Some((horizontal, vertical)),
                    buttons_released: None,
                    buttons_pressed: None,
                },
            ),
        ),
{
}

/// A press followed by a release of the same key gives two key events: the
/// first holds the code in its pressed list alone, the second in its released
/// list alone, so neither list is shared between them.
pub proof fn lemma_press_then_release<V>(code: u32)
    ensures
        key_stream(
            seq![
                RawEvent::<V>::Key { code, state: Transition::Pressed },
                RawEvent::<V>::Key { code, state: Transition::Released },
            ],
        ) == seq![
            KeyModel { keys_released: None, keys_pressed: Some(seq![code]) },
            KeyModel { keys_released: Some(seq![code]), keys_pressed: None },
        ],
{
    let raws = seq![
        RawEvent::<V>::Key { code, state: Transition::Pressed },
        RawEvent::<V>::Key { code, state: Transition::Released },
    ];
    let first = seq![raws[0]];
    assert(raws.drop_last() =~= first);
    assert(first.drop_last() =~= Seq::<RawEvent<V>>::empty());
    assert(key_stream(Seq::<RawEvent<V>>::empty()) == Seq::<KeyModel>::empty());
    assert(first.last() == raws[0]);
    assert(key_stream(first) =~= seq![
        KeyModel { keys_released: None, keys_pressed: Some(seq![code]) },
    ]);
    assert(key_stream(raws) =~= seq![
        KeyModel { keys_released: None, keys_pressed: Some(seq![code]) },
        KeyModel { keys_released: Some(seq![code]), keys_pressed: None },
    ]);
}

} // verus!
