//! The raw device events the library reads and the two normalized shapes it
//! produces. A payload of type `V` is a device measurement (motion, scroll)
//! that the library moves into place without computing on it.
use vstd::prelude::*;

verus! {

/// Whether a key or button went down or came up.
#[derive(Clone, Copy, Debug, PartialEq, Eq, Structural)]
pub enum Transition {
    Pressed,
    Released,
}

/// One notification from an input device.
#[derive(Clone, Copy, Debug)]
pub enum RawEvent<V> {
    /// A keyboard key changed state.
    Key { code: u32, state: Transition },
    /// A pointer button changed state.
    Button { code: u32, state: Transition },
    /// Relative pointer motion, in device units.
    Motion { dx: V, dy: V },
    /// Continuous (touchpad style) scroll, in the device's native unit.
    ScrollContinuous { horizontal: V, vertical: V },
    /// Wheel scroll, already expressed in clicks (notches).
    ScrollWheel { horizontal: V, vertical: V },
    /// Any other kind of device event.
    Other,
}

/// A normalized pointer event: every field may be absent on its own.
#[derive(Clone, Debug)]
pub struct PointerEvent<V> {
    pub motion: Option<(V, V)>,
    pub scroll_continuous: Option<(V, V)>,
    pub scroll_discrete: Option<(V, V)>,
    pub buttons_released: Option<Vec<u32>>,
    pub buttons_pressed: Option<Vec<u32>>,
}

/// A normalized keyboard event: every field may be absent on its own.
#[derive(Clone, Debug)]
pub struct KeyEvent {
    pub keys_released: Option<Vec<u32>>,
    pub keys_pressed: Option<Vec<u32>>,
}

/// What one raw event becomes, tagged with the queue it is meant for.
#[derive(Clone, Debug)]
pub enum Normalized<V> {
    Pointer(PointerEvent<V>),
    Key(KeyEvent),
}

/// Mathematical model of a [`PointerEvent`].
pub struct PointerModel<V> {
    pub motion: Option<(V, V)>,
    pub scroll_continuous: Option<(V, V)>,
    pub scroll_discrete: Option<(V, V)>,
    pub buttons_released: Option<Seq<u32>>,
    pub buttons_pressed: Option<Seq<u32>>,
}

/// Mathematical model of a [`KeyEvent`].
pub struct KeyModel {
    pub keys_released: Option<Seq<u32>>,
    pub keys_pressed: Option<Seq<u32>>,
}

/// Mathematical model of a [`Normalized`] event.
pub enum NormalizedModel<V> {
    Pointer(PointerModel<V>),
    Key(KeyModel),
}

/// The contents of an optional list of codes.
pub open spec fn codes_view(o: Option<Vec<u32>>) -> Option<Seq<u32>> {
    match o {
        Some(v) => Some(v@),
        None => None,
    }
}

impl<V> View for PointerEvent<V> {
    type V = PointerModel<V>;

    open spec fn view(&self) -> PointerModel<V> {
        PointerModel {
            motion: self.motion,
            scroll_continuous: self.scroll_continuous,
            scroll_discrete: self.scroll_discrete,
            buttons_released: codes_view(self.buttons_released),
            buttons_pressed: codes_view(self.buttons_pressed),
        }
    }
}

impl View for KeyEvent {
    type V = KeyModel;

    open spec fn view(&self) -> KeyModel {
        KeyModel {
            keys_released: codes_view(self.keys_released),
            keys_pressed: codes_view(self.keys_pressed),
        }
    }
}

impl<V> View for Normalized<V> {
    type V = NormalizedModel<V>;

    open spec fn view(&self) -> NormalizedModel<V> {
        match self {
            Normalized::Pointer(p) => NormalizedModel::Pointer(p@),
            Normalized::Key(k) => NormalizedModel::Key(k@),
        }
    }
}

/// The model of an optional normalized event.
pub open spec fn normalized_view<V>(o: Option<Normalized<V>>) -> Option<NormalizedModel<V>> {
    match o {
        Some(n) => Some(n@),
        None => None,
    }
}

} // verus!
