//! Which user interface element is under the cursor ("hot") and which one
//! the left button went down on ("active"), and the events that come of
//! them: dragging the active element, and releasing the button over it.
//!
//! Screen positions are floating-point values, so the state is generic over
//! their type. The caller does the geometry: for each node of the interface
//! it says whether the node's box holds the cursor and where the cursor is
//! relative to the box, and it supplies the function that tells how far the
//! cursor moved.

use vstd::prelude::*;
use crate::ui_message::{same_message, UiMessage};

verus! {

/// What happened to an element: clicked, released, or dragged by a
/// distance.
#[derive(Debug, Clone, Copy)]
pub enum UiEventKind<V> {
    Click,
    Release,
    Drag(V),
}

/// An event on the element that sends `msg`, at `pos` relative to it.
#[derive(Debug, Clone)]
pub struct UiEvent<V> {
    pub msg: UiMessage,
    pub pos: V,
    pub kind: UiEventKind<V>,
}

impl<V> UiEvent<V> {
    fn click(msg: UiMessage, pos: V) -> (e: Self)
        ensures
            e == (UiEvent { msg, pos, kind: UiEventKind::<V>::Click }),
    {
        UiEvent { msg, pos, kind: UiEventKind::Click }
    }

    /// A release; it is reported with the kind of a click.
    fn release(msg: UiMessage, pos: V) -> (e: Self)
        ensures
            e == (UiEvent { msg, pos, kind: UiEventKind::<V>::Click }),
    {
        UiEvent { msg, pos, kind: UiEventKind::Click }
    }

    fn drag(msg: UiMessage, pos: V, delta: V) -> (e: Self)
        ensures
            e == (UiEvent { msg, pos, kind: UiEventKind::Drag(delta) }),
    {
        UiEvent { msg, pos, kind: UiEventKind::Drag(delta) }
    }
}

/// One node of the interface as seen from the cursor: whether its box
/// holds the cursor, the message it sends when clicked, if any, and the
/// cursor's position relative to the box's lower corner.
#[derive(Debug, Clone)]
pub struct NodeHit<V> {
    pub contains: bool,
    pub on_click: Option<UiMessage>,
    pub relative: V,
}

/// The left mouse button in this frame.
#[derive(Debug, Clone, Copy, PartialEq, Eq)]
pub struct LeftButton {
    pub just_pressed: bool,
    pub pressed: bool,
    pub just_released: bool,
}

/// Whether some node's box holds the cursor.
pub open spec fn any_contains<V>(nodes: Seq<NodeHit<V>>) -> bool {
    exists|i: int| 0 <= i < nodes.len() && #[trigger] nodes[i].contains
}

/// The last node, in order, that holds the cursor and sends a message: its
/// message and the cursor's position relative to it.
pub open spec fn last_hot<V>(nodes: Seq<NodeHit<V>>) -> Option<(UiMessage, V)>
    decreases nodes.len(),
{
    if nodes.len() == 0 {
        None
    } else {
        let n = nodes.last();
        if n.contains && n.on_click is Some {
            Some((n.on_click->0, n.relative))
        } else {
            last_hot(nodes.drop_last())
        }
    }
}

/// The drag of the active element by what `motion` reported, if anything.
pub open spec fn drag_event<V>(active: (UiMessage, V), moved: Option<V>) -> Option<UiEvent<V>> {
    match moved {
        Some(d) => Some(UiEvent { msg: active.0, pos: active.1, kind: UiEventKind::Drag(d) }),
        None => None,
    }
}

/// The cursor's state over the interface.
#[derive(Debug)]
pub struct UiInteractionState<V> {
    is_on_gui: bool,
    screen_pos: Option<V>,
    hot: Option<(UiMessage, V)>,
    active: Option<(UiMessage, V)>,
}

impl<V> Default for UiInteractionState<V> {
    fn default() -> (s: Self)
        ensures
            !s.spec_is_on_gui(),
            s.spec_screen_pos() is None,
            s.spec_hot() is None,
            s.spec_active() is None,
    {
        UiInteractionState { is_on_gui: false, screen_pos: None, hot: None, active: None }
    }
}

impl<V> UiInteractionState<V> {
    /// Whether the cursor was over some element of the interface.
    pub closed spec fn spec_is_on_gui(&self) -> bool {
        self.is_on_gui
    }

    /// Where the cursor was last seen.
    pub closed spec fn spec_screen_pos(&self) -> Option<V> {
        self.screen_pos
    }

    /// The element under the cursor, and the cursor relative to it.
    pub closed spec fn spec_hot(&self) -> Option<(UiMessage, V)> {
        self.hot
    }

    /// The element the button went down on, and where on it.
    pub closed spec fn spec_active(&self) -> Option<(UiMessage, V)> {
        self.active
    }

    /// Whether the cursor was over some element of the interface.
    pub fn is_on_gui(&self) -> (b: bool)
        ensures
            b == self.spec_is_on_gui(),
    {
        self.is_on_gui
    }

    /// The message of the element the button went down on.
    pub fn active(&self) -> (m: Option<&UiMessage>)
        ensures
            m == (match self.spec_active() {
                Some(a) => Some(&a.0),
                None => None,
            }),
    {
        match &self.active {
            Some(e) => Some(&e.0),
            None => None,
        }
    }

    /// The message of the element under the cursor.
    pub fn hot(&self) -> (m: Option<&UiMessage>)
        ensures
            m == (match self.spec_hot() {
                Some(h) => Some(&h.0),
                None => None,
            }),
    {
        match &self.hot {
            Some(e) => Some(&e.0),
            None => None,
        }
    }
}

/// The active element after the cursor passed over the nodes: the hot one
/// when the button just went down over one, else as it was.
pub open spec fn active_after_scan<V>(
    active: Option<(UiMessage, V)>,
    nodes: Seq<NodeHit<V>>,
    on_screen: bool,
    left: LeftButton,
) -> Option<(UiMessage, V)> {
    if on_screen && left.just_pressed && last_hot(nodes) is Some {
        last_hot(nodes)
    } else {
        active
    }
}

impl<V: Copy> UiInteractionState<V> {
    /// One frame of the cursor over the interface. With the cursor at
    /// `screen_pos`, the last node that holds it and sends a message
    /// becomes hot, and active too when the button just went down. While
    /// the button is held and the cursor moved, as `motion` tells from the
    /// last and the new position, the active element is dragged. When the
    /// button is released over the active element, it is released; the
    /// active element is then forgotten.
    pub fn update<F: Fn(V, V) -> Option<V>>(
        &mut self,
        nodes: &[NodeHit<V>],
        screen_pos: Option<V>,
        left: LeftButton,
        motion: F,
    ) -> (r: Option<UiEvent<V>>)
        requires
            forall|a: V, b: V| call_requires(motion, (a, b)),
        ensures
            final(self).spec_screen_pos() == screen_pos,
            final(self).spec_is_on_gui() == (screen_pos is Some && any_contains(nodes@)),
            final(self).spec_hot() == (if screen_pos is Some { last_hot(nodes@) } else { None }),
            final(self).spec_active() == (if left.just_released {
                None
            } else {
                active_after_scan(old(self).spec_active(), nodes@, screen_pos is Some, left)
            }),
            ({
                let a1 = active_after_scan(old(self).spec_active(), nodes@, screen_pos is Some, left);
                let h1 = final(self).spec_hot();
                let last = old(self).spec_screen_pos();
                if left.just_released && a1 is Some && h1 is Some && same_message((a1->0).0, (h1->0).0) {
                    r == Some(UiEvent { msg: (a1->0).0, pos: (a1->0).1, kind: UiEventKind::<V>::Click })
                } else if left.pressed && last is Some && screen_pos is Some && a1 is Some {
                    exists|o: Option<V>| call_ensures(motion, (last->0, screen_pos->0), o) && r == drag_event(a1->0, o)
                } else {
                    r is None
                }
            }),
    {
        self.is_on_gui = false;
        self.hot = None;
        let last_pos = self.screen_pos;
        self.screen_pos = screen_pos;
        let ghost a0 = self.active;

        if screen_pos.is_some() {
            let mut i: usize = 0;
            while i < nodes.len()
                invariant
                    i <= nodes@.len(),
                    self.screen_pos == screen_pos,
                    self.is_on_gui == (exists|k: int| 0 <= k < i && #[trigger] nodes@[k].contains),
                    self.hot == last_hot(nodes@.take(i as int)),
                    self.active == (if left.just_pressed && last_hot(nodes@.take(i as int)) is Some {
                        last_hot(nodes@.take(i as int))
                    } else {
                        a0
                    }),
                decreases nodes@.len() - i,
            {
                assert(nodes@.take(i + 1).drop_last() =~= nodes@.take(i as int));
                assert(nodes@.take(i + 1).last() == nodes@[i as int]);
                let node = &nodes[i];
                if node.contains {
                    self.is_on_gui = true;
                }
                match &node.on_click {
                    Some(onclick) => {
                        if node.contains {
                            self.hot = Some((onclick.clone(), node.relative));
                            if left.just_pressed {
                                self.active = Some((onclick.clone(), node.relative));
                            }
                        }
                    },
                    None => {},
                }
                i = i + 1;
            }
            assert(nodes@.take(nodes@.len() as int) =~= nodes@);
        }

        let ghost a1 = self.active;
        let mut ret: Option<UiEvent<V>> = None;
        if left.pressed {
            match (last_pos, self.screen_pos, &self.active) {
                (Some(last), Some(cur), Some(active)) => {
                    let moved = motion(last, cur);
                    if let Some(delta) = moved {
                        ret = Some(UiEvent::drag(active.0.clone(), active.1, delta));
                    }
                    assert(ret == drag_event(a1->0, moved));
                },
                _ => {},
            }
        }
        if left.just_released {
            match (&self.active, &self.hot) {
                (Some(active), Some(hot)) => {
                    if active.0.same_as(&hot.0) {
                        ret = Some(UiEvent::release(active.0.clone(), active.1));
                    }
                },
                _ => {},
            }
            self.active = None;
        }
        ret
    }
}

} // verus!
