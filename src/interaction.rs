//! The per-frame interaction state machine.
//!
//! Each frame the policy's answers for the pin, node and background responses
//! are gathered into [`FrameSignals`]; [`winning_gesture`] picks the one
//! gesture that owns the frame (pin over node over background). A wire being
//! drawn is the one piece of state carried across frames ([`WireDraft`]);
//! the selection follows the node gestures ([`update_selection`]).
use vstd::prelude::*;
use crate::selection::Selection;
use crate::wires::{InPinId, OutPinId, Wire};

verus! {

/// What the policy reported this frame, grouped by the widget that owns each gesture.
#[derive(Clone, Copy, Debug, PartialEq, Eq, Structural)]
pub struct FrameSignals {
    /// A pin asks to remove its wire.
    pub remove_wire: bool,
    /// A pin starts a new wire.
    pub start_new_wire: bool,
    /// A node is added to the selection.
    pub select_one_node: bool,
    /// A node is removed from the selection.
    pub deselect_one_node: bool,
    /// Nodes are moved.
    pub node_move: bool,
    /// Every node is deselected.
    pub deselect_all_nodes: bool,
    /// A box selection starts.
    pub start_select_area: bool,
    /// The canvas is panned.
    pub move_area: bool,
}

impl FrameSignals {
    /// No gesture reported.
    pub fn quiet() -> (r: FrameSignals)
        ensures
            !r.remove_wire && !r.start_new_wire && !r.select_one_node && !r.deselect_one_node
                && !r.node_move && !r.deselect_all_nodes && !r.start_select_area && !r.move_area,
    {
        FrameSignals {
            remove_wire: false,
            start_new_wire: false,
            select_one_node: false,
            deselect_one_node: false,
            node_move: false,
            deselect_all_nodes: false,
            start_select_area: false,
            move_area: false,
        }
    }
}

/// The one gesture that owns a frame.
#[derive(Clone, Copy, Debug, PartialEq, Eq, Structural)]
pub enum Gesture {
    Idle,
    RemoveWire,
    DrawNewWire,
    SelectNode,
    DeselectNode,
    MoveNodes,
    DeselectAll,
    BoxSelect,
    Pan,
}

/// The first reported gesture in order of precedence: pin gestures, then
/// node gestures, then background gestures.
pub open spec fn frame_gesture(s: FrameSignals) -> Gesture {
    if s.remove_wire {
        Gesture::RemoveWire
    } else if s.start_new_wire {
        Gesture::DrawNewWire
    } else if s.select_one_node {
        Gesture::SelectNode
    } else if s.deselect_one_node {
        Gesture::DeselectNode
    } else if s.node_move {
        Gesture::MoveNodes
    } else if s.deselect_all_nodes {
        Gesture::DeselectAll
    } else if s.start_select_area {
        Gesture::BoxSelect
    } else if s.move_area {
        Gesture::Pan
    } else {
        Gesture::Idle
    }
}

/// A pin gesture reported this frame.
pub open spec fn pin_claims(s: FrameSignals) -> bool {
    s.remove_wire || s.start_new_wire
}

/// A node gesture reported this frame.
pub open spec fn node_claims(s: FrameSignals) -> bool {
    s.select_one_node || s.deselect_one_node || s.node_move
}

/// Picks the gesture that owns the frame.
pub fn winning_gesture(s: &FrameSignals) -> (g: Gesture)
    ensures
        g == frame_gesture(*s),
{
    if s.remove_wire {
        Gesture::RemoveWire
    } else if s.start_new_wire {
        Gesture::DrawNewWire
    } else if s.select_one_node {
        Gesture::SelectNode
    } else if s.deselect_one_node {
        Gesture::DeselectNode
    } else if s.node_move {
        Gesture::MoveNodes
    } else if s.deselect_all_nodes {
        Gesture::DeselectAll
    } else if s.start_select_area {
        Gesture::BoxSelect
    } else if s.move_area {
        Gesture::Pan
    } else {
        Gesture::Idle
    }
}

/// A pin gesture always wins over node and background gestures, and a node
/// gesture over background gestures; a background gesture wins only when no
/// pin or node claims the frame.
pub proof fn lemma_gesture_precedence(s: FrameSignals)
    ensures
        pin_claims(s) ==> (frame_gesture(s) == Gesture::RemoveWire || frame_gesture(s)
            == Gesture::DrawNewWire),
        !pin_claims(s) && node_claims(s) ==> (frame_gesture(s) == Gesture::SelectNode
            || frame_gesture(s) == Gesture::DeselectNode || frame_gesture(s)
            == Gesture::MoveNodes),
        (frame_gesture(s) == Gesture::DeselectAll || frame_gesture(s) == Gesture::BoxSelect
            || frame_gesture(s) == Gesture::Pan) ==> !pin_claims(s) && !node_claims(s),
{
}

/// The selection after the frame's gesture: a node gesture on `node` adds
/// or removes it, deselecting all empties it, any other gesture keeps it.
pub open spec fn selection_after(selected: Set<u64>, gesture: Gesture, node: Option<u64>) -> Set<u64> {
    match (gesture, node) {
        (Gesture::SelectNode, Some(n)) => selected.insert(n),
        (Gesture::DeselectNode, Some(n)) => selected.remove(n),
        (Gesture::DeselectAll, _) => Set::empty(),
        _ => selected,
    }
}

/// Applies the frame's gesture to the selection; `node` is the node whose
/// response reported it.
pub fn update_selection(selection: &mut Selection, gesture: Gesture, node: Option<u64>)
    requires
        old(selection).wf(),
    ensures
        final(selection).wf(),
        final(selection)@ == selection_after(old(selection)@, gesture, node),
{
    match (gesture, node) {
        (Gesture::SelectNode, Some(n)) => {
            selection.select(n);
        },
        (Gesture::DeselectNode, Some(n)) => {
            selection.deselect(n);
        },
        (Gesture::DeselectAll, _) => {
            selection.clear();
        },
        _ => {},
    }
}

/// A pin of either kind.
#[derive(Clone, Copy, Debug, PartialEq, Eq, Structural)]
pub enum AnyPin {
    Out(OutPinId),
    In(InPinId),
}

/// The wire joining `from` to `to`, if one is an output and the other an input.
pub open spec fn wire_between(from: AnyPin, to: AnyPin) -> Option<Wire> {
    match (from, to) {
        (AnyPin::Out(out_pin), AnyPin::In(in_pin)) => Some(Wire { out_pin, in_pin }),
        (AnyPin::In(in_pin), AnyPin::Out(out_pin)) => Some(Wire { out_pin, in_pin }),
        _ => None,
    }
}

/// One frame of drawing a wire: the pin still being drawn from afterwards,
/// and the wire to ask the host for.
///
/// Nothing happens without a wire being drawn. Cancelling drops it. While the
/// drag goes on it is kept. When the drag ends it is dropped, and the wire to
/// the hovered pin is asked for if that pin is of the other kind.
pub open spec fn draft_step(
    pending: Option<AnyPin>,
    cancel: bool,
    released: bool,
    hovered: Option<AnyPin>,
) -> (Option<AnyPin>, Option<Wire>) {
    match pending {
        None => (None, None),
        Some(from) => if cancel {
            (None, None)
        } else if !released {
            (Some(from), None)
        } else {
            match hovered {
                Some(to) => (None, wire_between(from, to)),
                None => (None, None),
            }
        },
    }
}

/// Joins two pins of different kinds.
pub fn join(from: AnyPin, to: AnyPin) -> (r: Option<Wire>)
    ensures
        r == wire_between(from, to),
{
    match (from, to) {
        (AnyPin::Out(out_pin), AnyPin::In(in_pin)) => Some(Wire { out_pin, in_pin }),
        (AnyPin::In(in_pin), AnyPin::Out(out_pin)) => Some(Wire { out_pin, in_pin }),
        _ => None,
    }
}

/// The wire being drawn, carried across frames.
pub struct WireDraft {
    pending: Option<AnyPin>,
}

impl WireDraft {
    /// The pin the wire is drawn from, if one is being drawn.
    pub closed spec fn from_pin(&self) -> Option<AnyPin> {
        self.pending
    }

    /// No wire being drawn.
    pub fn new() -> (r: WireDraft)
        ensures
            r.from_pin() == None::<AnyPin>,
    {
        WireDraft { pending: None }
    }

    /// The pin the wire is drawn from, if one is being drawn.
    pub fn pending(&self) -> (r: Option<AnyPin>)
        ensures
            r == self.from_pin(),
    {
        self.pending
    }

    /// Starts drawing a wire from `pin`, replacing any wire being drawn.
    pub fn start(&mut self, pin: AnyPin)
        ensures
            final(self).from_pin() == Some(pin),
    {
        self.pending = Some(pin);
    }

    /// Advances one frame: `cancel` is the policy's cancel signal, `released`
    /// whether the drag ended, `hovered` the pin under the pointer. Returns the
    /// wire to ask the host for.
    pub fn step(&mut self, cancel: bool, released: bool, hovered: Option<AnyPin>) -> (r: Option<Wire>)
        ensures
            (final(self).from_pin(), r) == draft_step(old(self).from_pin(), cancel, released, hovered),
    {
        match self.pending {
            None => None,
            Some(from) => {
                if cancel {
                    self.pending = None;
                    None
                } else if !released {
                    None
                } else {
                    self.pending = None;
                    match hovered {
                        Some(to) => join(from, to),
                        None => None,
                    }
                }
            },
        }
    }
}

/// Cancelling a wire being drawn discards it: no wire is asked for, even when
/// the drag ends over a pin that could take it in the same frame.
pub proof fn lemma_cancel_discards_wire(
    pending: Option<AnyPin>,
    released: bool,
    hovered: Option<AnyPin>,
)
    ensures
        draft_step(pending, true, released, hovered) == (None::<AnyPin>, None::<Wire>),
{
}

} // verus!
