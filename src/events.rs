//! Event interpretation: policies that turn one frame's input into named
//! graph gestures.
//!
//! [`GraphEvents`] has one method per gesture, each with the default rule as
//! its body; a policy overrides only the rules it changes.
//! [`DefaultGraphEvents`] keeps every default; [`ClickGraphEvents`] moves
//! nodes by a click to pick up and a click (or Escape) to put down.
use vstd::prelude::*;
use crate::input::{InputSnapshot, PointerButton, ResponseState};

verus! {

/// Which motion of the frame a gesture applies. The host reads the amounts
/// (they are screen-space deltas) and applies the chosen one.
#[derive(Clone, Copy, Debug, PartialEq, Eq, Structural)]
pub enum MoveDelta {
    /// No motion.
    Zero,
    /// The drag delta of the widget's response.
    Drag,
    /// The drag delta of the widget's response, negated.
    NegatedDrag,
    /// The raw pointer delta of the frame.
    Pointer,
}

/// A policy mapping raw input to graph gestures.
///
/// Background gestures read the response of the canvas background; node
/// gestures that of a node; wire gestures that of a pin or wire.
pub trait GraphEvents: Sized {
    /// Remove the hovered wire: secondary click on the background.
    fn remove_hovered_wire(
        &mut self,
        background_response: &ResponseState,
        input_state: &InputSnapshot,
    ) -> (r: bool)
        default_ensures
            r == background_response.clicked_by(PointerButton::Secondary),
            *final(self) == *old(self),
    {
        background_response.clicked_by(PointerButton::Secondary)
    }

    /// Start a box selection: primary drag begins on the background with Shift held.
    fn start_select_area(
        &mut self,
        background_response: &ResponseState,
        input_state: &InputSnapshot,
    ) -> (r: bool)
        default_ensures
            r == (background_response.drag_started_by(PointerButton::Primary)
                && input_state.modifiers.shift),
            *final(self) == *old(self),
    {
        background_response.drag_started_by(PointerButton::Primary) && input_state.modifiers.shift
    }

    /// Stop a box selection: primary drag ends on the background.
    fn stop_select_area(
        &mut self,
        background_response: &ResponseState,
        input_state: &InputSnapshot,
    ) -> (r: bool)
        default_ensures
            r == background_response.drag_stopped_by(PointerButton::Primary),
            *final(self) == *old(self),
    {
        background_response.drag_stopped_by(PointerButton::Primary)
    }

    /// Pan the canvas: primary drag on the background.
    fn move_area(
        &mut self,
        background_response: &ResponseState,
        input_state: &InputSnapshot,
    ) -> (r: bool)
        default_ensures
            r == background_response.dragged_by(PointerButton::Primary),
            *final(self) == *old(self),
    {
        background_response.dragged_by(PointerButton::Primary)
    }

    /// The motion that pans the canvas: the background's drag delta, negated.
    fn move_area_delta(
        &mut self,
        background_response: &ResponseState,
        input_state: &InputSnapshot,
    ) -> (r: MoveDelta)
        default_ensures
            r == MoveDelta::NegatedDrag,
            *final(self) == *old(self),
    {
        MoveDelta::NegatedDrag
    }

    /// Cancel the wire being drawn: the secondary button is held down.
    fn cancel_new_wire(
        &mut self,
        background_response: &ResponseState,
        input_state: &InputSnapshot,
    ) -> (r: bool)
        default_ensures
            r == input_state.pointer.down.has(PointerButton::Secondary),
            *final(self) == *old(self),
    {
        input_state.pointer.down.contains(PointerButton::Secondary)
    }

    /// Center the view: double click on the background.
    fn do_centering(
        &mut self,
        background_response: &ResponseState,
        input_state: &InputSnapshot,
    ) -> (r: bool)
        default_ensures
            r == background_response.double_clicked(),
            *final(self) == *old(self),
    {
        background_response.double_clicked()
    }

    /// Deselect every node: primary click on the background with the command key held.
    fn deselect_all_nodes(
        &mut self,
        background_response: &ResponseState,
        input_state: &InputSnapshot,
    ) -> (r: bool)
        default_ensures
            r == (input_state.modifiers.command && background_response.clicked_by(
                PointerButton::Primary,
            )),
            *final(self) == *old(self),
    {
        input_state.modifiers.command && background_response.clicked_by(PointerButton::Primary)
    }

    /// Move the node: primary drag on it with neither Shift nor the command key held.
    fn node_move(&mut self, response: &ResponseState, input_state: &InputSnapshot) -> (r: bool)
        default_ensures
            r == (!input_state.modifiers.shift && !input_state.modifiers.command
                && response.dragged_by(PointerButton::Primary)),
            *final(self) == *old(self),
    {
        !input_state.modifiers.shift && !input_state.modifiers.command && response.dragged_by(
            PointerButton::Primary,
        )
    }

    /// The motion that moves a node: the node's drag delta.
    fn node_move_delta(
        &mut self,
        response: &ResponseState,
        input_state: &InputSnapshot,
    ) -> (r: MoveDelta)
        default_ensures
            r == MoveDelta::Drag,
            *final(self) == *old(self),
    {
        MoveDelta::Drag
    }

    /// Add the node to the selection: primary click or drag on it with Shift held.
    fn select_one_node(
        &mut self,
        response: &ResponseState,
        input_state: &InputSnapshot,
    ) -> (r: bool)
        default_ensures
            r == ((response.clicked_by(PointerButton::Primary) || response.dragged_by(
                PointerButton::Primary,
            )) && input_state.modifiers.shift),
            *final(self) == *old(self),
    {
        (response.clicked_by(PointerButton::Primary) || response.dragged_by(PointerButton::Primary))
            && input_state.modifiers.shift
    }

    /// Remove the node from the selection: primary click or drag on it with the
    /// command key held.
    fn deselect_one_node(
        &mut self,
        response: &ResponseState,
        input_state: &InputSnapshot,
    ) -> (r: bool)
        default_ensures
            r == ((response.clicked_by(PointerButton::Primary) || response.dragged_by(
                PointerButton::Primary,
            )) && input_state.modifiers.command),
            *final(self) == *old(self),
    {
        (response.clicked_by(PointerButton::Primary) || response.dragged_by(PointerButton::Primary))
            && input_state.modifiers.command
    }

    /// Keep the node from being brought to the front: any click (by any
    /// button, or without the pointer) or drag on it.
    fn not_to_top(&mut self, response: &ResponseState, input_state: &InputSnapshot) -> (r: bool)
        default_ensures
            r == (response.clicked || response.fake_primary_click || response.dragged),
            *final(self) == *old(self),
    {
        response.clicked || response.fake_primary_click || response.dragged
    }

    /// Remove the wire (or drop the wire being drawn): secondary click on it.
    fn remove_wire(&mut self, response: &ResponseState, input_state: &InputSnapshot) -> (r: bool)
        default_ensures
            r == response.clicked_by(PointerButton::Secondary),
            *final(self) == *old(self),
    {
        response.clicked_by(PointerButton::Secondary)
    }

    /// Start dragging a wire: primary drag begins.
    fn start_drag_wire(
        &mut self,
        response: &ResponseState,
        input_state: &InputSnapshot,
    ) -> (r: bool)
        default_ensures
            r == response.drag_started_by(PointerButton::Primary),
            *final(self) == *old(self),
    {
        response.drag_started_by(PointerButton::Primary)
    }

    /// Stop dragging a wire: primary drag ends.
    fn stop_drag_wire(&mut self, response: &ResponseState, input_state: &InputSnapshot) -> (r: bool)
        default_ensures
            r == response.drag_stopped_by(PointerButton::Primary),
            *final(self) == *old(self),
    {
        response.drag_stopped_by(PointerButton::Primary)
    }

    /// Start a new wire from an output pin: primary drag begins with the command key held.
    fn start_new_wire_out(
        &mut self,
        response: &ResponseState,
        input_state: &InputSnapshot,
    ) -> (r: bool)
        default_ensures
            r == (response.drag_started_by(PointerButton::Primary)
                && input_state.modifiers.command),
            *final(self) == *old(self),
    {
        response.drag_started_by(PointerButton::Primary) && input_state.modifiers.command
    }

    /// Start a new wire into an input pin: primary drag begins without the command key.
    fn start_new_wire_in(
        &mut self,
        response: &ResponseState,
        input_state: &InputSnapshot,
    ) -> (r: bool)
        default_ensures
            r == (response.drag_started_by(PointerButton::Primary)
                && !input_state.modifiers.command),
            *final(self) == *old(self),
    {
        response.drag_started_by(PointerButton::Primary) && !input_state.modifiers.command
    }

    /// Drop every wire of the pin: primary drag begins with the command key held
    /// and Shift released.
    fn drop_inputs_pin(
        &mut self,
        response: &ResponseState,
        input_state: &InputSnapshot,
    ) -> (r: bool)
        default_ensures
            r == (response.drag_started_by(PointerButton::Primary) && input_state.modifiers.command
                && !input_state.modifiers.shift),
            *final(self) == *old(self),
    {
        response.drag_started_by(PointerButton::Primary) && input_state.modifiers.command
            && !input_state.modifiers.shift
    }
}

/// A policy as the editor takes it: a [`GraphEvents`] with no further
/// methods, the bound under which an editor holds its policy.
pub trait GraphEventsExtend: GraphEvents {

}

/// The default bindings: every rule of [`GraphEvents`] as written there.
#[derive(Debug, PartialEq, Eq, Structural)]
pub struct DefaultGraphEvents {}

impl DefaultGraphEvents {
    /// The default bindings.
    pub fn new() -> (r: DefaultGraphEvents)
        ensures
            r == (DefaultGraphEvents {  }),
    {
        DefaultGraphEvents {  }
    }
}

impl Default for DefaultGraphEvents {
    fn default() -> (r: DefaultGraphEvents)
        ensures
            r == (DefaultGraphEvents {  }),
    {
        DefaultGraphEvents {  }
    }
}

impl GraphEvents for DefaultGraphEvents {

}

impl GraphEventsExtend for DefaultGraphEvents {

}

/// What a [`ClickGraphEvents`] policy is carrying between frames.
#[derive(Clone, Copy, Debug, PartialEq, Eq, Structural)]
pub enum ItemDragged {
    /// Nothing picked up.
    Nothing,
    /// A node picked up: it follows the pointer.
    Node,
    /// A wire picked up.
    Wire,
}

impl Default for ItemDragged {
    fn default() -> (r: ItemDragged)
        ensures
            r == ItemDragged::Nothing,
    {
        ItemDragged::Nothing
    }
}

/// Moves nodes by clicks: a primary click with neither Shift nor the command
/// key picks the node up, it then follows the raw pointer motion every frame,
/// and Escape or another primary click puts it down. Every other gesture
/// keeps the default rule.
#[derive(Debug, PartialEq, Eq, Structural)]
pub struct ClickGraphEvents {
    drag: ItemDragged,
}

/// The rule of [`ClickGraphEvents::node_move`]: what it returns and what is
/// carried into the next frame.
pub open spec fn click_node_move(
    drag: ItemDragged,
    response: ResponseState,
    input_state: InputSnapshot,
) -> (bool, ItemDragged) {
    match drag {
        ItemDragged::Nothing => if !input_state.modifiers.shift && !input_state.modifiers.command
            && response.clicked_by(PointerButton::Primary) {
            (true, ItemDragged::Node)
        } else {
            (false, ItemDragged::Nothing)
        },
        ItemDragged::Node => if input_state.escape_pressed || response.clicked_by(
            PointerButton::Primary,
        ) {
            (false, ItemDragged::Nothing)
        } else {
            (true, ItemDragged::Node)
        },
        ItemDragged::Wire => (false, ItemDragged::Wire),
    }
}

impl ClickGraphEvents {
    /// The item being carried.
    pub closed spec fn mode(&self) -> ItemDragged {
        self.drag
    }

    /// A policy carrying nothing.
    pub fn new() -> (r: ClickGraphEvents)
        ensures
            r.mode() == ItemDragged::Nothing,
    {
        ClickGraphEvents { drag: ItemDragged::Nothing }
    }

    /// A policy carrying `item`, as restored from saved settings.
    pub fn with_item(item: ItemDragged) -> (r: ClickGraphEvents)
        ensures
            r.mode() == item,
    {
        ClickGraphEvents { drag: item }
    }

    /// The item being carried.
    pub fn dragged_item(&self) -> (r: ItemDragged)
        ensures
            r == self.mode(),
    {
        self.drag
    }
}

impl Default for ClickGraphEvents {
    fn default() -> (r: ClickGraphEvents)
        ensures
            r.mode() == ItemDragged::Nothing,
    {
        ClickGraphEvents::new()
    }
}

impl GraphEvents for ClickGraphEvents {
    /// Picks a node up on a plain primary click and reports it moving on every
    /// frame until Escape or a primary click puts it down.
    fn node_move(&mut self, response: &ResponseState, input_state: &InputSnapshot) -> (r: bool)
        ensures
            (r, final(self).mode()) == click_node_move(old(self).mode(), *response, *input_state),
    {
        match self.drag {
            ItemDragged::Nothing => {
                if !input_state.modifiers.shift && !input_state.modifiers.command
                    && response.clicked_by(PointerButton::Primary) {
                    self.drag = ItemDragged::Node;
                    true
                } else {
                    false
                }
            },
            ItemDragged::Node => {
                if input_state.escape_pressed || response.clicked_by(PointerButton::Primary) {
                    self.drag = ItemDragged::Nothing;
                    false
                } else {
                    true
                }
            },
            ItemDragged::Wire => false,
        }
    }

    /// The raw pointer motion while a node is carried, no motion otherwise.
    fn node_move_delta(
        &mut self,
        response: &ResponseState,
        input_state: &InputSnapshot,
    ) -> (r: MoveDelta)
        ensures
            r == (if old(self).mode() == ItemDragged::Node {
                MoveDelta::Pointer
            } else {
                MoveDelta::Zero
            }),
            *final(self) == *old(self),
    {
        if self.drag == ItemDragged::Node {
            MoveDelta::Pointer
        } else {
            MoveDelta::Zero
        }
    }
}

impl GraphEventsExtend for ClickGraphEvents {

}

/// A plain primary click picks a node up, and Escape on a later frame puts it
/// down: the first call reports the node moving, the second does not, and the
/// policy carries nothing afterwards.
pub proof fn lemma_click_pick_up_then_escape(
    first_response: ResponseState,
    first: InputSnapshot,
    second_response: ResponseState,
    second: InputSnapshot,
)
    requires
        first_response.clicked_by(PointerButton::Primary),
        !first.modifiers.shift,
        !first.modifiers.command,
        second.escape_pressed,
    ensures
        click_node_move(ItemDragged::Nothing, first_response, first) == (true, ItemDragged::Node),
        click_node_move(ItemDragged::Node, second_response, second) == (
            false,
            ItemDragged::Nothing,
        ),
{
}

} // verus!
