//! Per-frame input as plain values: pointer buttons, modifier keys and the
//! interaction flags that a widget reports for one frame.
use vstd::prelude::*;

verus! {

/// A mouse button.
#[derive(Clone, Copy, Debug, PartialEq, Eq, Structural)]
pub enum PointerButton {
    /// Usually the left button.
    Primary,
    /// Usually the right button.
    Secondary,
    /// Usually the middle button (the scroll wheel).
    Middle,
    /// The first extra button.
    Extra1,
    /// The second extra button.
    Extra2,
}

/// One flag per pointer button.
#[derive(Clone, Copy, Debug, PartialEq, Eq, Structural)]
pub struct Buttons {
    pub primary: bool,
    pub secondary: bool,
    pub middle: bool,
    pub extra1: bool,
    pub extra2: bool,
}

impl Buttons {
    /// The flag of `button`.
    pub open spec fn has(&self, button: PointerButton) -> bool {
        match button {
            PointerButton::Primary => self.primary,
            PointerButton::Secondary => self.secondary,
            PointerButton::Middle => self.middle,
            PointerButton::Extra1 => self.extra1,
            PointerButton::Extra2 => self.extra2,
        }
    }

    /// No button flagged.
    pub fn none() -> (r: Buttons)
        ensures
            forall|b: PointerButton| !r.has(b),
    {
        Buttons { primary: false, secondary: false, middle: false, extra1: false, extra2: false }
    }

    /// Only `button` flagged.
    pub fn only(button: PointerButton) -> (r: Buttons)
        ensures
            forall|b: PointerButton| r.has(b) <==> b == button,
    {
        Buttons {
            primary: matches!(button, PointerButton::Primary),
            secondary: matches!(button, PointerButton::Secondary),
            middle: matches!(button, PointerButton::Middle),
            extra1: matches!(button, PointerButton::Extra1),
            extra2: matches!(button, PointerButton::Extra2),
        }
    }

    /// Whether `button` is flagged.
    #[verifier::when_used_as_spec(has)]
    pub fn contains(&self, button: PointerButton) -> (r: bool)
        ensures
            r == self.has(button),
    {
        match button {
            PointerButton::Primary => self.primary,
            PointerButton::Secondary => self.secondary,
            PointerButton::Middle => self.middle,
            PointerButton::Extra1 => self.extra1,
            PointerButton::Extra2 => self.extra2,
        }
    }
}

/// Modifier keys held during the frame.
#[derive(Clone, Copy, Debug, PartialEq, Eq, Structural)]
pub struct Modifiers {
    /// Either Alt (Option) key.
    pub alt: bool,
    /// Either Control key.
    pub ctrl: bool,
    /// Either Shift key.
    pub shift: bool,
    /// The Mac Command key.
    pub mac_cmd: bool,
    /// The platform's command key: Command on Mac, Control elsewhere.
    pub command: bool,
}

impl Modifiers {
    /// No modifier held.
    pub fn none() -> (r: Modifiers)
        ensures
            !r.alt && !r.ctrl && !r.shift && !r.mac_cmd && !r.command,
    {
        Modifiers { alt: false, ctrl: false, shift: false, mac_cmd: false, command: false }
    }
}

/// What the pointer's buttons did this frame.
#[derive(Clone, Copy, Debug, PartialEq, Eq, Structural)]
pub struct PointerSnapshot {
    /// Buttons held down.
    pub down: Buttons,
    /// Buttons released this frame after a click.
    pub clicked: Buttons,
    /// Buttons released this frame after a double click.
    pub double_clicked: Buttons,
    /// Buttons released this frame.
    pub released: Buttons,
}

impl PointerSnapshot {
    /// A pointer with no button held, clicked or released.
    pub fn idle() -> (r: PointerSnapshot)
        ensures
            forall|b: PointerButton|
                !r.down.has(b) && !r.clicked.has(b) && !r.double_clicked.has(b)
                    && !r.released.has(b),
    {
        PointerSnapshot {
            down: Buttons::none(),
            clicked: Buttons::none(),
            double_clicked: Buttons::none(),
            released: Buttons::none(),
        }
    }
}

/// The device state of one frame: modifiers, pointer buttons and whether
/// Escape was pressed.
#[derive(Clone, Copy, Debug, PartialEq, Eq, Structural)]
pub struct InputSnapshot {
    pub modifiers: Modifiers,
    pub pointer: PointerSnapshot,
    pub escape_pressed: bool,
}

/// The interaction flags a widget reports for one frame, with the pointer
/// state they are read against.
#[derive(Clone, Copy, Debug, PartialEq, Eq, Structural)]
pub struct ResponseState {
    /// The widget was clicked (by any button) this frame.
    pub clicked: bool,
    /// The widget was activated without the pointer (keyboard, accessibility).
    pub fake_primary_click: bool,
    /// A drag on the widget began this frame.
    pub drag_started: bool,
    /// The widget is being dragged.
    pub dragged: bool,
    /// A drag on the widget ended this frame.
    pub drag_stopped: bool,
    /// The pointer state of the frame.
    pub pointer: PointerSnapshot,
}

impl ResponseState {
    /// A response with no interaction.
    pub fn idle() -> (r: ResponseState)
        ensures
            !r.clicked && !r.fake_primary_click && !r.drag_started && !r.dragged
                && !r.drag_stopped,
            forall|b: PointerButton|
                !r.pointer.down.has(b) && !r.pointer.clicked.has(b)
                    && !r.pointer.double_clicked.has(b) && !r.pointer.released.has(b),
    {
        ResponseState {
            clicked: false,
            fake_primary_click: false,
            drag_started: false,
            dragged: false,
            drag_stopped: false,
            pointer: PointerSnapshot::idle(),
        }
    }

    pub open spec fn spec_clicked_by(&self, button: PointerButton) -> bool {
        self.clicked && self.pointer.clicked.has(button)
    }

    pub open spec fn spec_clicked(&self) -> bool {
        self.fake_primary_click || self.spec_clicked_by(PointerButton::Primary)
    }

    pub open spec fn spec_double_clicked(&self) -> bool {
        self.clicked && self.pointer.double_clicked.has(PointerButton::Primary)
    }

    pub open spec fn spec_drag_started_by(&self, button: PointerButton) -> bool {
        self.drag_started && self.pointer.down.has(button)
    }

    pub open spec fn spec_dragged_by(&self, button: PointerButton) -> bool {
        self.dragged && self.pointer.down.has(button)
    }

    pub open spec fn spec_drag_stopped_by(&self, button: PointerButton) -> bool {
        self.drag_stopped && self.pointer.released.has(button)
    }

    /// Clicked this frame by `button`.
    #[verifier::when_used_as_spec(spec_clicked_by)]
    pub fn clicked_by(&self, button: PointerButton) -> (r: bool)
        ensures
            r == self.spec_clicked_by(button),
    {
        self.clicked && self.pointer.clicked.contains(button)
    }

    /// Clicked this frame by the primary button, or activated without the pointer.
    #[verifier::when_used_as_spec(spec_clicked)]
    pub fn clicked(&self) -> (r: bool)
        ensures
            r == self.spec_clicked(),
    {
        self.fake_primary_click || self.clicked_by(PointerButton::Primary)
    }

    /// Double-clicked this frame by the primary button.
    #[verifier::when_used_as_spec(spec_double_clicked)]
    pub fn double_clicked(&self) -> (r: bool)
        ensures
            r == self.spec_double_clicked(),
    {
        self.clicked && self.pointer.double_clicked.contains(PointerButton::Primary)
    }

    /// A drag by `button` began this frame.
    #[verifier::when_used_as_spec(spec_drag_started_by)]
    pub fn drag_started_by(&self, button: PointerButton) -> (r: bool)
        ensures
            r == self.spec_drag_started_by(button),
    {
        self.drag_started && self.pointer.down.contains(button)
    }

    /// Being dragged by `button`.
    #[verifier::when_used_as_spec(spec_dragged_by)]
    pub fn dragged_by(&self, button: PointerButton) -> (r: bool)
        ensures
            r == self.spec_dragged_by(button),
    {
        self.dragged && self.pointer.down.contains(button)
    }

    /// A drag by `button` ended this frame.
    #[verifier::when_used_as_spec(spec_drag_stopped_by)]
    pub fn drag_stopped_by(&self, button: PointerButton) -> (r: bool)
        ensures
            r == self.spec_drag_stopped_by(button),
    {
        self.drag_stopped && self.pointer.released.contains(button)
    }
}

} // verus!
