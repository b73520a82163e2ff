use snarl_input::events::{
    ClickGraphEvents, DefaultGraphEvents, GraphEvents, ItemDragged, MoveDelta,
};
use snarl_input::input::{
    Buttons, InputSnapshot, Modifiers, PointerButton, PointerSnapshot, ResponseState,
};
use snarl_input::interaction::{winning_gesture, FrameSignals, Gesture};

fn input(modifiers: Modifiers, pointer: PointerSnapshot) -> InputSnapshot {
    InputSnapshot { modifiers, pointer, escape_pressed: false }
}

fn drag_start(button: PointerButton) -> ResponseState {
    let mut r = ResponseState::idle();
    r.drag_started = true;
    r.dragged = true;
    r.pointer.down = Buttons::only(button);
    r
}

fn click(button: PointerButton) -> ResponseState {
    let mut r = ResponseState::idle();
    r.clicked = true;
    r.pointer.clicked = Buttons::only(button);
    r.pointer.released = Buttons::only(button);
    r
}

fn shift() -> Modifiers {
    let mut m = Modifiers::none();
    m.shift = true;
    m
}

fn command() -> Modifiers {
    let mut m = Modifiers::none();
    m.ctrl = true;
    m.command = true;
    m
}

#[test]
fn shift_drag_on_background_starts_box_select() {
    let mut events = DefaultGraphEvents::new();
    let background = drag_start(PointerButton::Primary);
    let state = input(shift(), background.pointer);
    assert!(events.start_select_area(&background, &state));
    assert!(!events.node_move(&background, &state));
    assert!(events.move_area(&background, &state));

    let mut signals = FrameSignals::quiet();
    signals.start_select_area = events.start_select_area(&background, &state);
    signals.move_area = events.move_area(&background, &state);
    signals.node_move = events.node_move(&ResponseState::idle(), &state);
    assert_eq!(winning_gesture(&signals), Gesture::BoxSelect);
}

#[test]
fn plain_drag_on_background_pans() {
    let mut events = DefaultGraphEvents::default();
    let background = drag_start(PointerButton::Primary);
    let state = input(Modifiers::none(), background.pointer);
    assert!(!events.start_select_area(&background, &state));
    assert!(events.move_area(&background, &state));
    assert_eq!(events.move_area_delta(&background, &state), MoveDelta::NegatedDrag);
}

#[test]
fn secondary_drag_does_not_pan() {
    let mut events = DefaultGraphEvents::new();
    let background = drag_start(PointerButton::Secondary);
    let state = input(Modifiers::none(), background.pointer);
    assert!(!events.move_area(&background, &state));
    assert!(events.cancel_new_wire(&background, &state));
}

#[test]
fn secondary_click_removes_wires() {
    let mut events = DefaultGraphEvents::new();
    let r = click(PointerButton::Secondary);
    let state = input(Modifiers::none(), r.pointer);
    assert!(events.remove_hovered_wire(&r, &state));
    assert!(events.remove_wire(&r, &state));
    let p = click(PointerButton::Primary);
    let state = input(Modifiers::none(), p.pointer);
    assert!(!events.remove_hovered_wire(&p, &state));
    assert!(!events.remove_wire(&p, &state));
}

#[test]
fn drag_stop_ends_box_select_and_wire_drag() {
    let mut events = DefaultGraphEvents::new();
    let mut r = ResponseState::idle();
    r.drag_stopped = true;
    r.pointer.released = Buttons::only(PointerButton::Primary);
    let state = input(Modifiers::none(), r.pointer);
    assert!(events.stop_select_area(&r, &state));
    assert!(events.stop_drag_wire(&r, &state));
    r.pointer.released = Buttons::only(PointerButton::Secondary);
    assert!(!events.stop_select_area(&r, &state));
    assert!(!events.stop_drag_wire(&r, &state));
}

#[test]
fn double_click_centers() {
    let mut events = DefaultGraphEvents::new();
    let mut r = click(PointerButton::Primary);
    let state = input(Modifiers::none(), r.pointer);
    assert!(!events.do_centering(&r, &state));
    r.pointer.double_clicked = Buttons::only(PointerButton::Primary);
    assert!(events.do_centering(&r, &state));
}

#[test]
fn command_click_deselects_all() {
    let mut events = DefaultGraphEvents::new();
    let r = click(PointerButton::Primary);
    assert!(events.deselect_all_nodes(&r, &input(command(), r.pointer)));
    assert!(!events.deselect_all_nodes(&r, &input(Modifiers::none(), r.pointer)));
}

#[test]
fn node_rules_follow_modifiers() {
    let mut events = DefaultGraphEvents::new();
    let drag = drag_start(PointerButton::Primary);
    let plain = input(Modifiers::none(), drag.pointer);
    assert!(events.node_move(&drag, &plain));
    assert_eq!(events.node_move_delta(&drag, &plain), MoveDelta::Drag);
    assert!(!events.select_one_node(&drag, &plain));
    assert!(!events.deselect_one_node(&drag, &plain));
    assert!(events.not_to_top(&drag, &plain));

    let with_shift = input(shift(), drag.pointer);
    assert!(!events.node_move(&drag, &with_shift));
    assert!(events.select_one_node(&drag, &with_shift));

    let c = click(PointerButton::Primary);
    let with_command = input(command(), c.pointer);
    assert!(events.deselect_one_node(&c, &with_command));
    assert!(!events.node_move(&c, &with_command));
    assert!(events.not_to_top(&c, &with_command));
    assert!(!events.not_to_top(&ResponseState::idle(), &with_command));
}

#[test]
fn pin_rules_follow_command_and_shift() {
    let mut events = DefaultGraphEvents::new();
    let drag = drag_start(PointerButton::Primary);
    let plain = input(Modifiers::none(), drag.pointer);
    assert!(events.start_drag_wire(&drag, &plain));
    assert!(events.start_new_wire_in(&drag, &plain));
    assert!(!events.start_new_wire_out(&drag, &plain));
    assert!(!events.drop_inputs_pin(&drag, &plain));

    let with_command = input(command(), drag.pointer);
    assert!(events.start_new_wire_out(&drag, &with_command));
    assert!(!events.start_new_wire_in(&drag, &with_command));
    assert!(events.drop_inputs_pin(&drag, &with_command));

    let mut both = command();
    both.shift = true;
    assert!(!events.drop_inputs_pin(&drag, &input(both, drag.pointer)));
}

#[test]
fn click_policy_picks_up_and_escape_puts_down() {
    let mut events = ClickGraphEvents::new();
    assert_eq!(events.dragged_item(), ItemDragged::Nothing);
    let c = click(PointerButton::Primary);
    let state = input(Modifiers::none(), c.pointer);
    assert!(events.node_move(&c, &state));
    assert_eq!(events.dragged_item(), ItemDragged::Node);
    assert_eq!(events.node_move_delta(&c, &state), MoveDelta::Pointer);

    let idle = ResponseState::idle();
    let moving = input(Modifiers::none(), idle.pointer);
    assert!(events.node_move(&idle, &moving));
    assert_eq!(events.dragged_item(), ItemDragged::Node);

    let mut escape = moving;
    escape.escape_pressed = true;
    assert!(!events.node_move(&idle, &escape));
    assert_eq!(events.dragged_item(), ItemDragged::Nothing);
    assert_eq!(events.node_move_delta(&idle, &escape), MoveDelta::Zero);
}

#[test]
fn click_policy_second_click_puts_down() {
    let mut events = ClickGraphEvents::default();
    let c = click(PointerButton::Primary);
    let state = input(Modifiers::none(), c.pointer);
    assert!(events.node_move(&c, &state));
    assert!(!events.node_move(&c, &state));
    assert_eq!(events.dragged_item(), ItemDragged::Nothing);
}

#[test]
fn click_policy_ignores_modified_clicks() {
    let mut events = ClickGraphEvents::new();
    let c = click(PointerButton::Primary);
    assert!(!events.node_move(&c, &input(shift(), c.pointer)));
    assert!(!events.node_move(&c, &input(command(), c.pointer)));
    let s = click(PointerButton::Secondary);
    assert!(!events.node_move(&s, &input(Modifiers::none(), s.pointer)));
    assert_eq!(events.dragged_item(), ItemDragged::Nothing);
    // Other gestures keep the default rules.
    let drag = drag_start(PointerButton::Primary);
    assert!(events.start_select_area(&drag, &input(shift(), drag.pointer)));
}

#[test]
fn response_queries_read_the_pointer() {
    let c = click(PointerButton::Secondary);
    assert!(c.clicked_by(PointerButton::Secondary));
    assert!(!c.clicked_by(PointerButton::Primary));
    assert!(!c.clicked());
    let mut fake = ResponseState::idle();
    fake.fake_primary_click = true;
    assert!(fake.clicked());
    let d = drag_start(PointerButton::Middle);
    assert!(d.drag_started_by(PointerButton::Middle));
    assert!(d.dragged_by(PointerButton::Middle));
    assert!(!d.dragged_by(PointerButton::Primary));
    assert!(!d.drag_stopped_by(PointerButton::Middle));
    assert!(Buttons::only(PointerButton::Extra2).contains(PointerButton::Extra2));
    assert!(!Buttons::none().contains(PointerButton::Extra1));
}

#[test]
fn any_click_or_drag_keeps_node_from_front() {
    let mut events = DefaultGraphEvents::new();
    let secondary = click(PointerButton::Secondary);
    assert!(events.not_to_top(&secondary, &input(Modifiers::none(), secondary.pointer)));
    let middle = click(PointerButton::Middle);
    assert!(events.not_to_top(&middle, &input(shift(), middle.pointer)));
    let mut fake = ResponseState::idle();
    fake.fake_primary_click = true;
    assert!(events.not_to_top(&fake, &input(Modifiers::none(), fake.pointer)));
    let drag = drag_start(PointerButton::Secondary);
    assert!(events.not_to_top(&drag, &input(Modifiers::none(), drag.pointer)));
    let idle = ResponseState::idle();
    assert!(!events.not_to_top(&idle, &input(Modifiers::none(), idle.pointer)));
}
