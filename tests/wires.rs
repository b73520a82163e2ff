use snarl_input::selection::Selection;
use snarl_input::wires::{ConnectVerdict, InPinId, OutPinId, Wire, Wires};

fn wire(from_node: u64, output: u64, to_node: u64, input: u64) -> Wire {
    Wire {
        out_pin: OutPinId { node: from_node, output },
        in_pin: InPinId { node: to_node, input },
    }
}

#[test]
fn connect_fills_a_free_input_only() {
    let mut wires = Wires::new();
    assert_eq!(wires.len(), 0);
    assert!(wires.connect(wire(1, 0, 2, 0)));
    assert!(!wires.connect(wire(3, 0, 2, 0)));
    assert!(!wires.connect(wire(1, 0, 2, 0)));
    assert!(wires.connect(wire(1, 0, 2, 1)));
    assert_eq!(wires.len(), 2);
    assert_eq!(wires.wire_into(InPinId { node: 2, input: 0 }), Some(OutPinId { node: 1, output: 0 }));
    assert_eq!(wires.wire_into(InPinId { node: 5, input: 0 }), None);
}

#[test]
fn one_output_drives_many_inputs() {
    let mut wires = Wires::new();
    for n in 0..10u64 {
        assert!(wires.connect(wire(1, 0, 100 + n, 0)));
    }
    assert_eq!(wires.len(), 10);
}

#[test]
fn replace_disconnects_the_previous_wire() {
    let mut wires = Wires::new();
    assert!(wires.apply_connection(wire(1, 0, 2, 0), ConnectVerdict::Accept));
    assert!(!wires.apply_connection(wire(3, 0, 2, 0), ConnectVerdict::Accept));
    assert!(wires.contains(wire(1, 0, 2, 0)));
    assert!(wires.apply_connection(wire(3, 0, 2, 0), ConnectVerdict::Replace));
    assert!(!wires.contains(wire(1, 0, 2, 0)));
    assert!(wires.contains(wire(3, 0, 2, 0)));
    assert_eq!(wires.len(), 1);
}

#[test]
fn reject_changes_nothing() {
    let mut wires = Wires::new();
    assert!(!wires.apply_connection(wire(1, 0, 2, 0), ConnectVerdict::Reject));
    assert_eq!(wires.len(), 0);
}

#[test]
fn every_input_keeps_one_wire_after_many_connections() {
    let mut wires = Wires::new();
    let verdicts = [ConnectVerdict::Accept, ConnectVerdict::Replace, ConnectVerdict::Reject];
    for k in 0..60u64 {
        let verdict = verdicts[(k % 3) as usize];
        wires.apply_connection(wire(k % 7, k % 2, k % 4, 0), verdict);
    }
    for input in 0..4u64 {
        let pin = InPinId { node: input, input: 0 };
        let mut feeding = 0;
        for from in 0..7u64 {
            for output in 0..2u64 {
                if wires.contains(wire(from, output, input, 0)) {
                    feeding += 1;
                }
            }
        }
        assert!(feeding <= 1);
        assert_eq!(feeding == 1, wires.wire_into(pin).is_some());
    }
    assert!(wires.len() <= 4);
}

#[test]
fn drop_inputs_and_disconnect() {
    let mut wires = Wires::new();
    wires.connect(wire(1, 0, 2, 0));
    wires.connect(wire(1, 0, 3, 0));
    assert!(wires.drop_inputs(InPinId { node: 2, input: 0 }));
    assert!(!wires.drop_inputs(InPinId { node: 2, input: 0 }));
    assert!(!wires.disconnect(wire(4, 0, 3, 0)));
    assert!(wires.disconnect(wire(1, 0, 3, 0)));
    assert_eq!(wires.len(), 0);
}

#[test]
fn selection_toggles_and_clears() {
    let mut selection = Selection::new();
    assert!(selection.select(7));
    assert!(!selection.select(7));
    assert!(selection.select(9));
    assert_eq!(selection.len(), 2);
    assert!(selection.contains(7));
    assert!(selection.deselect(7));
    assert!(!selection.deselect(7));
    assert!(!selection.contains(7));
    selection.clear();
    assert_eq!(selection.len(), 0);
    assert!(!selection.contains(9));
}
