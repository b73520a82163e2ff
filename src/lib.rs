//! Input interpretation and connection rules for an embeddable node-graph editor.
//!
//! The host GUI hands each frame's input to this crate as plain values
//! ([`input`]); a swappable policy ([`events`]) turns it into named gestures;
//! [`interaction`] settles which gesture owns the frame and tracks a wire being
//! drawn; [`wires`] holds the graph's edges and keeps each input pin fed by at
//! most one wire; [`selection`] holds the selected nodes.
pub mod events;
pub mod input;
pub mod interaction;
pub mod selection;
pub mod wires;
