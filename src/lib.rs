//! Virtual trackball camera control: the arbitration of pointer, touch and keyboard input
//! into camera manipulation commands.
//!
//! [`controller::Controller`] receives one input event at a time and returns the commands that
//! the host performs on its camera frame, gesture accumulators and platform cursor, in order.
//! [`registry::Registry`] tracks the pressed or touching contacts, and [`laws`] states what holds
//! over sequences of events.

pub mod controller;
pub mod input;
pub mod laws;
pub mod registry;

pub use controller::{Action, Command, Controller, Event, Mode, Phase, Source};
pub use input::{
    button_matches, key_matches, modifiers_accept, Input, Key, Modifiers, MouseButton, KEY_LSHIFT,
    KEY_O, KEY_RETURN,
};
pub use registry::{ContactId, Point, Registry, Update, MAX_CONTACTS, SUBPIXEL};
