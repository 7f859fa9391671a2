//! Rendering core of an addressable LED strip: colours, effects, frame
//! composition and the bit-level pulse encoding, all in integer arithmetic.
//! Beside it stand the decisions of the device's event handling and
//! network set-up, each a function from plain values to plain values.

pub mod connection;
pub mod eventhandler;
pub mod events;
pub mod eventsystem;
pub mod neopixel;
pub mod store;
