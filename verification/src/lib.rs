//! Discovery and control protocol engine for a pan-tilt-zoom network camera.
//!
//! The camera announces itself in reply to a UDP broadcast probe and is then
//! steered over HTTP. This crate holds the protocol framing and the state
//! transitions; sockets, HTTP exchanges and the user interface belong to the
//! host program.

pub mod command;
pub mod discovery;
pub mod dispatcher;
pub mod encoder;
pub mod keys;
pub mod machine;
pub mod stream;
pub mod style;
pub mod text;
