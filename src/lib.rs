//! The state, key handling and screen model of a terminal HTTP GET client.
//!
//! A session holds the URL being typed, the last response, a log of actions,
//! an input mode and the highlighted panel. Keys move it from state to state;
//! the program around the library draws the screen and performs the request.

pub mod laws;
pub mod request;
pub mod screen;
pub mod session;
pub mod text;
