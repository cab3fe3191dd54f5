//! Client-side state of a single chat room: the wire frames it exchanges with
//! the server, the roster and message log it keeps, and the projection of that
//! state into what the view shows.

pub mod wire;
pub mod chat;
pub mod render;
