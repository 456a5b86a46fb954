//! The logic of a terminal Discord client: reading the API's JSON replies and
//! gateway events, choosing what the client does with them, and the state of
//! its chat box.
pub mod json;
pub mod data;
pub mod channels;
pub mod gateway;
pub mod wrapper;
pub mod chat_box;
pub mod gui;
