//! Streaming the user's viewpoint to a websocket server.
pub mod address;
pub mod data;
pub mod data_laws;
pub mod state;
pub mod state_laws;
pub mod ws_thread;
pub mod ws_thread_laws;
