//! Lockstep synchronization core for peer-to-peer play of a fixed-tickrate
//! game: a delay-based input queue, the match and round handshakes, and the
//! session lifecycle state machines that drive them.
pub mod channel;
pub mod delayed_inputs;
pub mod in_game_lobby;
pub mod session;
pub mod spectator;
pub mod state;
pub mod th19;
pub mod th19_helpers;
