//! The session lifecycle: which phase of a match is live, and what each
//! phase does with the game on every tick.

pub mod game;



pub mod select;
pub mod battle_session_state;
pub mod spectator_session_state;
pub mod junowen_state;
