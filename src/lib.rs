//! Turn orchestration for matches between move-producing agents in
//! tic-tac-toe, connect four and rock-paper-scissors.

pub mod agent;
pub mod batch;
pub mod games;
pub mod secrets;
pub mod session_id;
pub mod text;
