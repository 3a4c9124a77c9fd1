//! Pseudo-terminal sessions for a terminal emulator: size conversion, the plan
//! for launching a shell, the child-exit state machine and descriptor ownership.

pub mod size;
pub mod launch;
pub mod exit;
pub mod pty;
pub mod clipboard;
