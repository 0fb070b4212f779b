//! Core of a text-mode login manager: the session orchestration state
//! machine, the privileged-startup sequencing, the display-server
//! bootstrap token, the input-mode state machine and the FIFO request
//! bridge between the input thread and the render thread.

pub mod bridge;
pub mod form;
pub mod input;
pub mod launcher;
pub mod session;
pub mod status;
pub mod token;
