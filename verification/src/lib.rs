//! The composition engine of a Japanese input method editor.
//!
//! Raw keystrokes are decoded into user actions, a pure state machine maps
//! each action to a sequence of client actions, and an interpreter executes
//! that sequence step by step, asking its caller to perform the outside
//! calls (host framework edits, backend conversion, candidate-window
//! updates) and feeding their outcomes back in. Every decision the engine
//! takes is a verified function of plain values.

pub mod chars;
pub mod client_action;
pub mod composition;
pub mod error;
pub mod factory;
pub mod full_width;
pub mod input_mode;
pub mod interpreter;
pub mod ipc_service;
pub mod reconnect;
pub mod text_util;
pub mod user_action;
