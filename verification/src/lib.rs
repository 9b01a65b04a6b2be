//! Component Firmware Update (CFU) for a Type-C controller.
//!
//! The library decides what a firmware update does next; its caller talks to
//! the hardware. A command is answered in steps. Each step either names one
//! operation for the caller to perform, or is the response to the command.
//! Once an operation is performed, its outcome is handed back and gives the
//! following step.
//!
//! * [`protocol`] holds the messages of the CFU protocol.
//! * [`component`] holds the requests to a component and its responses.
//! * [`action`] holds the operations, their outcomes and the steps.
//! * [`device`] answers each kind of request.
//! * [`wrapper`] dispatches commands, counts ticks and chooses what to wait for.
//! * [`run`] states what a command does from its first step to its response.
//! * [`effects`] states what commands and ticks do to the bits, bytes and numbers of
//!   their messages.
//! * [`laws`] states what holds of the library as a whole.
pub mod action;
pub mod component;
pub mod device;
pub mod effects;
pub mod laws;
pub mod protocol;
pub mod result_ext;
pub mod run;
pub mod state;
pub mod wrapper;
