//! Boot-entry lifecycle of a minimal firmware application, as a verified
//! state machine.
//!
//! The application resets the text console, writes a greeting, polls the
//! keyboard without blocking, and hands a status back to the boot environment
//! once any key was pressed. Every decision of that lifecycle is taken here;
//! the firmware calls themselves are made by whoever drives the machine.

pub mod console;
pub mod laws;
pub mod machine;
pub mod replay;
pub mod status;
