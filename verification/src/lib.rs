//! A greeting processor.
//!
//! One processing step takes a [`GreetingRecord`], hands its text to an output
//! channel as one line, and reports a completion status. The record comes from
//! the caller, who has it from whatever provides greetings; the channel is a
//! plain list of lines, so that the caller decides where they are written.

pub mod processor;
pub mod record;

pub use processor::{process_instruction_with_greet, STATUS_SUCCESS};
pub use record::GreetingRecord;
