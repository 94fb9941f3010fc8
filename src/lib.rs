//! An iterative research assistant: the control loop that decomposes a
//! question, searches, filters, summarizes and decides when to stop, with
//! every step stated and proved.

pub mod cli;
pub mod html;
pub mod prompts;
pub mod reasoning;
pub mod search;
pub mod session;
pub mod text;
