//! Quick-capture input routing: a single line of text is either a command or a
//! note whose content and topic are split at a separator token.

pub mod text;
pub mod scanner;
pub mod command;
pub mod lifecycle;
pub mod session;
pub mod store;
