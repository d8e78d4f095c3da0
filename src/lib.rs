//! Session core of an interactive line-oriented shell front-end: scrollback,
//! editable input line, command-history recall and the key-event state machine.
pub mod command;
pub mod history;
pub mod input_line;
pub mod prompt;
pub mod scrollback;
pub mod terminal;
pub mod text;
