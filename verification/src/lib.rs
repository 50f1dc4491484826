//! Command interpretation for an interactive file-transfer client.
//!
//! A raw line of user input is tokenized on ASCII whitespace and parsed
//! into a strongly-typed [`command::Command`] value that a protocol engine
//! can execute, or rejected with a descriptive [`command::ParseError`].

pub mod command;
pub mod token;

pub use command::Command;
pub use command::CommandModel;
pub use command::Field;
pub use command::ParseError;
pub use command::parse_spec;
pub use command::parse_tokens;
pub use command::result_model;
pub use token::is_space;
pub use token::tokens_of;
pub use token::upper_char;
pub use token::upper_seq;
