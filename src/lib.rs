//! Compiles a declarative message schema into source code for a fixed
//! binary wire protocol, in several target languages.
//!
//! A schema is read into an untyped tree (`tree`), validated into messages
//! (`parser`, `message`), and handed to one emitter per target language
//! (`c_generator`, `cpp_generator`, `python_generator`), all of which follow
//! the frame layout and checksum of `protocol`.
pub mod c_generator;
pub mod cpp_generator;
pub mod errors;
pub mod float;
pub mod generator;
pub mod message;
pub mod naming;
pub mod parser;
pub mod protocol;
pub mod python_generator;
pub mod text;
pub mod tree;
