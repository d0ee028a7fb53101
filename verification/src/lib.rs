//! Interpretation of MIME messages as templates: plain text that a person can read and edit,
//! with markup where a text alone cannot stand for a part.
//!
//! An [`Interpreter`] interprets the body of a [`Message`]; a [`MimeInterpreter`] writes a header
//! block before it. What they give is a plan: the texts to write, and between them the work
//! to do outside the library, such as attachments to save and parts to decrypt. [`render`]
//! writes the text of a plan; a [`Session`] takes the plan step by step, hands the work to the
//! caller, and goes on when told how it ended.
//!
//! The modules `plan` and `session` say what an interpretation is; `laws`, `document` and
//! `same` hold what is proved of every interpretation. The remaining modules serve the
//! backends that list and search the envelopes of a folder.

pub mod account;
pub mod backend;
pub mod document;
pub mod error;
pub mod filter;
pub mod folder;
pub mod header;
pub mod html;
pub mod imap;
pub mod interpreter;
pub mod laws;
pub mod maildir;
pub mod message;
pub mod mime;
pub mod notmuch;
pub mod page;
pub mod piece;
pub mod plan;
pub mod same;
pub mod search;
pub mod session;
pub mod text;
pub mod value;
pub mod watch;

pub use error::Error;
pub use filter::FilterParts;
pub use header::ShowHeadersStrategy;
pub use interpreter::Interpreter;
pub use message::MimeInterpreter;
pub use mime::Message;
pub use piece::Piece;
pub use session::{render, Action, Event, Session};
