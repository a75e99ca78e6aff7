//! Server-side user interfaces: the server owns the state of a page and sends
//! the browser the changes to make to it.
//!
//! An application builds its page once ([`html`], [`builders`]). The page is
//! checked, its elements get the hooks that report what the user does, and it
//! is rendered to markup. Every connection then gets a [`session`]: a message
//! from the browser is decoded to an [`Event`] ([`event`], [`number`]), the
//! application answers with [`Command`]s ([`command`]), and these go back as
//! one JSON array ([`json`]). Trees travel in their wire form ([`vdom`]) and
//! can be read back from it ([`decode`]).
//!
//! Every function states what it returns, over the mathematical value of its
//! arguments, and is proved to meet that statement. What `serde_json` does for
//! the library is named in [`json`] and taken on trust.

pub mod builders;
pub mod command;
pub mod decode;
pub mod event;
pub mod html;
pub mod json;
pub mod number;
pub mod session;
pub mod text;
pub mod vdom;

pub use command::{Command, CommandType};
pub use event::{DecodeError, Event, Message};
pub use session::App;
