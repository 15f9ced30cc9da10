//! Context budgeting and history management for a chat front end that relays
//! prompts to a remote text-generation server.
//!
//! The server reads a bounded context window. Of that window a fixed part is
//! set aside for the system message and for the response; what the current
//! prompt leaves of the rest is the budget for conversation history. The
//! library estimates sizes in tokens, keeps for every session its
//! transcript, picks the most recent turns that fit the budget, lines up the
//! messages of a request, and reads the reply out of what the server
//! answers. It makes no network call and holds no lock: a turn is two
//! steps, one before the call and one after it.
//!
//! - [`tokens`]: the token estimate.
//! - [`limits`]: the limits, their rules, the history budget and the bounds
//!   on a response.
//! - [`settings`]: limits as the environment gives them.
//! - [`history`]: stored turns and their truncation.
//! - [`model`]: the model and the request it makes for a prompt.
//! - [`reply`]: the outcome of a request.
//! - [`sessions`]: the history store.
//! - [`chat`]: the two steps of a turn.
//! - [`models`]: roles, messages, chat requests and responses.
//! - [`text`]: operations on text.

pub mod chat;
pub mod history;
pub mod limits;
pub mod model;
pub mod models;
pub mod reply;
pub mod sessions;
pub mod settings;
pub mod text;
pub mod tokens;
