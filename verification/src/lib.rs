//! The client side of WAMP, the Web Application Messaging Protocol: remote
//! procedure calls and publish and subscribe over one connection that carries
//! messages.
//!
//! - [`value`] holds the structured values that messages carry, and [`json`]
//!   reads and writes their text.
//! - [`messages`] is the catalogue: one type for each message, each with the
//!   codec of its wire form, and the envelope that reads a sequence as the
//!   type that its tag names.
//! - [`context`] keeps the requests that wait for a reply, each with the
//!   continuation that the reply is for.
//! - [`client`] is the session: it says, for every frame that arrives, which
//!   continuation is to run and with what.
//!
//! The library owns no transport. Whoever owns one reads the frames, hands
//! them to the session, runs the continuations that the session names, and
//! sends the frames that wait in the context.
//!
//! Every function is verified against its contract. The contracts speak of
//! the mathematical model of each type, its view.

pub mod client;
pub mod context;
pub mod error;
pub mod factories;
pub mod json;
pub mod messages;
pub mod request;
pub mod roles;
pub mod value;
