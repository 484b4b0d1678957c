//! A client for the HTTP API of a Mattermost server, without the network.
//!
//! The library decides what is to be sent and what an answer means; sending and
//! receiving is left to the caller. A [`UnauthenticatedClient`] starts the login, the
//! [`Client`] that comes of it starts the operations of a user who is logged in.

pub mod address;
pub mod channel;
pub mod client;
pub mod file;
pub mod json;
pub mod post;
pub mod team;
pub mod text;
pub mod user;
pub mod wire;

pub use crate::client::Client;
pub use crate::client::Error;
pub use crate::client::UnauthenticatedClient;
