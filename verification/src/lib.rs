//! WeChat iLink Bot channel adapter.
//!
//! The adapter logs in with a QR code, asks the iLink Bot API for updates by long polling, hands on
//! what its users write, and sends them text. The login and the position in the stream of updates
//! outlive the process, so that it can go on without another scan.
//!
//! Nothing here waits, reads a file or talks to a server. [`adapter::WeChatAdapter`] decides what
//! is to be done next and takes in what came of it; whoever owns it makes the requests, keeps the
//! files and the clock running, and carries messages. The modules:
//!
//! - [`adapter`]: the adapter's configuration, login, allow-list and context tokens;
//! - [`login`]: logging in with a QR code, step by step;
//! - [`cycle`]: one poll, step by step;
//! - [`poll`]: the request for updates, its answer, and the pace of polling;
//! - [`inbound`] and [`outbound`]: messages that come in and go out;
//! - [`channel`]: what a channel carries;
//! - [`state`]: what the adapter remembers;
//! - [`http`], [`json`], [`text`] and [`time`]: requests, documents, strings and moments;
//! - [`outside`]: the calls into other crates, whose contracts are taken on trust;
//! - [`promises`]: what the operations are for, said of what goes in and what comes out;
//! - [`views`]: that the views of the types leave nothing out;
//! - [`laws`]: what holds of the adapter as a whole;
//! - [`runs`]: what holds of a poll from its first step to its last.

pub mod adapter;
pub mod channel;
pub mod cycle;
pub mod http;
pub mod inbound;
pub mod json;
pub mod laws;
pub mod login;
pub mod outbound;
pub mod outside;
pub mod poll;
pub mod promises;
pub mod runs;
pub mod state;
pub mod text;
pub mod time;
pub mod views;
