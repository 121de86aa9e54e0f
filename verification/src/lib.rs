//! A chat and the harness that tests it through a browser.
//!
//! The chat is a server that passes every text on to all other users (`hub`,
//! `wire`) and a page that shows what was written (`chat`). The harness
//! starts the server and a browser driver as child processes (`process`,
//! `launcher`, `poll`), settles on the driver to use (`driver`,
//! `environment`, `locator`, `handle`, `address`), opens a session and looks
//! at the page (`session`, `pages`), and takes everything down again
//! (`harness`, `error`).
//!
//! The library decides and computes; it starts no process and opens no
//! socket. Its callers do that, and report to it what came of it.

pub mod address;
pub mod chat;
pub mod driver;
pub mod environment;
pub mod error;
pub mod handle;
pub mod harness;
pub mod hub;
pub mod launcher;
pub mod locator;
pub mod pages;
pub mod poll;
pub mod process;
pub mod session;
pub mod text;
pub mod wire;
