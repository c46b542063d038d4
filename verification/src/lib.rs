//! A word glossary service: the decisions of its two HTTP operations,
//! separated from the storage and network work that carries them out.
//!
//! A server drives the library in two steps for each request. It asks the
//! handler what to send to the storage ([`handlers::get_words`],
//! [`handlers::add_word`]), carries the statement out, and hands the
//! storage's answer back for the response
//! ([`handlers::get_words_response`], [`handlers::add_word_response`]).
//! Nothing here performs I/O, and no function here can fail to return.
//!
//! [`model`] states what the service promises over a storage that works
//! as a table of rows: what was posted is listed, nothing is lost or
//! merged, and a failure tells the client nothing of its cause.

pub mod entry;
pub mod error;
pub mod handlers;
pub mod model;
pub mod repository;
pub mod server;
pub mod storage;
