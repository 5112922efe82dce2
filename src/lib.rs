//! An in-memory catalogue of books with create, list, replace and remove
//! operations, and the request handlers that map each operation's outcome
//! to a response status.
pub mod book;
pub mod handlers;
pub mod laws;
pub mod store;
