//! A small URL shortener: a table of redirects guarded by a reader/writer lock,
//! and the page and redirect decisions that a web front end serves from it.

pub mod error;
pub mod handlers;
pub mod history;
mod lock;
pub mod page;
pub mod storage;
pub mod table;

pub use error::StorageError;
pub use storage::{InMemoryStorage, Storage};
pub use table::{Redirect, RedirectTable};
