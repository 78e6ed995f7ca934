//! An in-memory store of book records with verified create, read,
//! update, delete and list operations, together with the handler layer
//! that maps each operation's outcome to a transport status.

pub mod book;
pub mod handlers;
pub mod laws;
pub mod store;

pub use book::Book;
pub use handlers::Status;
pub use store::Store;
