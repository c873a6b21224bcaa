//! Session-based authentication and post ownership over an in-memory
//! session store and in-memory user and post tables.

pub mod counter;
pub mod credential;
pub mod ids;
pub mod session;
pub mod state;
pub mod post;
pub mod user;
