//! Interactive login flow: the decisions that turn the answers of an
//! authentication engine into views and cookie changes, with the session
//! token codec and the cookie rules they rest on.

pub mod cookies;
pub mod login;
pub mod proto;
pub mod runs;
pub mod session;
pub mod text;
