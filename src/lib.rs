//! A client for a movie-catalog REST service: the session it keeps, the
//! requests it makes and what it concludes from the replies.

pub mod config;
pub mod data_types;
pub mod dialogs;
pub mod wire;
pub mod client;
