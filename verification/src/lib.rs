//! A small chat room: the wire messages that clients and the server exchange,
//! their integrity digest, the server's table of registered users and the
//! decisions that the server and the client take on each message.

pub mod address;
pub mod digest;
pub mod protocol;
pub mod users;
pub mod server;
pub mod client;
