//! Verified core of a set of small networked programs: a two-player
//! tic-tac-toe server, signed price reporting between clients and an
//! aggregator, and a line-based chat server.
pub mod text;
pub mod game;
pub mod crypto;
pub mod reports;
pub mod market;
pub mod chat;
