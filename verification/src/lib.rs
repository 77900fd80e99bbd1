//! Decision core of a remote shell session: key authentication, shell
//! negotiation and the relay between a shell and its network peer.

pub mod error;
pub mod event;
pub mod key;
pub mod laws;
pub mod proto;
pub mod replay;
pub mod session;
