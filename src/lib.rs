pub mod blocks;
pub mod error;
pub mod json;
pub mod event;
pub mod dispatch;
pub mod handshake;
pub mod session;
