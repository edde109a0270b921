//! Session and dispatch engine of a voice-and-chat server that speaks the
//! Mumble control protocol: the framed wire codec, the presence store, and
//! the rules that decide which peers receive which message.

pub mod auth_service;
pub mod bootstrap;
pub mod buffer;
pub mod chat_service;
pub mod clock;
pub mod codec;
pub mod db;
pub mod delivery;
pub mod handler;
pub mod hashing;
pub mod invariants;
pub mod kind;
pub mod messages;
pub mod order;
pub mod packet_dispatch;
pub mod queue;
pub mod records;
pub mod session_service;
pub mod state;
pub mod stream;
pub mod text;
pub mod voice_router;
pub mod voice_service;
