//! A client library for a persistent, bidirectional, event-driven wire
//! protocol carried over a WebSocket transport (the gateway). The library
//! holds the connection lifecycle logic — envelope codec, handshake
//! coordinator, heartbeat scheduler, sequence tracker, event dispatcher and
//! the connection state machine — as verified code. The transport itself
//! (sockets, HTTP) is the caller's concern: the caller reads and writes
//! frames and hands them to this library as plain values.

pub mod channel;
pub mod codec;
pub mod config;
pub mod connection;
pub mod dispatch;
pub mod error;
pub mod guild;
pub mod handshake;
pub mod heartbeat;
pub mod interaction;
pub mod json;
pub mod message;
pub mod misc;
pub mod outside;
pub mod rest;
pub mod text;
pub mod tracker;
pub mod user;
