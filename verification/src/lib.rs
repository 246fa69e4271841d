//! Core of a small calculator RPC server: a shared request counter, a pure
//! arithmetic engine, the calculator and admin request handlers, a bearer-token
//! auth gate for the admin surface, and a service-descriptor registry backing
//! schema reflection. Transport concerns (listening, framing, interceptor
//! wiring) live outside this crate; the handlers here work on plain values.

pub mod admin;
pub mod arith;
pub mod auth;
pub mod calc;
pub mod counter;
pub mod laws;
pub mod messages;
pub mod reflect;
pub mod text;
