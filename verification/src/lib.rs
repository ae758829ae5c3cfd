//! Verified cores of a handful of small asynchronous demos: hand-written
//! futures, a broadcast producer/consumer pair, HTTP services and a
//! streaming response body.  The loops, sockets and timers that drive them
//! live in the accompanying binary; the decisions they make live here.

pub mod progress;
pub mod fut_demo;
pub mod target;
pub mod decimal;
pub mod reply;
pub mod stream_body;
pub mod text;
pub mod stream_server;
pub mod impl_service;
pub mod handler_service;
pub mod retfut;
pub mod self_ref;
pub mod channel;
pub mod connection;
pub mod fn_spec;
