//! A TCP relay: outbound connection planning, and the state machine that
//! moves bytes both ways between an inbound and an outbound stream.
pub mod addr;
pub mod cmd;
pub mod connect;
pub mod error;
pub mod relay;
pub mod text;
