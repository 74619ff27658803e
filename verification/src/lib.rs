//! The verified core of a WebSocket game server: request and response
//! framing, message routing, connection id allocation and the sender pool.

pub mod axum_route;
pub mod buffer;
pub mod byte_order;
pub mod channel;
pub mod channel_pool;
pub mod connection;
pub mod constant;
pub mod error;
pub mod frame;
pub mod handlers;
pub mod router;
pub mod socket_events;
pub mod socket_mgr;
