//! Verified core of a QUIC video relay: the frame messages a client builds,
//! the decisions the relay server takes on what it receives, and the state
//! kept by a framed QUIC connection.

pub mod clock;
pub mod video;
pub mod relay;
pub mod conn;
pub mod wire;
pub mod transport;
pub mod tls;
