//! Building-monitoring sensor data: packet framing, timestamp parsing,
//! connection bookkeeping and the decisions of the TCP sensor server.

pub mod chrono_calls;
pub mod connection;
pub mod decimal;
pub mod http;
pub mod packet;
pub mod sensor;
pub mod server;
pub mod slab_calls;
pub mod storage;
pub mod text;
pub mod timestamp;
