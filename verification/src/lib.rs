//! The frame-exchange engine of a WebSocket transfer agent.

pub mod args;
pub mod conf;
pub mod dispatch;
pub mod exit;
pub mod frame_data;
pub mod frame_size;
pub mod headers;
pub mod heartbeat;
pub mod http;
pub mod ingest;
pub mod log;
pub mod options;
pub mod program;
pub mod queue;
pub mod receive;
pub mod text;
