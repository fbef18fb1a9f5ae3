//! Control logic of an ESP display node: the wire protocol spoken with the
//! device, the time-synchronisation round, the frame stream and the index of
//! media files served over HTTP.

pub mod protocol;
pub mod stream;
pub mod time_sync;
pub mod wire;
pub mod config;
pub mod file_map;
pub mod frames;
pub mod link;
