//! Where the node listens and where its media live.

use vstd::prelude::*;

verus! {

/// The address the frame stream link listens on.
pub const ESP_STREAM_ADDR: &'static str = "192.168.178.30:3123";

/// The address the main control link listens on.
pub const ESP_MAIN_ADDR: &'static str = "192.168.178.30:3124";

/// The address the HTTP server listens on.
pub const HTTP_ADDR: &'static str = "192.168.178.30:3122";

/// The pause before retrying to bind a device link, in seconds.
pub const ESP_BIND_RETRY_SECS: u64 = 15;

/// The pause before retrying to bind the HTTP server, in seconds.
pub const HTTP_BIND_RETRY_SECS: u64 = 30;

/// The directory of the video frame files.
pub const VIDEOS_DIR: &'static str = "videos";

/// The extension of a video frame file.
pub const VIDEO_EXTENSION: &'static str = ".bin";

/// The directory of the video metadata files.
pub const VIDEOS_META_DIR: &'static str = "videos_meta";

/// The extension of a video metadata file.
pub const VIDEO_META_EXTENSION: &'static str = ".json";

/// The directory of the script files.
pub const SCRIPTS_DIR: &'static str = "scripts";

/// The extension of a script file.
pub const SCRIPT_EXTENSION: &'static str = ".js";

/// The video played when the node starts.
pub const STARTUP_VIDEO: &'static str = "Bad Apple";

/// The body of the answer to a ping.
pub const PING_REPLY: &'static str = "hello";

} // verus!
