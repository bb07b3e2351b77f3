use vstd::prelude::*;

verus! {

pub const AUTHOR: &'static str = "nsrCodes";

pub const DESCRIPTION: &'static str = "Make easily sharable recordings with ease";

pub const CMD: &'static str = "spur";

pub const VERSION: &'static str = "0.1.1";

/* App constants */

pub const CONFIG_FILE_NAME: &'static str = "spur_config.txt";

pub const VIDEOS_FOLDER_FROM_HOME: &'static str = "Videos/spur";

pub const STREAM_API: &'static str = "rtmp://someendpoint:1935";

pub const STREAM_API_PATH: &'static str = "live";

/// Seconds a graceful stop waits after end-of-stream for the pipeline to
/// finish flushing, before forcing it to `Null`.
pub const GRACE_PERIOD_SECS: u64 = 5;

} // verus!
