//! A seam for integration tests: the process aborts in the middle of a transfer.
use crate::text::{parse_unsigned, parsed_unsigned, str_eq};
use vstd::prelude::*;

verus! {

/// The name of the setting that arms the seam.
pub const MODE_ENV: &'static str = "RAMFLUX_SDK_ITEST_CRASH_SEAM_MODE";

/// The name of the setting that says where the marker goes.
pub const MARKER_ENV: &'static str = "RAMFLUX_SDK_ITEST_CRASH_SEAM_MARKER";

/// The name of the setting that says how much an upload writes before it aborts.
pub const AFTER_BYTES_ENV: &'static str = "RAMFLUX_SDK_ITEST_CRASH_SEAM_AFTER_BYTES";

/// Where the process aborts.
#[derive(Clone, Copy, Debug, PartialEq, Eq, Structural)]
pub enum Mode {
    Off,
    /// In an upload, once a chunk is durable and before it is acknowledged.
    UploadChunkBeforeAck,
    /// In a download, once all is written and before any of it is read.
    DownloadAfterWrite,
}

/// What a setting arms.
pub open spec fn armed(raw: Option<Seq<char>>) -> Mode {
    if raw == Some("upload-chunk-before-ack"@) {
        Mode::UploadChunkBeforeAck
    } else if raw == Some("download-after-write"@) {
        Mode::DownloadAfterWrite
    } else {
        Mode::Off
    }
}

/// What a setting arms. Any other value, or none, leaves the seam off.
pub fn parse_mode(raw: Option<&str>) -> (r: Mode)
    ensures
        r == armed(
            match raw {
                Some(s) => Some(s@),
                None => None,
            },
        ),
{
    match raw {
        Some(s) => if str_eq(s, "upload-chunk-before-ack") {
            Mode::UploadChunkBeforeAck
        } else if str_eq(s, "download-after-write") {
            Mode::DownloadAfterWrite
        } else {
            Mode::Off
        },
        None => Mode::Off,
    }
}

/// How much an upload writes before it aborts: nothing, unless the setting is a number.
pub fn after_bytes(raw: Option<&str>) -> (r: usize)
    ensures
        r == (match raw {
            Some(s) => match parsed_unsigned(s@, usize::MAX as nat) {
                Ok(n) => n,
                Err(_) => 0,
            },
            None => 0,
        }),
{
    match raw {
        Some(s) => match parse_unsigned(s, usize::MAX as u64) {
            Ok(n) => n as usize,
            Err(_) => 0,
        },
        None => 0,
    }
}

/// Whether an upload aborts that has written so much.
pub fn maybe_abort_upload_before_ack(mode: Mode, written: usize, threshold: usize) -> (r: bool)
    ensures
        r == (mode is UploadChunkBeforeAck && written >= threshold),
{
    match mode {
        Mode::UploadChunkBeforeAck => written >= threshold,
        _ => false,
    }
}

/// Whether a download aborts.
pub fn maybe_abort_download_after_write(mode: Mode) -> (r: bool)
    ensures
        r == (mode is DownloadAfterWrite),
{
    match mode {
        Mode::DownloadAfterWrite => true,
        _ => false,
    }
}

} // verus!
