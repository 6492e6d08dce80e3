//! A seam for integration tests: the daemon stops between a local commit and what follows it.
use crate::error::{is_local_bus, local_bus, SdkError};
use crate::text::str_eq;
use vstd::prelude::*;

verus! {

/// The name of the setting that arms the seam.
pub const MODE_ENV: &'static str = "RAMFLUX_SDK_ITEST_RFD_FAULT_MODE";

/// The name of the setting that says where the marker goes.
pub const MARKER_ENV: &'static str = "RAMFLUX_SDK_ITEST_RFD_FAULT_MARKER";

/// Where the daemon stops.
#[derive(Clone, Copy, Debug, PartialEq, Eq, Structural)]
pub enum Mode {
    Off,
    /// Once the sending session is kept, before the gateway is asked.
    DmSend,
    /// Once it is kept that a chunk is done, before the next is stored.
    OwnerPut,
    /// Once an object is kept, before it is acknowledged.
    GranteeImport,
    /// Once the receiving session is kept, before the cursor is.
    DmRecv,
}

/// What a setting arms.
pub open spec fn armed(raw: Option<Seq<char>>) -> Mode {
    if raw == Some("dm-send"@) {
        Mode::DmSend
    } else if raw == Some("owner-put"@) {
        Mode::OwnerPut
    } else if raw == Some("grantee-import"@) {
        Mode::GranteeImport
    } else if raw == Some("dm-recv"@) {
        Mode::DmRecv
    } else {
        Mode::Off
    }
}

/// What a setting arms. Any other value, or none, leaves the seam off.
pub fn parse_mode(raw: Option<&str>) -> (r: Mode)
    ensures
        r == armed(
            match raw {
                Some(s) => Some(s@),
                None => None,
            },
        ),
{
    match raw {
        Some(s) => if str_eq(s, "dm-send") {
            Mode::DmSend
        } else if str_eq(s, "owner-put") {
            Mode::OwnerPut
        } else if str_eq(s, "grantee-import") {
            Mode::GranteeImport
        } else if str_eq(s, "dm-recv") {
            Mode::DmRecv
        } else {
            Mode::Off
        },
        None => Mode::Off,
    }
}

/// The seam of a process: how it is armed, whether a marker is asked for, and whether it has fired.
#[derive(Clone, Copy, Debug, PartialEq, Eq, Structural)]
pub struct RfdFault {
    pub mode: Mode,
    pub marker_set: bool,
    pub claimed: bool,
}

impl RfdFault {
    /// Whether the seam fires at a point.
    pub open spec fn fires(self, point: Mode) -> bool {
        !(point is Off) && self.mode == point && !self.claimed
    }

    /// The seam of a process at its start.
    pub fn start(mode: Mode, marker_set: bool) -> (r: RfdFault)
        ensures
            r == (RfdFault { mode, marker_set, claimed: false }),
    {
        RfdFault { mode, marker_set, claimed: false }
    }

    /// Whether the daemon stops at a point. It does at most once, and the marker is then to be
    /// written first; without a place for it the seam fails.
    pub fn barrier(&mut self, point: Mode) -> (r: Result<bool, SdkError>)
        ensures
            if old(self).fires(point) {
                &&& *final(self) == (RfdFault { claimed: true, ..*old(self) })
                &&& if old(self).marker_set {
                    r == Ok::<bool, SdkError>(true)
                } else {
                    is_local_bus(r, "itest rfd fault marker env unset"@)
                }
            } else {
                *final(self) == *old(self) && r == Ok::<bool, SdkError>(false)
            },
    {
        if point == Mode::Off || self.mode != point || self.claimed {
            return Ok(false);
        }
        self.claimed = true;
        if !self.marker_set {
            return Err(local_bus("itest rfd fault marker env unset"));
        }
        Ok(true)
    }
}

/// The failure of the seam where its marker cannot be written.
pub fn marker_write_failed() -> (e: SdkError)
    ensures
        is_local_bus(Err::<(), SdkError>(e), "itest rfd fault marker write failed"@),
{
    local_bus("itest rfd fault marker write failed")
}

/// A seam that has fired never fires again, at no point.
pub proof fn law_fires_at_most_once(fault: RfdFault, first: Mode, second: Mode)
    requires
        fault.fires(first),
    ensures
        !(RfdFault { claimed: true, ..fault }).fires(second),
{
}

} // verus!
