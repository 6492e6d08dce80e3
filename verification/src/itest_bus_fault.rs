//! A seam for integration tests: the response to one request over the local bus is lost.
use crate::error::{is_local_bus, local_bus, SdkError};
use crate::text::str_eq;
use vstd::prelude::*;

verus! {

/// The name of the setting that arms the seam.
pub const MODE_ENV: &'static str = "RAMFLUX_SDK_ITEST_BUS_FAULT_MODE";

/// The name of the setting that says where the marker goes.
pub const MARKER_ENV: &'static str = "RAMFLUX_SDK_ITEST_BUS_FAULT_MARKER";

/// The response that is dropped.
#[derive(Clone, Copy, Debug, PartialEq, Eq, Structural)]
pub enum Mode {
    Off,
    /// The one to `object.put`, after the operation is committed.
    ObjectPutResponse,
}

/// What a setting arms.
pub open spec fn armed(raw: Option<Seq<char>>) -> Mode {
    if raw == Some("object-put-response"@) {
        Mode::ObjectPutResponse
    } else {
        Mode::Off
    }
}

/// What a setting arms. Any other value, or none, leaves the seam off.
pub fn parse_mode(raw: Option<&str>) -> (r: Mode)
    ensures
        r == armed(
            match raw {
                Some(s) => Some(s@),
                None => None,
            },
        ),
{
    match raw {
        Some(s) => if str_eq(s, "object-put-response") {
            Mode::ObjectPutResponse
        } else {
            Mode::Off
        },
        None => Mode::Off,
    }
}

/// The seam of a process: how it is armed, whether a marker is asked for, and whether it has fired.
#[derive(Clone, Copy, Debug, PartialEq, Eq, Structural)]
pub struct BusFault {
    pub mode: Mode,
    pub marker_set: bool,
    pub claimed: bool,
}

impl BusFault {
    /// Whether the seam fires for a request.
    pub open spec fn fires(self, method: Seq<char>) -> bool {
        self.mode is ObjectPutResponse && method == "object.put"@ && !self.claimed
    }

    /// The seam of a process at its start.
    pub fn start(mode: Mode, marker_set: bool) -> (r: BusFault)
        ensures
            r == (BusFault { mode, marker_set, claimed: false }),
    {
        BusFault { mode, marker_set, claimed: false }
    }

    /// Whether the response to a request is dropped. It is at most once, and the marker is then to be
    /// written first; without a place for it the seam fails.
    pub fn should_drop_response(&mut self, method: &str) -> (r: Result<bool, SdkError>)
        ensures
            if old(self).fires(method@) {
                &&& *final(self) == (BusFault { claimed: true, ..*old(self) })
                &&& if old(self).marker_set {
                    r == Ok::<bool, SdkError>(true)
                } else {
                    is_local_bus(r, "itest bus fault marker env unset"@)
                }
            } else {
                *final(self) == *old(self) && r == Ok::<bool, SdkError>(false)
            },
    {
        match self.mode {
            Mode::Off => {
                return Ok(false);
            },
            Mode::ObjectPutResponse => {},
        }
        if !str_eq(method, "object.put") || self.claimed {
            return Ok(false);
        }
        self.claimed = true;
        if !self.marker_set {
            return Err(local_bus("itest bus fault marker env unset"));
        }
        Ok(true)
    }
}

/// The failure of the seam where its marker cannot be written.
pub fn marker_write_failed() -> (e: SdkError)
    ensures
        is_local_bus(Err::<(), SdkError>(e), "itest bus fault marker write failed"@),
{
    local_bus("itest bus fault marker write failed")
}

/// A seam that has fired never fires again, whatever it is asked.
pub proof fn law_fires_at_most_once(fault: BusFault, first: Seq<char>, second: Seq<char>)
    requires
        fault.fires(first),
    ensures
        !(BusFault { claimed: true, ..fault }).fires(second),
{
}

/// A seam that is not armed never fires.
pub proof fn law_unarmed_never_fires(fault: BusFault, method: Seq<char>)
    requires
        fault.mode is Off,
    ensures
        !fault.fires(method),
{
}

} // verus!
