//! The online status that a client announces.

use crate::error::{RQError, RQResult};
use vstd::prelude::*;
use vstd::string::StrSliceExecFns;

verus! {

/// The longest wording that a custom status may have, in characters.
pub const MAX_WORDING: usize = 4;

/// A status of the user's own making.
#[derive(Clone, Debug)]
pub struct CustomOnlineStatus {
    pub face_index: u64,
    pub wording: String,
}

/// An online status.
#[derive(Clone, Debug)]
pub struct Status {
    pub online_status: i32,
    pub ext_online_status: i64,
    pub custom_status: Option<CustomOnlineStatus>,
}

/// Whether a wording may be announced: it has one to four characters,
/// however many bytes they take.
pub open spec fn wording_fits(wording: Seq<char>) -> bool {
    1 <= wording.len() <= MAX_WORDING
}

/// Whether a status may be announced: its custom wording, if it has one,
/// fits.
pub open spec fn status_fits(status: Status) -> bool {
    status.custom_status matches Some(custom) ==> wording_fits(custom.wording@)
}

/// Checks the wording of a custom status.
pub fn check_wording(wording: &str) -> (r: RQResult<()>)
    ensures
        wording_fits(wording@) ==> r == Ok::<(), RQError>(()),
        !wording_fits(wording@) ==> r == Err::<(), RQError>(RQError::Validation),
{
    let n = wording.unicode_len();
    if n == 0 || n > MAX_WORDING {
        Err(RQError::Validation)
    } else {
        Ok(())
    }
}

impl Status {
    /// Checks a status before it is announced. A status that does not pass
    /// must not be sent.
    pub fn check(&self) -> (r: RQResult<()>)
        ensures
            status_fits(*self) ==> r == Ok::<(), RQError>(()),
            !status_fits(*self) ==> r == Err::<(), RQError>(RQError::Validation),
    {
        match &self.custom_status {
            Some(custom) => check_wording(custom.wording.as_str()),
            None => Ok(()),
        }
    }
}

} // verus!
