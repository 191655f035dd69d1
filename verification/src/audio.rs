//! The bridge to the operating system's audio mute.
//!
//! Only Windows offers the capability that the shell uses. Everywhere else the
//! mute command succeeds without touching the system. The call into the
//! platform is the host's; this module decides whether it is made and what the
//! command answers.

use vstd::prelude::*;

verus! {

/// The operating systems that the shell tells apart.
#[derive(Clone, Copy, Debug, PartialEq, Eq, Structural)]
pub enum Platform {
    /// The default audio endpoint can be muted.
    Windows,
    /// Any other system: there is nothing to mute.
    Other,
}

impl Platform {
    /// Whether the platform can mute the default audio output.
    pub open spec fn supports_mute(self) -> bool {
        self is Windows
    }

    /// Whether the platform can mute the default audio output.
    pub fn can_mute(self) -> (r: bool)
        ensures
            r == self.supports_mute(),
    {
        match self {
            Platform::Windows => true,
            Platform::Other => false,
        }
    }
}

/// The mute bridge of a platform without the capability: it accepts either
/// value of `mute`, changes nothing and succeeds.
pub fn set_mute(_mute: bool) -> (r: Result<(), String>)
    ensures
        r is Ok,
{
    Ok(())
}

/// The call that the mute command makes into the platform: the value to set
/// the default output's mute to, or `None` where the platform has no such
/// call.
pub open spec fn mute_request_spec(platform: Platform, mute: bool) -> Option<bool> {
    if platform.supports_mute() {
        Some(mute)
    } else {
        None
    }
}

/// The answer of the mute command, given how the call into the platform
/// ended, or `None` where no call was made: the platform's own answer, and
/// success without a call.
pub open spec fn mute_reply_spec(outcome: Option<Result<(), String>>) -> Result<(), String> {
    match outcome {
        Some(result) => result,
        None => Ok(()),
    }
}

/// First half of the mute command: decides which call, if any, the host makes
/// into the platform. On a platform that cannot mute, none is made.
pub fn mute_request(platform: Platform, mute: bool) -> (r: Option<bool>)
    ensures
        r == mute_request_spec(platform, mute),
{
    if platform.can_mute() {
        Some(mute)
    } else {
        None
    }
}

/// Second half of the mute command: the answer to the frontend. A failure of
/// the platform comes back as the text that the host made of it; where no call
/// was made the command succeeds.
pub fn mute_reply(outcome: Option<Result<(), String>>) -> (r: Result<(), String>)
    ensures
        r == mute_reply_spec(outcome),
{
    match outcome {
        Some(result) => result,
        None => Ok(()),
    }
}

} // verus!
