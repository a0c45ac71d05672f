//! A handle of the platform and who owns it.

use crate::dword::ServiceError;
use crate::platform::{PlatformCall, PlatformCallView, PlatformReply, PlatformReplyView};
use vstd::prelude::*;

verus! {

/// One live handle of the platform. A value cannot be copied, and releasing
/// it uses the value up, so that whoever holds the value releases the handle
/// once and cannot use it afterwards. A session makes one value for each
/// handle that the platform gives it. `acquire` makes a value from any answer
/// that holds a handle: outside a session it is for the caller to make one
/// value of each handle and no more.
#[derive(Debug, PartialEq, Eq)]
pub struct ResourceHandle {
    raw: isize,
}

impl View for ResourceHandle {
    type V = isize;

    /// The number by which the platform knows the handle.
    closed spec fn view(&self) -> isize {
        self.raw
    }
}

impl ResourceHandle {
    /// The handle that the platform gave in answer to a call that opens or
    /// creates something, or the error that the answer stands for.
    pub fn acquire(reply: &PlatformReply) -> (r: Result<ResourceHandle, ServiceError>)
        ensures
            match r {
                Ok(handle) => reply@ == PlatformReplyView::Handle(handle@),
                Err(error) => !(reply@ is Handle) && error.code() == reply@.failure(),
            },
    {
        match reply {
            PlatformReply::Handle(raw) => Ok(ResourceHandle { raw: *raw }),
            _ => Err(reply.failure()),
        }
    }

    /// The number by which the platform knows the handle, for a call that
    /// uses it.
    pub fn raw(&self) -> (raw: isize)
        ensures
            raw == self@,
    {
        self.raw
    }

    /// Gives the handle up: the call that closes it.
    pub fn release(self) -> (call: PlatformCall)
        ensures
            call@ == (PlatformCallView::CloseHandle { handle: self@ }),
    {
        PlatformCall::CloseHandle { handle: self.raw }
    }
}

} // verus!
