use vstd::prelude::*;
use crate::controls::Controls;

verus! {

/// Why the next presentable image could not be acquired.
#[derive(Clone, Copy, Debug, PartialEq, Eq, Structural)]
pub enum SurfaceFault {
    /// Acquisition took too long.
    Timeout,
    /// The surface no longer matches its configuration.
    Outdated,
    /// The surface was lost and must be configured again.
    Lost,
    /// No memory is left for a new frame.
    OutOfMemory,
}

/// What the driver does after a failed frame.
#[derive(Clone, Copy, Debug, PartialEq, Eq, Structural)]
pub enum Recovery {
    /// Nothing: the next frame tries again.
    Retry,
    /// Configure the surface again at its current size, then go on.
    Reconfigure,
    /// Stop the application.
    Exit,
}

/// The recovery each fault calls for: a lost surface is configured again,
/// exhausted memory is fatal, the transient faults are retried.
pub open spec fn recovery_for(fault: SurfaceFault) -> Recovery {
    match fault {
        SurfaceFault::Lost => Recovery::Reconfigure,
        SurfaceFault::OutOfMemory => Recovery::Exit,
        SurfaceFault::Timeout | SurfaceFault::Outdated => Recovery::Retry,
    }
}

impl SurfaceFault {
    /// The recovery this fault calls for.
    pub fn recovery(self) -> (r: Recovery)
        ensures
            r == recovery_for(self),
    {
        match self {
            SurfaceFault::Lost => Recovery::Reconfigure,
            SurfaceFault::OutOfMemory => Recovery::Exit,
            SurfaceFault::Timeout | SurfaceFault::Outdated => Recovery::Retry,
        }
    }
}

impl Controls {
    /// Takes the current size again, as a full reconfiguration after a lost
    /// surface does; always applied, and the state is unchanged.
    pub fn reconfigure(&mut self) -> (applied: bool)
        requires
            old(self).wf(),
        ensures
            applied,
            *final(self) == *old(self),
    {
        let width = self.size.width;
        let height = self.size.height;
        self.resize(width, height)
    }
}

} // verus!
