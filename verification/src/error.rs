use vstd::prelude::*;

verus! {

/// Failures surfaced to callers of the tray facade.
///
/// Every failure is returned as a value; no operation panics on a
/// recoverable failure.
#[derive(Clone, Debug, PartialEq, Eq)]
pub enum Error {
    /// Creating the native surface (window, menu, tray icon) failed.  Fatal
    /// to the build call: no handle is produced.
    ConstructionFailure(String),
    /// The native surface rejected an individual mutator call (icon, tooltip,
    /// menu entry or balloon).  The call fails but the instance stays usable.
    SurfaceOperationFailure(String),
    /// A mutator was invoked after the tray presence was closed.
    ClosedHandle,
}

impl Error {
    /// The text of the failure, as a sequence of characters.
    pub open spec fn message_view(&self) -> Seq<char> {
        match self {
            Error::ConstructionFailure(m) => m@,
            Error::SurfaceOperationFailure(m) => m@,
            Error::ClosedHandle => "the tray handle is closed"@,
        }
    }

    /// Text describing the failure.
    pub fn message(&self) -> (r: &str)
        ensures
            r@ == self.message_view(),
    {
        match self {
            Error::ConstructionFailure(m) => m.as_str(),
            Error::SurfaceOperationFailure(m) => m.as_str(),
            Error::ClosedHandle => "the tray handle is closed",
        }
    }

    /// Whether this failure reports a mutator call on a closed handle.
    pub fn is_closed_handle(&self) -> (r: bool)
        ensures
            r == (self is ClosedHandle),
    {
        match self {
            Error::ClosedHandle => true,
            _ => false,
        }
    }
}

} // verus!
