use vstd::prelude::*;

use crate::error::Error;
use crate::types::Icon;

verus! {

/// The native surface collaborator: the object that owns the thread-affine
/// OS handle, runs its message pump on a dedicated thread, and performs the
/// visible work (icon, tooltip, menu entries, balloons).
///
/// The library only decides *what* to ask of the surface and how its replies
/// change the shared state; nothing is assumed about the replies themselves.
/// Every method may fail with a descriptive message, and a failure never
/// corrupts the shared state (the state functions only change state on
/// success).
pub trait Surface {
    /// Replace the bitmap shown in the notification area.
    fn set_icon(&self, icon: &Icon) -> Result<(), String>;

    /// Replace the tooltip shown over the notification-area icon.
    fn set_tip(&self, tip: &str) -> Result<(), String>;

    /// Insert a selectable entry with the given id and label at the end of
    /// the popup menu.
    fn add_menu_item(&self, id: u32, title: &str) -> Result<(), String>;

    /// Insert a separator with the given id at the end of the popup menu.
    fn add_menu_separator(&self, id: u32) -> Result<(), String>;

    /// Display a transient balloon notification.
    fn show_balloon(&self, title: &str, body: &str) -> Result<(), String>;

    /// Destroy the surface's window.  Must be idempotent: a second call on an
    /// already-destroyed surface is a no-op.
    fn close(&mut self);
}

/// Turns a surface reply into the library's result: a rejection becomes a
/// surface-operation failure carrying the surface's message.
pub fn surface_result(reply: Result<(), String>) -> (r: Result<(), Error>)
    ensures
        reply is Ok <==> r is Ok,
        reply matches Err(m) ==> r == Err::<(), Error>(Error::SurfaceOperationFailure(m)),
{
    match reply {
        Ok(()) => Ok(()),
        Err(m) => Err(Error::SurfaceOperationFailure(m)),
    }
}

} // verus!
