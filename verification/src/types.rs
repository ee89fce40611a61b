use vstd::prelude::*;

verus! {

/// Where the tray icon's bitmap comes from.  Immutable once constructed;
/// consumed by the native surface.
#[derive(Clone, Debug)]
pub enum Icon {
    /// Load from a file path.
    File(String),
    /// Load from a named resource embedded in the running module.
    ResourceByName(String),
    /// Load from an ordinal-numbered resource embedded in the running module.
    ResourceByOrd(u16),
}

/// One entry of the popup context menu.  Entries are inserted in the order
/// supplied.  `A` is the caller's action type, an opaque `Copy` value such
/// as a plain function pointer.
pub enum MenuItem<A> {
    /// A selectable entry: its label and the action dispatched when it is
    /// selected.
    Action(String, A),
    /// A horizontal separator.  It consumes a menu id but has no action.
    Separator,
}

/// The domain events the dispatch loop consumes, produced by the native
/// surface or by the close operation.
#[derive(Clone, Copy, Debug, PartialEq, Eq, Structural)]
pub enum Event {
    /// The menu entry with this id was selected.
    Menu(u32),
    /// The most recently shown balloon notification was clicked.
    Balloon,
    /// Shut the dispatch loop down.
    Quit,
}

} // verus!
