use vstd::prelude::*;

use std::collections::HashMap;
use std::sync::mpsc::Sender;

use crate::error::Error;
use crate::surface::surface_result;
use crate::surface::Surface;
use crate::types::Event;
use crate::types::Icon;
use crate::types::MenuItem;

verus! {

broadcast use vstd::std_specs::hash::group_hash_axioms;

/// Mathematical model of the shared tray state: the next menu id to hand
/// out, the registry of actions keyed by menu id, the single pending
/// balloon-click action, and whether the presence has been closed.
pub ghost struct TrayModel<A> {
    pub last_menu_id: u32,
    pub actions: Map<u32, A>,
    pub balloon_action: Option<A>,
    pub closed: bool,
}

impl<A> TrayModel<A> {
    /// Every registered action belongs to an id that was allocated earlier:
    /// ids at or above `last_menu_id` were never handed out.
    pub open spec fn wf(self) -> bool {
        forall|id: u32| self.actions.contains_key(id) ==> id < self.last_menu_id
    }

    /// The state right after construction: no id allocated, no action
    /// registered, no balloon pending, not closed.
    pub open spec fn initial() -> Self {
        TrayModel { last_menu_id: 0, actions: Map::empty(), balloon_action: None, closed: false }
    }

    /// The id the next menu entry will receive.
    pub open spec fn next_id(self) -> u32 {
        self.last_menu_id
    }

    /// One menu id was consumed without registering an action: the state
    /// after adding a separator, or after the surface rejected an entry
    /// (ids are never reclaimed).
    pub open spec fn consume_id(self) -> Self {
        TrayModel { last_menu_id: (self.last_menu_id + 1) as u32, ..self }
    }

    /// One menu id was consumed and `action` registered under it: the state
    /// after adding a selectable entry.
    pub open spec fn register_action(self, action: A) -> Self {
        TrayModel {
            last_menu_id: (self.last_menu_id + 1) as u32,
            actions: self.actions.insert(self.last_menu_id, action),
            ..self
        }
    }

    /// The pending balloon-click slot was overwritten with `action`,
    /// discarding whatever was pending before.
    pub open spec fn set_balloon(self, action: A) -> Self {
        TrayModel { balloon_action: Some(action), ..self }
    }

    /// The pending balloon-click slot was emptied.
    pub open spec fn clear_balloon(self) -> Self {
        TrayModel { balloon_action: None, ..self }
    }

    /// The presence was closed (idempotent: closing a closed state changes
    /// nothing).
    pub open spec fn after_close(self) -> Self {
        TrayModel { closed: true, ..self }
    }

    /// What a menu-selection event for `id` dispatches: the registered
    /// action, or nothing for a separator or unknown id.
    pub open spec fn menu_dispatch(self, id: u32) -> Option<A> {
        if self.actions.contains_key(id) {
            Some(self.actions[id])
        } else {
            None
        }
    }

    /// What a balloon-click event dispatches: the pending action, if any.
    pub open spec fn balloon_dispatch(self) -> Option<A> {
        self.balloon_action
    }
}

/// The shared state: the single source of truth for the tray configuration.
/// It owns the native surface handle, allocates menu ids, keeps the registry
/// from menu id to action, holds the single pending balloon-click action and
/// the sender used to signal shutdown.
///
/// `A` is the caller's action type (a `Copy` value such as a function
/// pointer); `S` is the native surface.
pub struct Repr<A, S> {
    surface: S,
    last_menu_id: u32,
    actions: HashMap<u32, A>,
    balloon_action: Option<A>,
    event_sender: Sender<Event>,
    closed: bool,
}

impl<A, S> View for Repr<A, S> {
    type V = TrayModel<A>;

    closed spec fn view(&self) -> TrayModel<A> {
        TrayModel {
            last_menu_id: self.last_menu_id,
            actions: self.actions@,
            balloon_action: self.balloon_action,
            closed: self.closed,
        }
    }
}

impl<A: Copy, S: Surface> Repr<A, S> {
    /// Fresh shared state wrapping a surface, in the initial configuration.
    pub fn new(surface: S, event_sender: Sender<Event>) -> (r: Self)
        ensures
            r@ == TrayModel::<A>::initial(),
    {
        Repr {
            surface,
            last_menu_id: 0,
            actions: HashMap::new(),
            balloon_action: None,
            event_sender,
            closed: false,
        }
    }

    /// Whether the presence has been closed.
    pub fn is_closed(&self) -> (r: bool)
        ensures
            r == self@.closed,
    {
        self.closed
    }

    /// The id the next menu entry will receive; equally, how many menu ids
    /// have been consumed so far.
    pub fn last_menu_id(&self) -> (r: u32)
        ensures
            r == self@.next_id(),
    {
        self.last_menu_id
    }

    /// Hands out the next menu id.  Ids grow by exactly one per call and are
    /// never reclaimed.
    fn next_menu_id(&mut self) -> (id: u32)
        requires
            old(self)@.next_id() < u32::MAX,
        ensures
            id == old(self)@.next_id(),
            final(self)@ == old(self)@.consume_id(),
    {
        let id = self.last_menu_id;
        self.last_menu_id = self.last_menu_id + 1;
        id
    }

    /// Forwards an icon to the surface.  The icon is not cached, so the
    /// state is unchanged on every outcome; after close the call fails
    /// without reaching the surface.
    pub fn set_icon(&mut self, icon: &Icon) -> (r: Result<(), Error>)
        ensures
            final(self)@ == old(self)@,
            old(self)@.closed <==> r == Err::<(), Error>(Error::ClosedHandle),
            !old(self)@.closed ==> (r matches Err(e) ==> e is SurfaceOperationFailure),
    {
        if self.closed {
            Err(Error::ClosedHandle)
        } else {
            surface_result(self.surface.set_icon(icon))
        }
    }

    /// Forwards a tooltip to the surface.  Analogous to `set_icon`: no local
    /// state changes on any outcome.
    pub fn set_tip(&mut self, tip: &str) -> (r: Result<(), Error>)
        ensures
            final(self)@ == old(self)@,
            old(self)@.closed <==> r == Err::<(), Error>(Error::ClosedHandle),
            !old(self)@.closed ==> (r matches Err(e) ==> e is SurfaceOperationFailure),
    {
        if self.closed {
            Err(Error::ClosedHandle)
        } else {
            surface_result(self.surface.set_tip(tip))
        }
    }

    /// Allocates the next menu id and forwards the entry to the surface.
    /// Only a selectable entry that the surface accepted registers its
    /// action; a rejected entry still consumes the id (ids are never
    /// reclaimed) and adds no registry entry.
    pub fn add_menu_item(&mut self, item: &MenuItem<A>) -> (r: Result<(), Error>)
        requires
            old(self)@.next_id() < u32::MAX,
        ensures
            old(self)@.closed <==> r == Err::<(), Error>(Error::ClosedHandle),
            old(self)@.closed ==> final(self)@ == old(self)@,
            !old(self)@.closed ==> final(self)@.next_id() == old(self)@.next_id() + 1,
            !old(self)@.closed && r is Ok ==> (item matches MenuItem::Action(_, action)
                ==> final(self)@ == old(self)@.register_action(*action)),
            !old(self)@.closed && r is Ok && item is Separator
                ==> final(self)@ == old(self)@.consume_id(),
            !old(self)@.closed ==> (r matches Err(e)
                ==> final(self)@ == old(self)@.consume_id() && e is SurfaceOperationFailure),
            old(self)@.wf() ==> final(self)@.wf(),
    {
        if self.closed {
            return Err(Error::ClosedHandle);
        }
        match item {
            MenuItem::Action(title, action) => {
                let id = self.next_menu_id();
                match self.surface.add_menu_item(id, title.as_str()) {
                    Ok(()) => {
                        self.actions.insert(id, *action);
                        Ok(())
                    },
                    Err(m) => Err(Error::SurfaceOperationFailure(m)),
                }
            },
            MenuItem::Separator => {
                let id = self.next_menu_id();
                surface_result(self.surface.add_menu_separator(id))
            },
        }
    }

    /// Shows a balloon notification and, on success, unconditionally
    /// overwrites the single pending balloon-click slot with `action`,
    /// discarding any previously pending callback.  Only the most recently
    /// shown balloon's action can ever fire.
    pub fn show_balloon(&mut self, title: &str, body: &str, action: A) -> (r: Result<(), Error>)
        ensures
            old(self)@.closed <==> r == Err::<(), Error>(Error::ClosedHandle),
            old(self)@.closed ==> final(self)@ == old(self)@,
            !old(self)@.closed && r is Ok ==> final(self)@ == old(self)@.set_balloon(action),
            !old(self)@.closed ==> (r matches Err(e)
                ==> final(self)@ == old(self)@ && e is SurfaceOperationFailure),
    {
        if self.closed {
            return Err(Error::ClosedHandle);
        }
        match self.surface.show_balloon(title, body) {
            Ok(()) => {
                self.balloon_action = Some(action);
                Ok(())
            },
            Err(m) => Err(Error::SurfaceOperationFailure(m)),
        }
    }

    /// Destroys the surface and signals shutdown, once: a second close is a
    /// no-op with no further side effect, and never an error.  The shutdown
    /// signal is best effort; a failed send means the dispatch loop already
    /// stopped and is ignored.
    pub fn close(&mut self) -> (r: Result<(), Error>)
        ensures
            r is Ok,
            final(self)@ == old(self)@.after_close(),
    {
        if self.closed {
            return Ok(());
        }
        self.closed = true;
        self.surface.close();
        let _ = self.event_sender.send(Event::Quit);
        Ok(())
    }

    /// Looks up what a menu-selection event for `id` dispatches.  The
    /// registry is left as it is: the same entry can fire again on a later
    /// event, and an unknown id (a separator or a stale id) dispatches
    /// nothing and is not an error.
    pub fn menu_action(&self, id: u32) -> (r: Option<A>)
        ensures
            r == self@.menu_dispatch(id),
    {
        match self.actions.get(&id) {
            Some(action) => Some(*action),
            None => None,
        }
    }

    /// Takes the pending balloon-click action, leaving the slot empty: each
    /// shown balloon's action can be dispatched at most once.
    pub fn take_balloon_action(&mut self) -> (r: Option<A>)
        ensures
            r == old(self)@.balloon_dispatch(),
            final(self)@ == old(self)@.clear_balloon(),
    {
        let r = self.balloon_action;
        self.balloon_action = None;
        r
    }
}

} // verus!
