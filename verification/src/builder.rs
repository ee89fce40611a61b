use vstd::prelude::*;

use std::sync::mpsc::Sender;

use crate::error::Error;
use crate::state::Repr;
use crate::state::TrayModel;
use crate::surface::Surface;
use crate::types::Event;
use crate::types::Icon;
use crate::types::MenuItem;

verus! {

/// The shared state `m` carries exactly the configuration accumulated in
/// `items`: one menu id per entry in insertion order (the entry at position
/// `j` got id `j`), with precisely the selectable entries' actions
/// registered under their ids.
pub open spec fn configured<A>(items: Seq<MenuItem<A>>, m: TrayModel<A>) -> bool {
    &&& m.next_id() == items.len()
    &&& forall|id: u32|
        id < items.len() ==> #[trigger] m.actions.contains_key(id) == (items[id as int]
            is Action)
    &&& forall|id: u32|
        id < items.len() ==> (items[id as int] matches MenuItem::Action(_, action)
            ==> m.actions.contains_key(id) && #[trigger] m.actions[id] == action)
    &&& forall|id: u32| #[trigger] m.actions.contains_key(id) ==> id < items.len()
}

/// One-shot accumulator for the initial configuration: an optional window
/// class name, an optional icon, an optional tooltip, and an ordered list of
/// menu entries.  Accumulation is pure: nothing touches the surface until
/// `finalize`.
pub struct WnaBuilder<A> {
    pub window_class: Option<&'static str>,
    pub icon: Option<Icon>,
    pub tip: Option<String>,
    pub menu_items: Vec<MenuItem<A>>,
}

impl<A> Default for WnaBuilder<A> {
    /// The empty configuration.
    fn default() -> (r: Self)
        ensures
            r.window_class is None,
            r.icon is None,
            r.tip is None,
            r.menu_items@ == Seq::<MenuItem<A>>::empty(),
    {
        WnaBuilder { window_class: None, icon: None, tip: None, menu_items: Vec::new() }
    }
}

impl<A> WnaBuilder<A> {
    /// The empty configuration.
    pub fn new() -> (r: Self)
        ensures
            r.window_class is None,
            r.icon is None,
            r.tip is None,
            r.menu_items@ == Seq::<MenuItem<A>>::empty(),
    {
        WnaBuilder { window_class: None, icon: None, tip: None, menu_items: Vec::new() }
    }

    /// Sets the class name the surface's window will be registered under.
    pub fn window_class(self, class: &'static str) -> (r: Self)
        ensures
            r.window_class == Some(class),
            r.icon == self.icon,
            r.tip == self.tip,
            r.menu_items@ == self.menu_items@,
    {
        WnaBuilder { window_class: Some(class), ..self }
    }

    /// Sets the icon applied on finalize.
    pub fn icon(self, icon: Icon) -> (r: Self)
        ensures
            r.window_class == self.window_class,
            r.icon == Some(icon),
            r.tip == self.tip,
            r.menu_items@ == self.menu_items@,
    {
        WnaBuilder { icon: Some(icon), ..self }
    }

    /// Sets the tooltip applied on finalize.
    pub fn tip(self, tip: &str) -> (r: Self)
        ensures
            r.window_class == self.window_class,
            r.icon == self.icon,
            r.tip matches Some(t) && t@ == tip@,
            r.menu_items@ == self.menu_items@,
    {
        WnaBuilder { tip: Some(tip.to_owned()), ..self }
    }

    /// The class name the surface's window is to be registered under: the
    /// accumulated one, or the default where none was set.
    pub fn effective_window_class(&self) -> (r: &str)
        ensures
            self.window_class matches Some(c) ==> r@ == c@,
            self.window_class is None ==> r@ == "wna_window_class"@,
    {
        match self.window_class {
            Some(c) => c,
            None => "wna_window_class",
        }
    }

    /// Appends a menu entry; entries are applied in the order supplied.
    pub fn menu_item(self, item: MenuItem<A>) -> (r: Self)
        ensures
            r.window_class == self.window_class,
            r.icon == self.icon,
            r.tip == self.tip,
            r.menu_items@ == self.menu_items@.push(item),
    {
        let mut b = self;
        b.menu_items.push(item);
        b
    }
}

impl<A: Copy> WnaBuilder<A> {
    /// Builds the shared state over a freshly created surface: constructs it
    /// in the initial configuration and applies the accumulated icon,
    /// tooltip and menu entries in call order, through the same code paths
    /// used after construction.  The first rejected call aborts and its
    /// error is propagated; the caller must not assume partial configuration
    /// was rolled back.
    pub fn finalize<S: Surface>(self, surface: S, event_sender: Sender<Event>) -> (r: Result<
        Repr<A, S>,
        Error,
    >)
        requires
            self.menu_items@.len() < u32::MAX,
        ensures
            r matches Ok(repr) ==> ({
                &&& repr@.wf()
                &&& !repr@.closed
                &&& repr@.balloon_dispatch() is None
                &&& configured(self.menu_items@, repr@)
            }),
            r matches Err(e) ==> e is SurfaceOperationFailure,
            self.icon is None && self.tip is None && self.menu_items@.len() == 0 ==> r is Ok,
    {
        let mut repr = Repr::<A, S>::new(surface, event_sender);
        if let Some(icon) = &self.icon {
            match repr.set_icon(icon) {
                Ok(()) => {},
                Err(e) => {
                    return Err(e);
                },
            }
        }
        if let Some(tip) = &self.tip {
            match repr.set_tip(tip.as_str()) {
                Ok(()) => {},
                Err(e) => {
                    return Err(e);
                },
            }
        }
        let mut i: usize = 0;
        while i < self.menu_items.len()
            invariant
                i <= self.menu_items@.len(),
                self.menu_items@.len() < u32::MAX,
                repr@.wf(),
                !repr@.closed,
                repr@.balloon_dispatch() is None,
                configured(self.menu_items@.take(i as int), repr@),
            decreases self.menu_items@.len() - i,
        {
            match repr.add_menu_item(&self.menu_items[i]) {
                Ok(()) => {},
                Err(e) => {
                    return Err(e);
                },
            }
            i = i + 1;
        }
        Ok(repr)
    }
}

} // verus!
