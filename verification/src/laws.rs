use vstd::prelude::*;

use crate::state::TrayModel;

verus! {

/// Menu-id allocation is strictly monotonic and ids are never reused: in a
/// well-formed state the id handed out next is above every registered id,
/// both kinds of insertion (a selectable entry and a separator or rejected
/// entry) raise the next id by exactly one, and well-formedness is kept, so
/// the same id can never be handed out again.
pub proof fn lemma_menu_ids_monotonic<A>(m: TrayModel<A>, action: A)
    requires
        m.wf(),
        m.next_id() < u32::MAX,
    ensures
        !m.actions.contains_key(m.next_id()),
        m.register_action(action).next_id() == m.next_id() + 1,
        m.consume_id().next_id() == m.next_id() + 1,
        m.register_action(action).actions == m.actions.insert(m.next_id(), action),
        m.register_action(action).wf(),
        m.consume_id().wf(),
{
}

/// The states a sequence of menu additions walks through, one step per
/// entry: `Some(action)` is a selectable entry the surface accepted, `None`
/// a separator or a rejected entry (either way the id is consumed).
pub open spec fn apply_adds<A>(m: TrayModel<A>, steps: Seq<Option<A>>) -> TrayModel<A>
    decreases steps.len(),
{
    if steps.len() == 0 {
        m
    } else {
        let next = match steps[0] {
            Some(action) => m.register_action(action),
            None => m.consume_id(),
        };
        apply_adds(next, steps.drop_first())
    }
}

/// Over any sequence of menu additions, with separators and rejections
/// interleaved freely, id allocation stays strictly monotonic and gap-free
/// (one fresh id per entry), well-formedness is kept, and no id allocated
/// earlier is ever handed out or written again: what was registered under
/// an old id stays registered, untouched.
pub proof fn lemma_menu_ids_monotonic_over_sequence<A>(m: TrayModel<A>, steps: Seq<Option<A>>)
    requires
        m.wf(),
        m.next_id() + steps.len() <= u32::MAX,
    ensures
        apply_adds(m, steps).next_id() == m.next_id() + steps.len(),
        apply_adds(m, steps).wf(),
        forall|id: u32|
            id < m.next_id() ==> #[trigger] apply_adds(m, steps).actions.contains_key(id)
                == m.actions.contains_key(id),
        forall|id: u32|
            id < m.next_id() && m.actions.contains_key(id)
                ==> #[trigger] apply_adds(m, steps).actions[id] == m.actions[id],
    decreases steps.len(),
{
    if steps.len() > 0 {
        let next = match steps[0] {
            Some(action) => m.register_action(action),
            None => m.consume_id(),
        };
        match steps[0] {
            Some(action) => lemma_menu_ids_monotonic(m, action),
            None => lemma_menu_ids_monotonic(m, arbitrary::<A>()),
        }
        lemma_menu_ids_monotonic_over_sequence(next, steps.drop_first());
    }
}

/// A menu-selection event for a registered id dispatches exactly the
/// registered action, and dispatch does not change the registry: the same
/// entry dispatches again on the next event.
pub proof fn lemma_menu_dispatch_registered<A>(m: TrayModel<A>, id: u32)
    requires
        m.actions.contains_key(id),
    ensures
        m.menu_dispatch(id) == Some(m.actions[id]),
{
}

/// A menu-selection event for an id with no registered action (a separator
/// or an unknown id) dispatches nothing.
pub proof fn lemma_menu_dispatch_unregistered<A>(m: TrayModel<A>, id: u32)
    requires
        !m.actions.contains_key(id),
    ensures
        m.menu_dispatch(id) is None,
{
}

/// Showing a second balloon before any click leaves only the second action
/// eligible to fire: a balloon click then dispatches the second action, the
/// slot is emptied so it fires at most once, and the first action can never
/// fire.
pub proof fn lemma_balloon_overwrite<A>(m: TrayModel<A>, first: A, second: A)
    ensures
        ({
            let shown = m.set_balloon(first).set_balloon(second);
            &&& shown.balloon_dispatch() == Some(second)
            &&& shown.clear_balloon().balloon_dispatch() is None
            &&& (first != second ==> shown.balloon_dispatch() != Some(first))
        }),
{
}

/// Closing is idempotent: a second close finds the closed state and changes
/// nothing, whichever state the first close started from.
pub proof fn lemma_close_idempotent<A>(m: TrayModel<A>)
    ensures
        m.after_close().after_close() == m.after_close(),
{
}

} // verus!
