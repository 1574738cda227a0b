//! The update rules of the pane grid: splitting, closing, pinning and moving panes, which pane
//! has the focus, how many panes were made, and what each pane shows.
use vstd::prelude::*;
use iced::widget::pane_grid::{Axis, Direction, Pane, State};
use crate::{ApplicationState, InterpreterPaneViewKind, PaneRelatedData, PaneState};
use crate::pane_grid::{
    adjacent_pane, close_outcome, drop_outcome, grid_adjacent, grid_close, grid_drop, grid_get,
    grid_maximize, grid_maximized, grid_panes, grid_restore, grid_set, grid_split, layout_order,
    split_outcome, DropTarget,
};

verus! {

broadcast use vstd::std_specs::hash::group_hash_axioms;

/// The state of the next pane to be made: it takes the count of panes made so far as its id.
pub fn new_pane_state(application_state: &ApplicationState) -> (pane: PaneState)
    ensures
        pane == (PaneState {
            id: application_state.pane_related_data.panes_created,
            is_pinned: false,
        }),
{
    PaneState::new(application_state.pane_related_data.panes_created)
}

/// `before` with the pane grid `panes`, the count of panes made `panes_created` and the focus
/// `focus`; everything else as it was.
pub open spec fn with_panes(
    before: ApplicationState,
    panes: State<PaneState>,
    panes_created: usize,
    focus: Option<Pane>,
) -> ApplicationState {
    ApplicationState {
        pane_related_data: PaneRelatedData {
            panes,
            panes_created,
            focus,
            ..before.pane_related_data
        },
        ..before
    }
}

/// What a split of `pane` leaves behind: one more pane was counted as made; the grid split
/// `pane` as `split_outcome` says, the new pane holding a fresh state whose id is the count
/// of panes made before; the new pane, if the grid made one, takes the focus.
pub open spec fn split_recorded(
    before: ApplicationState,
    after: ApplicationState,
    pane: Pane,
    new_pane: Option<Pane>,
) -> bool {
    &&& after == with_panes(
        before,
        after.pane_related_data.panes,
        (before.pane_related_data.panes_created + 1) as usize,
        match new_pane {
            Some(p) => Some(p),
            None => before.pane_related_data.focus,
        },
    )
    &&& split_outcome(
        before.pane_related_data.panes,
        after.pane_related_data.panes,
        pane,
        PaneState { id: before.pane_related_data.panes_created, is_pinned: false },
        new_pane,
    )
}

/// Inserting a pane whose id is the count of panes made, and counting it, keeps the pane ids
/// distinct and below the count.
proof fn lemma_split_keeps_ids(
    before: ApplicationState,
    after: ApplicationState,
    pane: Pane,
    new_pane: Option<Pane>,
)
    requires
        split_recorded(before, after, pane, new_pane),
        before.pane_related_data.pane_ids_wf(),
        before.pane_related_data.panes_created < usize::MAX,
    ensures
        after.pane_related_data.pane_ids_wf(),
{
    let old_panes = grid_panes(before.pane_related_data.panes);
    let new_panes = grid_panes(after.pane_related_data.panes);
    assert forall|p: Pane| #[trigger] new_panes.contains_key(p) implies new_panes[p].id
        < after.pane_related_data.panes_created by {
        if new_pane != Some(p) {
            assert(old_panes.contains_key(p));
        }
    }
    assert forall|p: Pane, q: Pane|
        #[trigger] new_panes.contains_key(p) && #[trigger] new_panes.contains_key(q) && p != q
        implies new_panes[p].id != new_panes[q].id by {
        if new_pane != Some(p) {
            assert(old_panes.contains_key(p));
        }
        if new_pane != Some(q) {
            assert(old_panes.contains_key(q));
        }
    }
}

/// Keeping some of the panes, each with its state, keeps the pane ids distinct and below the
/// count.
proof fn lemma_submap_keeps_ids(before: ApplicationState, after: ApplicationState)
    requires
        grid_panes(after.pane_related_data.panes).submap_of(grid_panes(before.pane_related_data.panes)),
        after.pane_related_data.panes_created == before.pane_related_data.panes_created,
        before.pane_related_data.pane_ids_wf(),
    ensures
        after.pane_related_data.pane_ids_wf(),
{
    let old_panes = grid_panes(before.pane_related_data.panes);
    let new_panes = grid_panes(after.pane_related_data.panes);
    assert(new_panes.submap_of(old_panes));
    assert forall|p: Pane| #[trigger] new_panes.contains_key(p) implies old_panes.contains_key(p)
        && new_panes[p] == old_panes[p] by {
        assert(new_panes.dom().contains(p));
        assert(old_panes.dom().contains(p));
    }
}

/// Split `pane` along `axis`; the new pane, if the grid made one, is given back.
pub fn pane_split(application_state: &mut ApplicationState, axis: Axis, pane: Pane) -> (new_pane:
    Option<Pane>)
    requires
        old(application_state).pane_related_data.panes_created < usize::MAX,
    ensures
        split_recorded(*old(application_state), *final(application_state), pane, new_pane),
        old(application_state).pane_related_data.pane_ids_wf()
            ==> final(application_state).pane_related_data.pane_ids_wf(),
{
    let fresh = new_pane_state(application_state);
    let result = grid_split(&mut application_state.pane_related_data.panes, axis, pane, fresh);
    if let Some(p) = result {
        application_state.pane_related_data.focus = Some(p);
    }
    application_state.pane_related_data.panes_created =
        application_state.pane_related_data.panes_created + 1;
    proof {
        if old(application_state).pane_related_data.pane_ids_wf() {
            lemma_split_keeps_ids(*old(application_state), *application_state, pane, result);
        }
    }
    result
}

/// Split the focused pane along `axis`, if a pane has the focus; the new pane, if the grid
/// made one, is given back.
pub fn pane_split_focussed(application_state: &mut ApplicationState, axis: Axis) -> (new_pane:
    Option<Pane>)
    requires
        old(application_state).pane_related_data.focus is Some
            ==> old(application_state).pane_related_data.panes_created < usize::MAX,
    ensures
        match old(application_state).pane_related_data.focus {
            Some(f) => split_recorded(*old(application_state), *final(application_state), f, new_pane),
            None => new_pane is None && *final(application_state) == *old(application_state),
        },
        old(application_state).pane_related_data.pane_ids_wf()
            ==> final(application_state).pane_related_data.pane_ids_wf(),
{
    match application_state.pane_related_data.focus {
        Some(pane) => pane_split(application_state, axis, pane),
        None => None,
    }
}

/// Move the focus to the pane next to the focused one in `direction`, if the grid has one.
pub fn pane_focus_adjacent(application_state: &mut ApplicationState, direction: Direction)
    ensures
        *final(application_state) == match old(application_state).pane_related_data.focus {
            Some(f) => match adjacent_pane(old(application_state).pane_related_data.panes, f, direction) {
                Some(p) => with_panes(
                    *old(application_state),
                    old(application_state).pane_related_data.panes,
                    old(application_state).pane_related_data.panes_created,
                    Some(p),
                ),
                None => *old(application_state),
            },
            None => *old(application_state),
        },
{
    if let Some(pane) = application_state.pane_related_data.focus {
        if let Some(adjacent) = grid_adjacent(&application_state.pane_related_data.panes, pane, direction) {
            application_state.pane_related_data.focus = Some(adjacent);
        }
    }
}

/// A click on a pane gives it the focus.
pub fn pane_clicked(application_state: &mut ApplicationState, pane: Pane)
    ensures
        *final(application_state) == with_panes(
            *old(application_state),
            old(application_state).pane_related_data.panes,
            old(application_state).pane_related_data.panes_created,
            Some(pane),
        ),
{
    application_state.pane_related_data.focus = Some(pane);
}

/// Move the dragged `pane` to `target`, as `drop_outcome` says.
pub fn pane_dragged(application_state: &mut ApplicationState, pane: Pane, target: DropTarget)
    ensures
        *final(application_state) == with_panes(
            *old(application_state),
            final(application_state).pane_related_data.panes,
            old(application_state).pane_related_data.panes_created,
            old(application_state).pane_related_data.focus,
        ),
        drop_outcome(
            old(application_state).pane_related_data.panes,
            final(application_state).pane_related_data.panes,
            pane,
            target,
        ),
        old(application_state).pane_related_data.pane_ids_wf()
            ==> final(application_state).pane_related_data.pane_ids_wf(),
{
    grid_drop(&mut application_state.pane_related_data.panes, pane, target);
    proof {
        if old(application_state).pane_related_data.pane_ids_wf() {
            lemma_submap_keeps_ids(*old(application_state), *application_state);
        }
    }
}

/// The pane pinned if it was not, unpinned if it was.
pub open spec fn spec_toggle_pin(pane: PaneState) -> PaneState {
    PaneState { is_pinned: !pane.is_pinned, ..pane }
}

/// Pin `pane` if it is unpinned, unpin it if it is pinned; nothing if it is not in the grid.
pub fn pane_toggle_pin(application_state: &mut ApplicationState, pane: Pane)
    ensures
        *final(application_state) == with_panes(
            *old(application_state),
            final(application_state).pane_related_data.panes,
            old(application_state).pane_related_data.panes_created,
            old(application_state).pane_related_data.focus,
        ),
        grid_panes(final(application_state).pane_related_data.panes) == if grid_panes(
            old(application_state).pane_related_data.panes,
        ).contains_key(pane) {
            grid_panes(old(application_state).pane_related_data.panes).insert(
                pane,
                spec_toggle_pin(grid_panes(old(application_state).pane_related_data.panes)[pane]),
            )
        } else {
            grid_panes(old(application_state).pane_related_data.panes)
        },
        !grid_panes(old(application_state).pane_related_data.panes).contains_key(pane)
            ==> *final(application_state) == *old(application_state),
        old(application_state).pane_related_data.pane_ids_wf()
            ==> final(application_state).pane_related_data.pane_ids_wf(),
{
    if let Some(current) = grid_get(&application_state.pane_related_data.panes, pane) {
        let toggled = PaneState { is_pinned: !current.is_pinned, ..current };
        grid_set(&mut application_state.pane_related_data.panes, pane, toggled);
    }
    proof {
        let old_panes = grid_panes(old(application_state).pane_related_data.panes);
        let new_panes = grid_panes(application_state.pane_related_data.panes);
        if old(application_state).pane_related_data.pane_ids_wf() {
            assert forall|p: Pane| #[trigger] new_panes.contains_key(p) implies old_panes.contains_key(p)
                && new_panes[p].id == old_panes[p].id by {}
        }
    }
}

/// Show only `pane` until the grid is restored; no pane changes and the layout stays.
pub fn pane_maximize(application_state: &mut ApplicationState, pane: Pane)
    ensures
        *final(application_state) == with_panes(
            *old(application_state),
            final(application_state).pane_related_data.panes,
            old(application_state).pane_related_data.panes_created,
            old(application_state).pane_related_data.focus,
        ),
        grid_maximized(final(application_state).pane_related_data.panes) == Some(pane),
        grid_panes(final(application_state).pane_related_data.panes) == grid_panes(
            old(application_state).pane_related_data.panes,
        ),
        layout_order(final(application_state).pane_related_data.panes) == layout_order(
            old(application_state).pane_related_data.panes,
        ),
{
    grid_maximize(&mut application_state.pane_related_data.panes, pane);
}

/// Show every pane again; no pane changes and the layout stays, and nothing changes when no
/// pane was maximized.
pub fn pane_restore(application_state: &mut ApplicationState)
    ensures
        *final(application_state) == with_panes(
            *old(application_state),
            final(application_state).pane_related_data.panes,
            old(application_state).pane_related_data.panes_created,
            old(application_state).pane_related_data.focus,
        ),
        grid_maximized(final(application_state).pane_related_data.panes) is None,
        grid_maximized(old(application_state).pane_related_data.panes) is None
            ==> *final(application_state) == *old(application_state),
        grid_panes(final(application_state).pane_related_data.panes) == grid_panes(
            old(application_state).pane_related_data.panes,
        ),
        layout_order(final(application_state).pane_related_data.panes) == layout_order(
            old(application_state).pane_related_data.panes,
        ),
{
    grid_restore(&mut application_state.pane_related_data.panes);
}

/// What closing `pane` leaves behind: the grid closed it or not as `close_outcome` says, and
/// the sibling handed back, if any, takes the focus.
pub open spec fn close_recorded(
    before: ApplicationState,
    after: ApplicationState,
    pane: Pane,
    sibling: Option<Pane>,
) -> bool {
    &&& after == with_panes(
        before,
        after.pane_related_data.panes,
        before.pane_related_data.panes_created,
        match sibling {
            Some(s) => Some(s),
            None => before.pane_related_data.focus,
        },
    )
    &&& close_outcome(before.pane_related_data.panes, after.pane_related_data.panes, pane, sibling)
}

/// Close `pane`; its sibling, if the grid closed it, is given back and takes the focus.
pub fn pane_close(application_state: &mut ApplicationState, pane: Pane) -> (sibling: Option<Pane>)
    ensures
        close_recorded(*old(application_state), *final(application_state), pane, sibling),
        old(application_state).pane_related_data.pane_ids_wf()
            ==> final(application_state).pane_related_data.pane_ids_wf(),
{
    let sibling = grid_close(&mut application_state.pane_related_data.panes, pane);
    if let Some(s) = sibling {
        application_state.pane_related_data.focus = Some(s);
    }
    proof {
        if old(application_state).pane_related_data.pane_ids_wf() {
            lemma_submap_keeps_ids(*old(application_state), *application_state);
        }
    }
    sibling
}

/// Whether the focused pane may be closed: a pane has the focus, it is in the grid, and it is
/// not pinned.
pub open spec fn focussed_closable(state: ApplicationState) -> bool {
    match state.pane_related_data.focus {
        Some(f) => grid_panes(state.pane_related_data.panes).contains_key(f) && !grid_panes(
            state.pane_related_data.panes,
        )[f].is_pinned,
        None => false,
    }
}

/// Close the focused pane, unless no pane has the focus or it is pinned; the sibling, if the
/// grid closed the pane, is given back and takes the focus.
pub fn pane_close_focussed(application_state: &mut ApplicationState) -> (sibling: Option<Pane>)
    ensures
        if focussed_closable(*old(application_state)) {
            close_recorded(
                *old(application_state),
                *final(application_state),
                old(application_state).pane_related_data.focus->Some_0,
                sibling,
            )
        } else {
            sibling is None && *final(application_state) == *old(application_state)
        },
        old(application_state).pane_related_data.pane_ids_wf()
            ==> final(application_state).pane_related_data.pane_ids_wf(),
{
    if let Some(pane) = application_state.pane_related_data.focus {
        if let Some(current) = grid_get(&application_state.pane_related_data.panes, pane) {
            if !current.is_pinned {
                return pane_close(application_state, pane);
            }
        }
    }
    None
}

/// Make the pane with id `key` show `kind`.
pub fn pane_set_active_view(
    application_state: &mut ApplicationState,
    kind: InterpreterPaneViewKind,
    key: usize,
)
    ensures
        final(application_state).pane_related_data.pane_purposes@ == old(
            application_state,
        ).pane_related_data.pane_purposes@.insert(key, kind),
        final(application_state).pane_related_data.panes == old(
            application_state,
        ).pane_related_data.panes,
        final(application_state).pane_related_data.panes_created == old(
            application_state,
        ).pane_related_data.panes_created,
        final(application_state).pane_related_data.focus == old(
            application_state,
        ).pane_related_data.focus,
        final(application_state).emulator_related_data == old(
            application_state,
        ).emulator_related_data,
        final(application_state).control_related_data == old(
            application_state,
        ).control_related_data,
        final(application_state).file_picker_related_data == old(
            application_state,
        ).file_picker_related_data,
        final(application_state).metadata_related_data == old(
            application_state,
        ).metadata_related_data,
{
    application_state.pane_related_data.pane_purposes.insert(key, kind);
}

/// The view that the pane with id `key` shows, if one was chosen.
pub fn pane_view(application_state: &ApplicationState, key: usize) -> (kind: Option<
    InterpreterPaneViewKind,
>)
    ensures
        kind == if application_state.pane_related_data.pane_purposes@.contains_key(key) {
            Some(application_state.pane_related_data.pane_purposes@[key])
        } else {
            None
        },
{
    match application_state.pane_related_data.pane_purposes.get(&key) {
        Some(k) => Some(*k),
        None => None,
    }
}

} // verus!
