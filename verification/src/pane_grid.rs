//! The toolkit's pane grid, as the update rules see it: a map from pane handles to the state
//! of each pane, the order in which its layout holds the panes, the pane maximized, and how
//! many handles it has given out. The sizes of the panes (floating-point ratios) are the
//! toolkit's and are not modelled here.
use vstd::prelude::*;
use iced::widget::pane_grid::{Axis, Direction, Edge, Pane, Region, State, Target};
use crate::PaneState;

verus! {

/// A handle of a pane of the grid.
#[verifier::external_type_specification]
#[verifier::external_body]
pub struct ExPane(Pane);

/// The axis along which a pane is split.
#[verifier::external_type_specification]
#[verifier::external_body]
pub struct ExAxis(Axis);

/// A direction in which to look for a neighbouring pane.
#[verifier::external_type_specification]
#[verifier::external_body]
pub struct ExDirection(Direction);

/// The state of a pane grid whose panes hold a `T`.
#[verifier::external_type_specification]
#[verifier::external_body]
#[verifier::reject_recursive_types(T)]
pub struct ExPaneGridState<T>(State<T>);

/// The panes of a grid: each pane's handle and its state.
pub uninterp spec fn grid_panes(grid: State<PaneState>) -> Map<Pane, PaneState>;

/// The panes of the grid's layout (`State::layout`), in the order in which its tree holds
/// them: of each split, the panes of its first side before those of its second.
pub uninterp spec fn layout_order(grid: State<PaneState>) -> Seq<Pane>;

/// The pane shown alone, if one is maximized (`State::maximized`).
pub uninterp spec fn grid_maximized(grid: State<PaneState>) -> Option<Pane>;

/// The number of the last handle (of a pane or of a split) that the grid has given out,
/// which `State` keeps in its internal state.
pub uninterp spec fn handles_given(grid: State<PaneState>) -> usize;

/// The pane next to `pane` in `direction`, as the grid's layout places them.
pub uninterp spec fn adjacent_pane(grid: State<PaneState>, pane: Pane, direction: Direction)
    -> Option<Pane>;

/// The grid can still give out the two handles that a split takes.
pub open spec fn handles_left(grid: State<PaneState>) -> bool {
    handles_given(grid) + 2 <= usize::MAX
}

/// The layout can give up `pane`: it holds `pane` beside at least one other pane.
pub open spec fn layout_removable(grid: State<PaneState>, pane: Pane) -> bool {
    layout_order(grid).contains(pane) && layout_order(grid).len() > 1
}

/// The grid can close `pane`: the layout can give it up and the pane has a state.
pub open spec fn closable(grid: State<PaneState>, pane: Pane) -> bool {
    layout_removable(grid, pane) && grid_panes(grid).contains_key(pane)
}

/// What a split of `pane` that puts a pane holding `state` beside it leaves, given the new
/// pane's handle if one was made: a split is made exactly when `pane` is in the layout and
/// handles are left; the new pane then stands right after `pane` in the layout, holds
/// `state`, and no pane is maximized any more; every other pane is as it was. Without a split no pane
/// changes, and when `pane` is not in the layout nothing changes at all.
pub open spec fn split_outcome(
    before: State<PaneState>,
    after: State<PaneState>,
    pane: Pane,
    state: PaneState,
    new_pane: Option<Pane>,
) -> bool {
    &&& new_pane is Some <==> layout_order(before).contains(pane) && handles_left(before)
    &&& !layout_order(before).contains(pane) ==> after == before
    &&& match new_pane {
        Some(p) => {
            &&& grid_panes(after) == grid_panes(before).insert(p, state)
            &&& !layout_order(before).contains(p)
            &&& exists|i: int|
                0 <= i < layout_order(before).len() && layout_order(before)[i] == pane
                    && layout_order(after) == layout_order(before).insert(i + 1, p)
            &&& grid_maximized(after) is None
            &&& handles_given(after) == handles_given(before) + 2
        },
        None => {
            &&& grid_panes(after) == grid_panes(before)
            &&& layout_order(after) == layout_order(before)
            &&& grid_maximized(after) == grid_maximized(before)
        },
    }
}

/// What closing `pane` leaves, given the sibling handed back if any: the pane is closed
/// exactly when the grid can close it; the layout gives it up whenever it can (and the
/// sibling then stands in it), the pane's state goes exactly when it is closed, and a
/// maximized `pane` is no longer maximized. When the layout cannot give the pane up and it is
/// not maximized, nothing changes.
pub open spec fn close_outcome(
    before: State<PaneState>,
    after: State<PaneState>,
    pane: Pane,
    sibling: Option<Pane>,
) -> bool {
    &&& sibling is Some <==> closable(before, pane)
    &&& if layout_removable(before, pane) {
        exists|i: int|
            0 <= i < layout_order(before).len() && layout_order(before)[i] == pane
                && layout_order(after) == layout_order(before).remove(i)
    } else {
        layout_order(after) == layout_order(before)
    }
    &&& sibling matches Some(s) ==> layout_order(after).contains(s)
    &&& grid_panes(after) == if sibling is Some {
        grid_panes(before).remove(pane)
    } else {
        grid_panes(before)
    }
    &&& grid_maximized(after) == if grid_maximized(before) == Some(pane) {
        None
    } else {
        grid_maximized(before)
    }
    &&& handles_given(after) == handles_given(before)
    &&& !layout_removable(before, pane) && grid_maximized(before) != Some(pane) ==> after == before
}

/// `State::split`: splits `pane` along `axis` and puts a new pane holding `state` beside it,
/// giving back the new pane's handle; see `split_outcome`.
#[verifier::external_body]
pub(crate) fn grid_split(grid: &mut State<PaneState>, axis: Axis, pane: Pane, state: PaneState)
    -> (new_pane: Option<Pane>)
    ensures
        split_outcome(*old(grid), *final(grid), pane, state, new_pane),
{
    grid.split(axis, pane, state).map(|(new_pane, _split)| new_pane)
}

/// `State::close`: closes `pane` and gives back its closest sibling; see `close_outcome`.
#[verifier::external_body]
pub(crate) fn grid_close(grid: &mut State<PaneState>, pane: Pane) -> (sibling: Option<Pane>)
    ensures
        close_outcome(*old(grid), *final(grid), pane, sibling),
{
    grid.close(pane).map(|(_state, sibling)| sibling)
}

/// `State::get`: the state of `pane`, if it is in the grid.
#[verifier::external_body]
pub(crate) fn grid_get(grid: &State<PaneState>, pane: Pane) -> (state: Option<PaneState>)
    ensures
        state == if grid_panes(*grid).contains_key(pane) {
            Some(grid_panes(*grid)[pane])
        } else {
            None
        },
{
    grid.get(pane).copied()
}

/// `State::get_mut`, through which `value` is written as the state of `pane`, if `pane` is in
/// the grid; the result tells whether it was.
#[verifier::external_body]
pub(crate) fn grid_set(grid: &mut State<PaneState>, pane: Pane, value: PaneState) -> (found: bool)
    ensures
        found == grid_panes(*old(grid)).contains_key(pane),
        grid_panes(*final(grid)) == if found {
            grid_panes(*old(grid)).insert(pane, value)
        } else {
            grid_panes(*old(grid))
        },
{
    match grid.get_mut(pane) {
        Some(slot) => {
            *slot = value;
            true
        },
        None => false,
    }
}

/// `State::adjacent`: the pane next to `pane` in `direction`, as the layout places them.
#[verifier::external_body]
pub(crate) fn grid_adjacent(grid: &State<PaneState>, pane: Pane, direction: Direction) -> (adjacent:
    Option<Pane>)
    ensures
        adjacent == adjacent_pane(*grid, pane, direction),
{
    grid.adjacent(pane, direction)
}

/// A side of the grid or of a pane.
#[derive(Clone, Copy, Debug, PartialEq, Eq, Structural)]
pub enum DropEdge {
    Top,
    Bottom,
    Left,
    Right,
}

/// Where a dragged pane is dropped.
#[derive(Clone, Copy, Debug)]
pub enum DropTarget {
    /// A side of the whole grid.
    GridEdge(DropEdge),
    /// The middle of a pane: the two panes trade places.
    PaneCenter(Pane),
    /// A side of a pane: the dragged pane is put beside it on that side.
    PaneEdge(Pane, DropEdge),
}

/// The sides that put the dropped pane first: top and left.
pub open spec fn goes_first(edge: DropEdge) -> bool {
    edge == DropEdge::Top || edge == DropEdge::Left
}

/// `layout` with `a` and `b` trading places.
pub open spec fn swapped(layout: Seq<Pane>, a: Pane, b: Pane) -> Seq<Pane> {
    layout.map_values(
        |x: Pane|
            if x == a {
                b
            } else if x == b {
                a
            } else {
                x
            },
    )
}

/// Where the panes of the layout stand after `pane` is dropped on `target`, when the move
/// completes: on the middle of a pane, the two trade places (always); on a side of the grid,
/// `pane` goes first or last; on a side of another pane of the layout, `pane` goes right
/// before or right after it. A move to a side completes when the grid can close `pane`,
/// handles are left, and (for a pane's side) the other pane stands in the layout.
pub open spec fn drop_layout(grid: State<PaneState>, pane: Pane, target: DropTarget) -> Option<
    Seq<Pane>,
> {
    let layout = layout_order(grid);
    let rest = layout.remove(layout.index_of(pane));
    match target {
        DropTarget::PaneCenter(other) => Some(swapped(layout, pane, other)),
        DropTarget::GridEdge(edge) => if closable(grid, pane) && handles_left(grid) {
            Some(
                if goes_first(edge) {
                    seq![pane] + rest
                } else {
                    rest.push(pane)
                },
            )
        } else {
            None
        },
        DropTarget::PaneEdge(other, edge) => if closable(grid, pane) && handles_left(grid)
            && other != pane && layout.contains(other) {
            let at = rest.index_of(other);
            Some(
                if goes_first(edge) {
                    rest.insert(at, pane)
                } else {
                    rest.insert(at + 1, pane)
                },
            )
        } else {
            None
        },
    }
}

/// What dropping `pane` on `target` leaves: every pane left in the grid was there before,
/// with the same state. Dropped on the middle of a pane, the two trade places in the layout
/// and no state changes. Dropped on a side, in a layout that holds each pane once, a move
/// that completes puts `pane` where `drop_layout` says, keeping its state; a move that does
/// not complete may lose `pane`, and where the other panes then stand is left unsaid.
pub open spec fn drop_outcome(
    before: State<PaneState>,
    after: State<PaneState>,
    pane: Pane,
    target: DropTarget,
) -> bool {
    &&& grid_panes(after).submap_of(grid_panes(before))
    &&& target is PaneCenter ==> grid_panes(after) == grid_panes(before)
    &&& target is PaneCenter || layout_order(before).no_duplicates() ==> match drop_layout(
        before,
        pane,
        target,
    ) {
        Some(layout) => {
            &&& layout_order(after) == layout
            &&& grid_panes(after).contains_key(pane) == grid_panes(before).contains_key(pane)
            &&& grid_panes(after)[pane] == grid_panes(before)[pane]
        },
        None => true,
    }
}

/// `State::drop`: moves `pane` to `target`; see `drop_outcome`.
#[verifier::external_body]
pub(crate) fn grid_drop(grid: &mut State<PaneState>, pane: Pane, target: DropTarget)
    ensures
        drop_outcome(*old(grid), *final(grid), pane, target),
{
    let edge = |edge: DropEdge| match edge {
        DropEdge::Top => Edge::Top,
        DropEdge::Bottom => Edge::Bottom,
        DropEdge::Left => Edge::Left,
        DropEdge::Right => Edge::Right,
    };
    let target = match target {
        DropTarget::GridEdge(e) => Target::Edge(edge(e)),
        DropTarget::PaneCenter(other) => Target::Pane(other, Region::Center),
        DropTarget::PaneEdge(other, e) => Target::Pane(other, Region::Edge(edge(e))),
    };
    grid.drop(pane, target)
}

/// `State::maximize`: only `pane` is shown until the grid is restored; no pane changes.
#[verifier::external_body]
pub(crate) fn grid_maximize(grid: &mut State<PaneState>, pane: Pane)
    ensures
        grid_maximized(*final(grid)) == Some(pane),
        grid_panes(*final(grid)) == grid_panes(*old(grid)),
        layout_order(*final(grid)) == layout_order(*old(grid)),
        handles_given(*final(grid)) == handles_given(*old(grid)),
{
    grid.maximize(pane)
}

/// `State::restore`: no pane is maximized any more, and every pane is shown again; no pane
/// changes, and a grid with no pane maximized does not change at all.
#[verifier::external_body]
pub(crate) fn grid_restore(grid: &mut State<PaneState>)
    ensures
        grid_maximized(*final(grid)) is None,
        grid_maximized(*old(grid)) is None ==> *final(grid) == *old(grid),
        grid_panes(*final(grid)) == grid_panes(*old(grid)),
        layout_order(*final(grid)) == layout_order(*old(grid)),
        handles_given(*final(grid)) == handles_given(*old(grid)),
{
    grid.restore()
}

} // verus!
