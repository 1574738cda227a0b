//! The controls in the title bar of each pane.
use vstd::prelude::*;

verus! {

/// The button that maximizes a pane or restores the grid.
#[derive(Clone, Copy, Debug, PartialEq, Eq, Structural)]
pub enum MaximizeButton {
    Maximize,
    Restore,
}

/// Which controls a pane's title bar offers besides splitting.
#[derive(Clone, Copy, Debug, PartialEq, Eq, Structural)]
pub struct PanelControls {
    pub maximize: Option<MaximizeButton>,
    pub close: bool,
}

/// The controls of a pane: with more than one pane, a maximized pane can be restored and any
/// other maximized; with more than one pane, an unpinned pane can be closed.
pub open spec fn spec_panel_controls(pane_count: usize, is_pinned: bool, is_maximized: bool)
    -> PanelControls {
    PanelControls {
        maximize: if pane_count > 1 {
            if is_maximized {
                Some(MaximizeButton::Restore)
            } else {
                Some(MaximizeButton::Maximize)
            }
        } else {
            None
        },
        close: pane_count > 1 && !is_pinned,
    }
}

/// The controls of a pane's title bar.
pub fn panel_controls(pane_count: usize, is_pinned: bool, is_maximized: bool) -> (controls:
    PanelControls)
    ensures
        controls == spec_panel_controls(pane_count, is_pinned, is_maximized),
{
    let maximize = if pane_count > 1 {
        if is_maximized {
            Some(MaximizeButton::Restore)
        } else {
            Some(MaximizeButton::Maximize)
        }
    } else {
        None
    };
    PanelControls { maximize, close: pane_count > 1 && !is_pinned }
}

/// The label of the pin button of a pane.
pub fn pin_label(is_pinned: bool) -> (label: String)
    ensures
        label@ == if is_pinned {
            "Unpin"@
        } else {
            "Pin"@
        },
{
    if is_pinned {
        String::from_str("Unpin")
    } else {
        String::from_str("Pin")
    }
}

} // verus!
