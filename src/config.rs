//! Per-target tooltip configuration.
use vstd::prelude::*;

verus! {

/// A position on screen, in whole logical pixels.
#[derive(Clone, Copy, Debug, PartialEq, Eq)]
pub struct Point {
    pub x: i32,
    pub y: i32,
}

/// Where the tooltip's visual content lives.
#[derive(Clone, Copy, Debug, PartialEq, Eq)]
pub enum TooltipContent {
    /// Text rendered into the shared primary tooltip container.
    Primary,
    /// A target-supplied content entity.
    Custom(u64),
}

/// When a hovered target's tooltip becomes visible.
#[derive(Clone, Copy, Debug, PartialEq, Eq)]
pub struct TooltipActivation {
    /// Time the target must be hovered before the tooltip shows (milliseconds).
    pub delay: u16,
    /// Restart the delay whenever the pointer moves.
    pub reset_delay_on_cursor_move: bool,
}

/// When a visible tooltip is dismissed.
#[derive(Clone, Copy, Debug, PartialEq, Eq)]
pub struct TooltipDismissal {
    /// Distance from the activation point beyond which the tooltip is dismissed (pixels).
    pub on_distance: u32,
    /// Dismiss when the target is clicked.
    pub on_click: bool,
}

/// Fast hand-off of tooltip focus between related targets.
#[derive(Clone, Copy, Debug, PartialEq, Eq)]
pub struct TooltipTransfer {
    /// Transfer only goes to targets on this layer or below.
    pub layer: i8,
    /// Transfer only goes to targets of the same group.
    pub group: Option<i8>,
    /// How long after leaving a target a transfer is still possible (milliseconds).
    pub timeout: u16,
    /// Only open the transfer window when leaving a tooltip that was shown.
    pub from_active: bool,
}

/// The tooltip configuration attached to a hoverable target.
#[derive(Clone, Copy, Debug, PartialEq, Eq)]
pub struct Tooltip {
    pub content: TooltipContent,
    pub activation: TooltipActivation,
    pub dismissal: TooltipDismissal,
    pub transfer: TooltipTransfer,
}

/// The entity that displays `t`'s content: the shared container for primary content.
pub open spec fn content_entity(t: Tooltip, container: u64) -> u64 {
    match t.content {
        TooltipContent::Primary => container,
        TooltipContent::Custom(id) => id,
    }
}

impl Tooltip {
    /// A tooltip with primary content, no delay, no dismissal and no transfer.
    pub fn primary() -> (r: Tooltip)
        ensures
            r.content == TooltipContent::Primary,
            r.activation.delay == 0,
            !r.activation.reset_delay_on_cursor_move,
            r.dismissal.on_distance == 0,
            !r.dismissal.on_click,
            r.transfer.layer == 0,
            r.transfer.group.is_none(),
            r.transfer.timeout == 0,
            !r.transfer.from_active,
    {
        Tooltip {
            content: TooltipContent::Primary,
            activation: TooltipActivation { delay: 0, reset_delay_on_cursor_move: false },
            dismissal: TooltipDismissal { on_distance: 0, on_click: false },
            transfer: TooltipTransfer { layer: 0, group: None, timeout: 0, from_active: false },
        }
    }

    /// The entity that displays this tooltip's content.
    pub fn content_entity(&self, container: u64) -> (r: u64)
        ensures
            r == content_entity(*self, container),
    {
        match self.content {
            TooltipContent::Primary => container,
            TooltipContent::Custom(id) => id,
        }
    }
}

} // verus!
