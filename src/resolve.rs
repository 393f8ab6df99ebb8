//! Finding the single target under the pointer: layered UI first, then world-space targets.
use vstd::prelude::*;

use crate::config::{Point, Tooltip};
use crate::context::Found;

verus! {

/// The pointer's interaction with a UI element.
#[derive(Clone, Copy, Debug, PartialEq, Eq)]
pub enum Interaction {
    Pressed,
    Hovered,
    /// Neither hovered nor pressed.
    Idle,
}

/// A UI element with a tooltip, as seen in one frame.
#[derive(Clone, Copy, Debug, PartialEq, Eq)]
pub struct UiTarget {
    pub entity: u64,
    pub tooltip: Tooltip,
    pub interaction: Interaction,
}

/// A width and height on screen, in whole logical pixels.
#[derive(Clone, Copy, Debug, PartialEq, Eq)]
pub struct Size {
    pub width: u32,
    pub height: u32,
}

/// Side length of the bounds of a world-space target that declares no size.
pub const DEFAULT_TARGET_SIZE: u32 = 32;

/// A world-space target with a tooltip, projected to the screen.
#[derive(Clone, Copy, Debug, PartialEq, Eq)]
pub struct WorldTarget {
    pub entity: u64,
    pub tooltip: Tooltip,
    /// Where the target's center lands on screen.
    pub screen_center: Point,
    /// The target's declared size, if any.
    pub custom_size: Option<Size>,
}

/// The element is hovered or pressed.
pub open spec fn interacting(t: UiTarget) -> bool {
    t.interaction != Interaction::Idle
}

/// The first index from `i` on whose element is interacted with.
pub open spec fn first_interacting(ui: Seq<UiTarget>, i: int) -> Option<int>
    decreases ui.len() - i,
{
    if i < 0 || i >= ui.len() {
        None
    } else if interacting(ui[i]) {
        Some(i)
    } else {
        first_interacting(ui, i + 1)
    }
}

/// The bounds used for `t`: its declared size, or the default square.
pub open spec fn target_size(t: WorldTarget) -> Size {
    match t.custom_size {
        Some(s) => s,
        None => Size { width: DEFAULT_TARGET_SIZE, height: DEFAULT_TARGET_SIZE },
    }
}

/// Whether `p` lies in the box of size `size` centered on `center`, edges included.
pub open spec fn box_contains(center: Point, size: Size, p: Point) -> bool {
    center.x - size.width / 2 <= p.x <= center.x + size.width / 2
        && center.y - size.height / 2 <= p.y <= center.y + size.height / 2
}

/// Whether `p` lies within the on-screen bounds of `t`.
pub open spec fn target_contains(t: WorldTarget, p: Point) -> bool {
    box_contains(t.screen_center, target_size(t), p)
}

/// The first index from `i` on whose target contains `p`.
pub open spec fn first_containing(world: Seq<WorldTarget>, p: Point, i: int) -> Option<int>
    decreases world.len() - i,
{
    if i < 0 || i >= world.len() {
        None
    } else if target_contains(world[i], p) {
        Some(i)
    } else {
        first_containing(world, p, i + 1)
    }
}

/// What an interacted-with UI element means: a press that dismisses, or a hover.
pub open spec fn ui_found(t: UiTarget) -> Found {
    if t.interaction == Interaction::Pressed && t.tooltip.dismissal.on_click {
        Found::Dismiss { entity: t.entity, transfer: t.tooltip.transfer }
    } else {
        Found::Hover { entity: t.entity, tooltip: t.tooltip }
    }
}

/// The target of a frame: the topmost interacted-with UI element; failing that, the first
/// world-space target containing the world pointer, when there is one.
pub open spec fn resolution(
    ui: Seq<UiTarget>,
    world_pointer: Option<Point>,
    world: Seq<WorldTarget>,
) -> Found {
    match first_interacting(ui, 0) {
        Some(i) => ui_found(ui[i]),
        None => match world_pointer {
            None => Found::Nothing,
            Some(p) => match first_containing(world, p, 0) {
                Some(j) => Found::Hover { entity: world[j].entity, tooltip: world[j].tooltip },
                None => Found::Nothing,
            },
        },
    }
}

/// The element `first_interacting` picks is interacted with, and none before it from `i` on is.
pub proof fn lemma_first_interacting(ui: Seq<UiTarget>, i: int)
    requires
        0 <= i,
    ensures
        match first_interacting(ui, i) {
            Some(k) => i <= k < ui.len() && interacting(ui[k]) && forall|j: int|
                i <= j < k ==> !interacting(#[trigger] ui[j]),
            None => forall|j: int| i <= j < ui.len() ==> !interacting(#[trigger] ui[j]),
        },
    decreases ui.len() - i,
{
    if i < ui.len() && !interacting(ui[i]) {
        lemma_first_interacting(ui, i + 1);
    }
}

/// The target `first_containing` picks contains `p`, and none before it from `i` on does.
pub proof fn lemma_first_containing(world: Seq<WorldTarget>, p: Point, i: int)
    requires
        0 <= i,
    ensures
        match first_containing(world, p, i) {
            Some(k) => i <= k < world.len() && target_contains(world[k], p) && forall|j: int|
                i <= j < k ==> !target_contains(#[trigger] world[j], p),
            None => forall|j: int| i <= j < world.len() ==> !target_contains(#[trigger] world[j], p),
        },
    decreases world.len() - i,
{
    if i < world.len() && !target_contains(world[i], p) {
        lemma_first_containing(world, p, i + 1);
    }
}

/// Whether `point` lies within the on-screen bounds of `target`, taken as centered on its
/// projected position; edges count as inside.
pub fn sprite_contains_point(target: &WorldTarget, point: Point) -> (r: bool)
    ensures
        r == target_contains(*target, point),
{
    let size = match target.custom_size {
        Some(s) => s,
        None => Size { width: DEFAULT_TARGET_SIZE, height: DEFAULT_TARGET_SIZE },
    };
    let half_w: i64 = (size.width / 2) as i64;
    let half_h: i64 = (size.height / 2) as i64;
    let cx: i64 = target.screen_center.x as i64;
    let cy: i64 = target.screen_center.y as i64;
    let px: i64 = point.x as i64;
    let py: i64 = point.y as i64;
    cx - half_w <= px && px <= cx + half_w && cy - half_h <= py && py <= cy + half_h
}

/// The index of the topmost UI element that is interacted with.
pub fn find_ui_target(ui: &Vec<UiTarget>) -> (r: Option<usize>)
    ensures
        match r {
            Some(i) => first_interacting(ui@, 0) == Some(i as int),
            None => first_interacting(ui@, 0).is_none(),
        },
{
    let mut i: usize = 0;
    while i < ui.len()
        invariant
            i <= ui@.len(),
            first_interacting(ui@, 0) == first_interacting(ui@, i as int),
        decreases ui@.len() - i,
    {
        match ui[i].interaction {
            Interaction::Idle => {},
            _ => {
                return Some(i);
            },
        }
        i = i + 1;
    }
    None
}

/// The index of the first world-space target whose bounds contain `point`.
pub fn find_world_target(world: &Vec<WorldTarget>, point: Point) -> (r: Option<usize>)
    ensures
        match r {
            Some(i) => first_containing(world@, point, 0) == Some(i as int),
            None => first_containing(world@, point, 0).is_none(),
        },
{
    let mut i: usize = 0;
    while i < world.len()
        invariant
            i <= world@.len(),
            first_containing(world@, point, 0) == first_containing(world@, point, i as int),
        decreases world@.len() - i,
    {
        if sprite_contains_point(&world[i], point) {
            return Some(i);
        }
        i = i + 1;
    }
    None
}

/// The target of a frame. UI elements are listed topmost first; `world_pointer` is the
/// pointer position used for world-space targets, absent when no camera can project them.
pub fn resolve_target(ui: &Vec<UiTarget>, world_pointer: Option<Point>, world: &Vec<WorldTarget>) -> (r: Found)
    ensures
        r == resolution(ui@, world_pointer, world@),
{
    proof {
        lemma_first_interacting(ui@, 0);
        if let Some(p) = world_pointer {
            lemma_first_containing(world@, p, 0);
        }
    }
    match find_ui_target(ui) {
        Some(i) => {
            let t = ui[i];
            let pressed = match t.interaction {
                Interaction::Pressed => true,
                _ => false,
            };
            if pressed && t.tooltip.dismissal.on_click {
                Found::Dismiss { entity: t.entity, transfer: t.tooltip.transfer }
            } else {
                Found::Hover { entity: t.entity, tooltip: t.tooltip }
            }
        },
        None => match world_pointer {
            None => Found::Nothing,
            Some(p) => match find_world_target(world, p) {
                Some(j) => Found::Hover { entity: world[j].entity, tooltip: world[j].tooltip },
                None => Found::Nothing,
            },
        },
    }
}

/// UI elements take strict priority: while any UI element is interacted with, the frame's
/// target is the topmost such element, whatever the world-space targets are.
pub proof fn lemma_ui_has_priority(
    ui: Seq<UiTarget>,
    i: int,
    world_pointer: Option<Point>,
    world: Seq<WorldTarget>,
)
    requires
        0 <= i < ui.len(),
        interacting(ui[i]),
        forall|j: int| 0 <= j < i ==> !interacting(#[trigger] ui[j]),
    ensures
        resolution(ui, world_pointer, world) == ui_found(ui[i]),
{
    lemma_first_interacting(ui, 0);
}

} // verus!
