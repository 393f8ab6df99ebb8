//! The tooltip context and its per-frame state machine.
use vstd::prelude::*;

use crate::config::{content_entity, Point, Tooltip, TooltipTransfer};
use crate::resolve::{resolution, resolve_target, UiTarget, WorldTarget};

verus! {

/// The current state of the tooltip system.
#[derive(Clone, Copy, Debug, PartialEq, Eq)]
pub enum TooltipState {
    /// No target is being interacted with, and no tooltip is shown.
    Inactive,
    /// A target is hovered, but its tooltip is not shown yet.
    Delayed,
    /// A target is hovered, and its tooltip is shown.
    Active,
    /// A target is being interacted with, but its tooltip has been dismissed.
    Dismissed,
}

/// The values in use by the tooltip system.
#[derive(Clone, Copy, Debug, PartialEq, Eq)]
pub struct TooltipContext {
    /// The current state of the tooltip system.
    pub state: TooltipState,
    /// The current or previous target, if there ever was one.
    pub target: Option<u64>,
    /// Remaining activation delay or transfer timeout (milliseconds).
    pub timer: u16,
    /// The last pointer position, or the activation point while `Active`.
    pub cursor_pos: Point,
    /// The configuration of the current or previous target.
    pub tooltip: Tooltip,
    /// The square of `tooltip.dismissal.on_distance`.
    pub dismiss_distance_sq: u64,
}

/// The target found under the pointer in one frame.
#[derive(Clone, Copy, Debug, PartialEq, Eq)]
pub enum Found {
    /// Nothing with a tooltip is under the pointer.
    Nothing,
    /// A target that dismisses on click was pressed.
    Dismiss { entity: u64, transfer: TooltipTransfer },
    /// A target is hovered.
    Hover { entity: u64, tooltip: Tooltip },
}

/// What the renderer must do after a frame: first hide, then show.
#[derive(Clone, Copy, Debug, PartialEq, Eq)]
pub struct StepEffects {
    /// Hide this content entity.
    pub hide: Option<u64>,
    /// Show the current tooltip's content.
    pub show: bool,
}

/// The square of a distance, as stored for comparisons.
pub open spec fn square(r: u32) -> int {
    r * r
}

/// The square of a `u32` fits in a `u64`.
pub proof fn lemma_square_fits(r: u32)
    ensures
        0 <= square(r) <= u64::MAX,
{
    assert(0 <= (r as int) * (r as int) <= 0xffff_ffffint * 0xffff_ffffint) by (nonlinear_arith)
        requires
            0 <= r <= 0xffff_ffffint,
    ;
}

/// The squared distance between two points.
pub open spec fn dist_sq(a: Point, b: Point) -> int {
    (a.x - b.x) * (a.x - b.x) + (a.y - b.y) * (a.y - b.y)
}

/// Both transfer groups are set, and equal.
pub open spec fn same_group(a: Option<i8>, b: Option<i8>) -> bool {
    match (a, b) {
        (Some(x), Some(y)) => x == y,
        _ => false,
    }
}

/// Whether hovering `entity` with configuration `t` skips the activation delay.
pub open spec fn activates_immediately(t: Tooltip, ctx: TooltipContext, entity: u64) -> bool {
    t.activation.delay == 0 || (ctx.state == TooltipState::Inactive && ctx.timer > 0
        && t.transfer.layer <= ctx.tooltip.transfer.layer && (same_group(
        ctx.tooltip.transfer.group,
        t.transfer.group,
    ) || ctx.target == Some(entity)))
}

/// The context after switching to target `entity` with configuration `t`.
pub open spec fn entered(ctx: TooltipContext, entity: u64, t: Tooltip, immediately: bool) -> TooltipContext {
    TooltipContext {
        state: if immediately { TooltipState::Active } else { TooltipState::Delayed },
        target: Some(entity),
        timer: t.activation.delay,
        tooltip: t,
        dismiss_distance_sq: square(t.dismissal.on_distance) as u64,
        ..ctx
    }
}

/// The context after this frame's pointer position is taken into account.
pub open spec fn after_pointer(ctx: TooltipContext, pointer: Option<Point>) -> TooltipContext {
    match pointer {
        None => ctx,
        Some(p) => {
            let timer = if p != ctx.cursor_pos && ctx.state == TooltipState::Delayed
                && ctx.tooltip.activation.reset_delay_on_cursor_move {
                ctx.tooltip.activation.delay
            } else {
                ctx.timer
            };
            let state = if ctx.state == TooltipState::Active && dist_sq(ctx.cursor_pos, p)
                > ctx.dismiss_distance_sq {
                TooltipState::Dismissed
            } else {
                ctx.state
            };
            let cursor_pos = if state != TooltipState::Active { p } else { ctx.cursor_pos };
            TooltipContext { state, timer, cursor_pos, ..ctx }
        },
    }
}

/// `a - b`, floored at zero.
pub open spec fn floor_sub(a: u16, b: u64) -> u16 {
    if b >= a { 0 } else { (a - b) as u16 }
}

/// The context after the timers have run for `elapsed` milliseconds.
pub open spec fn after_tick(ctx: TooltipContext, elapsed: u64) -> TooltipContext {
    if ctx.state == TooltipState::Inactive || ctx.state == TooltipState::Delayed {
        let timer = floor_sub(ctx.timer, elapsed);
        let state = if ctx.state == TooltipState::Delayed && timer == 0 {
            TooltipState::Active
        } else {
            ctx.state
        };
        TooltipContext { state, timer, ..ctx }
    } else {
        ctx
    }
}

/// The transfer window opened on leaving the current target: the target's transfer timeout
/// when its tooltip was shown, or when `from_active` is unset; none otherwise.
pub open spec fn leave_timer(ctx: TooltipContext) -> u16 {
    if ctx.state == TooltipState::Active || !ctx.tooltip.transfer.from_active {
        ctx.tooltip.transfer.timeout
    } else {
        0
    }
}

/// The context after the target found this frame is taken into account.
pub open spec fn after_found(ctx: TooltipContext, found: Found) -> TooltipContext {
    match found {
        Found::Nothing => if ctx.state != TooltipState::Inactive {
            TooltipContext { state: TooltipState::Inactive, timer: leave_timer(ctx), ..ctx }
        } else {
            ctx
        },
        Found::Dismiss { entity, transfer } => TooltipContext {
            state: TooltipState::Dismissed,
            target: Some(entity),
            tooltip: Tooltip { transfer, ..ctx.tooltip },
            ..ctx
        },
        Found::Hover { entity, tooltip } => if ctx.target == Some(entity) && ctx.state
            != TooltipState::Inactive {
            TooltipContext {
                tooltip,
                dismiss_distance_sq: square(tooltip.dismissal.on_distance) as u64,
                ..ctx
            }
        } else {
            entered(ctx, entity, tooltip, activates_immediately(tooltip, ctx, entity))
        },
    }
}

/// The context after one frame.
pub open spec fn next_context(
    ctx: TooltipContext,
    pointer: Option<Point>,
    elapsed: u64,
    found: Found,
) -> TooltipContext {
    after_found(after_tick(after_pointer(ctx, pointer), elapsed), found)
}

/// The effects of going from `before` to `after`.
pub open spec fn effects_of(before: TooltipContext, after: TooltipContext, container: u64) -> StepEffects {
    let was = before.state == TooltipState::Active;
    let now = after.state == TooltipState::Active;
    let old_e = content_entity(before.tooltip, container);
    let new_e = content_entity(after.tooltip, container);
    StepEffects {
        hide: if was && (!now || new_e != old_e) { Some(old_e) } else { None },
        show: now && (!was || after.target != before.target || new_e != old_e),
    }
}

fn square_u32(r: u32) -> (s: u64)
    ensures
        s == square(r),
{
    proof {
        lemma_square_fits(r);
    }
    (r as u64) * (r as u64)
}

fn dist_sq_exec(a: Point, b: Point) -> (d: i128)
    ensures
        d == dist_sq(a, b),
{
    let dx: i128 = a.x as i128 - b.x as i128;
    let dy: i128 = a.y as i128 - b.y as i128;
    proof {
        assert(0 <= dx * dx <= 0x1_0000_0000int * 0x1_0000_0000int) by (nonlinear_arith)
            requires
                -0x1_0000_0000int <= dx <= 0x1_0000_0000int,
        ;
        assert(0 <= dy * dy <= 0x1_0000_0000int * 0x1_0000_0000int) by (nonlinear_arith)
            requires
                -0x1_0000_0000int <= dy <= 0x1_0000_0000int,
        ;
    }
    dx * dx + dy * dy
}

fn is_state(s: TooltipState, t: TooltipState) -> (r: bool)
    ensures
        r == (s == t),
{
    match (s, t) {
        (TooltipState::Inactive, TooltipState::Inactive) => true,
        (TooltipState::Delayed, TooltipState::Delayed) => true,
        (TooltipState::Active, TooltipState::Active) => true,
        (TooltipState::Dismissed, TooltipState::Dismissed) => true,
        _ => false,
    }
}

fn is_target(t: Option<u64>, entity: u64) -> (r: bool)
    ensures
        r == (t == Some(entity)),
{
    match t {
        Some(e) => e == entity,
        None => false,
    }
}

impl TooltipContext {
    /// The stored dismissal distance is the square of the configured one.
    pub open spec fn wf(&self) -> bool {
        self.dismiss_distance_sq == square(self.tooltip.dismissal.on_distance)
    }

    /// The context at startup: inactive, with no target.
    pub fn new() -> (r: TooltipContext)
        ensures
            r.state == TooltipState::Inactive,
            r.target.is_none(),
            r.timer == 0,
            r.cursor_pos == (Point { x: 0, y: 0 }),
            r.dismiss_distance_sq == 0,
            r.wf(),
    {
        TooltipContext {
            state: TooltipState::Inactive,
            target: None,
            timer: 0,
            cursor_pos: Point { x: 0, y: 0 },
            tooltip: Tooltip::primary(),
            dismiss_distance_sq: 0,
        }
    }
}

impl Default for TooltipContext {
    fn default() -> (r: TooltipContext)
        ensures
            r.state == TooltipState::Inactive,
            r.target.is_none(),
            r.timer == 0,
            r.cursor_pos == (Point { x: 0, y: 0 }),
            r.dismiss_distance_sq == 0,
            r.wf(),
    {
        TooltipContext::new()
    }
}

/// Whether hovering `target_entity` with configuration `tooltip` skips the activation delay:
/// its delay is zero, or a transfer window is open and the target is on the same or a lower
/// layer and either shares a group with the previous target or is the previous target.
pub fn should_activate_immediately(tooltip: &Tooltip, ctx: &TooltipContext, target_entity: u64) -> (r: bool)
    ensures
        r == activates_immediately(*tooltip, *ctx, target_entity),
{
    let same = match (ctx.tooltip.transfer.group, tooltip.transfer.group) {
        (Some(x), Some(y)) => x == y,
        _ => false,
    };
    tooltip.activation.delay == 0 || (is_state(ctx.state, TooltipState::Inactive) && ctx.timer > 0
        && ctx.tooltip.transfer.layer >= tooltip.transfer.layer && (same || is_target(
        ctx.target,
        target_entity,
    )))
}

/// Switches the context to target `entity` with configuration `tooltip`, shown at once or
/// after its activation delay.
pub fn apply_tooltip_transition(
    ctx: &mut TooltipContext,
    entity: u64,
    tooltip: &Tooltip,
    activate_immediately: bool,
)
    ensures
        *final(ctx) == entered(*old(ctx), entity, *tooltip, activate_immediately),
{
    ctx.state = if activate_immediately {
        TooltipState::Active
    } else {
        TooltipState::Delayed
    };
    ctx.target = Some(entity);
    ctx.timer = tooltip.activation.delay;
    ctx.tooltip = *tooltip;
    ctx.dismiss_distance_sq = square_u32(tooltip.dismissal.on_distance);
}

/// Takes this frame's pointer position into account: restarts the activation delay on
/// movement where configured, dismisses a shown tooltip once the pointer is farther than the
/// dismissal distance from the activation point, and records the position unless shown.
pub fn track_pointer(ctx: &mut TooltipContext, pointer: Option<Point>)
    ensures
        *final(ctx) == after_pointer(*old(ctx), pointer),
{
    if let Some(p) = pointer {
        let moved = p.x != ctx.cursor_pos.x || p.y != ctx.cursor_pos.y;
        if moved && is_state(ctx.state, TooltipState::Delayed)
            && ctx.tooltip.activation.reset_delay_on_cursor_move {
            ctx.timer = ctx.tooltip.activation.delay;
        }
        if is_state(ctx.state, TooltipState::Active) && dist_sq_exec(ctx.cursor_pos, p)
            > ctx.dismiss_distance_sq as i128 {
            ctx.state = TooltipState::Dismissed;
        }
        if !is_state(ctx.state, TooltipState::Active) {
            ctx.cursor_pos = p;
        }
    }
}

/// Runs the activation delay or transfer timeout for `elapsed_ms` milliseconds; a delay
/// that runs out shows the tooltip.
pub fn tick(ctx: &mut TooltipContext, elapsed_ms: u64)
    ensures
        *final(ctx) == after_tick(*old(ctx), elapsed_ms),
{
    if is_state(ctx.state, TooltipState::Inactive) || is_state(ctx.state, TooltipState::Delayed) {
        ctx.timer = if elapsed_ms >= ctx.timer as u64 {
            0
        } else {
            (ctx.timer as u64 - elapsed_ms) as u16
        };
        if is_state(ctx.state, TooltipState::Delayed) && ctx.timer == 0 {
            ctx.state = TooltipState::Active;
        }
    }
}

/// Takes the target found this frame into account: a click dismisses, the same target
/// refreshes its configuration, a new target is entered, and no target leaves the current
/// one, opening a transfer window.
pub fn apply_found(ctx: &mut TooltipContext, found: Found)
    ensures
        *final(ctx) == after_found(*old(ctx), found),
{
    match found {
        Found::Nothing => {
            if !is_state(ctx.state, TooltipState::Inactive) {
                ctx.timer = if is_state(ctx.state, TooltipState::Active)
                    || !ctx.tooltip.transfer.from_active {
                    ctx.tooltip.transfer.timeout
                } else {
                    0
                };
                ctx.state = TooltipState::Inactive;
            }
        },
        Found::Dismiss { entity, transfer } => {
            ctx.target = Some(entity);
            ctx.state = TooltipState::Dismissed;
            ctx.tooltip.transfer = transfer;
        },
        Found::Hover { entity, tooltip } => {
            if is_target(ctx.target, entity) && !is_state(ctx.state, TooltipState::Inactive) {
                ctx.tooltip = tooltip;
                ctx.dismiss_distance_sq = square_u32(tooltip.dismissal.on_distance);
            } else {
                let activate_immediately = should_activate_immediately(&tooltip, ctx, entity);
                apply_tooltip_transition(ctx, entity, &tooltip, activate_immediately);
            }
        },
    }
}

/// The effects of going from `before` to `after`: hide the old content when the tooltip
/// stops being shown or its content entity changes, and show when it starts being shown or
/// its target or content entity changes.
pub fn effects(before: &TooltipContext, after: &TooltipContext, container: u64) -> (r: StepEffects)
    ensures
        r == effects_of(*before, *after, container),
{
    let was = is_state(before.state, TooltipState::Active);
    let now = is_state(after.state, TooltipState::Active);
    let old_e = before.tooltip.content_entity(container);
    let new_e = after.tooltip.content_entity(container);
    let same_target = match (before.target, after.target) {
        (Some(a), Some(b)) => a == b,
        (None, None) => true,
        _ => false,
    };
    StepEffects {
        hide: if was && (!now || new_e != old_e) {
            Some(old_e)
        } else {
            None
        },
        show: now && (!was || !same_target || new_e != old_e),
    }
}

/// One frame of the state machine, given the target found under the pointer: pointer
/// tracking, then timers, then the found target; returns the effects for the renderer.
pub fn step(
    ctx: &mut TooltipContext,
    pointer: Option<Point>,
    elapsed_ms: u64,
    found: Found,
    container: u64,
) -> (r: StepEffects)
    ensures
        *final(ctx) == next_context(*old(ctx), pointer, elapsed_ms, found),
        r == effects_of(*old(ctx), *final(ctx), container),
{
    let before = *ctx;
    track_pointer(ctx, pointer);
    tick(ctx, elapsed_ms);
    apply_found(ctx, found);
    effects(&before, ctx, container)
}

/// One frame of the tooltip system.
///
/// `pointer` is the pointer position in a focused window, absent when there is none; it
/// drives movement and distance checks. `ui` lists the UI elements with a tooltip, topmost
/// first. `world_pointer` is the pointer position used to hit-test the world-space targets
/// in `world`, absent when no camera can project them. `container` is the shared entity that
/// displays primary content. Returns the effects for the renderer, hide before show.
pub fn update_tooltip_context(
    ctx: &mut TooltipContext,
    pointer: Option<Point>,
    elapsed_ms: u64,
    ui: &Vec<UiTarget>,
    world_pointer: Option<Point>,
    world: &Vec<WorldTarget>,
    container: u64,
) -> (r: StepEffects)
    ensures
        *final(ctx) == next_context(
            *old(ctx),
            pointer,
            elapsed_ms,
            resolution(ui@, world_pointer, world@),
        ),
        r == effects_of(*old(ctx), *final(ctx), container),
{
    let found = resolve_target(ui, world_pointer, world);
    step(ctx, pointer, elapsed_ms, found, container)
}

} // verus!
