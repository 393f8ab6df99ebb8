//! Properties of the tooltip state machine over whole frames.
use vstd::prelude::*;

use crate::config::{content_entity, Point, Tooltip};
use crate::context::{
    dist_sq, effects_of, lemma_square_fits, next_context, same_group, square, Found, StepEffects, TooltipContext,
    TooltipState,
};
use crate::resolve::{interacting, lemma_first_interacting, resolution, Interaction, UiTarget, WorldTarget};

verus! {

/// No hide and no show.
pub open spec fn no_effects() -> StepEffects {
    StepEffects { hide: None, show: false }
}

/// The pointer either is unknown this frame or has not moved from `at`.
pub open spec fn still(pointer: Option<Point>, at: Point) -> bool {
    pointer.is_none() || pointer == Some(at)
}

proof fn lemma_dist_sq_self(p: Point)
    ensures
        dist_sq(p, p) == 0,
{
    assert((p.x - p.x) * (p.x - p.x) == 0);
    assert((p.y - p.y) * (p.y - p.y) == 0);
}

/// Every frame keeps the stored dismissal distance equal to the square of the configured one.
pub proof fn lemma_frame_keeps_wf(ctx: TooltipContext, pointer: Option<Point>, elapsed: u64, found: Found)
    requires
        ctx.wf(),
    ensures
        next_context(ctx, pointer, elapsed, found).wf(),
{
    match found {
        Found::Hover { tooltip, .. } => lemma_square_fits(tooltip.dismissal.on_distance),
        _ => {},
    }
}

/// A frame in which nothing is hovered or clicked leaves an inactive context inactive and
/// emits nothing.
pub proof fn lemma_idle_frame_stays_inactive(
    ctx: TooltipContext,
    pointer: Option<Point>,
    elapsed: u64,
    container: u64,
)
    requires
        ctx.state == TooltipState::Inactive,
    ensures
        next_context(ctx, pointer, elapsed, Found::Nothing).state == TooltipState::Inactive,
        effects_of(ctx, next_context(ctx, pointer, elapsed, Found::Nothing), container)
            == no_effects(),
{
}

/// Starting to hover a target with a nonzero delay while no transfer window is open enters
/// `Delayed` with the full delay, and emits nothing.
pub proof fn lemma_hover_starts_delay(
    ctx: TooltipContext,
    pointer: Option<Point>,
    elapsed: u64,
    entity: u64,
    t: Tooltip,
    container: u64,
)
    requires
        ctx.state == TooltipState::Inactive,
        ctx.timer <= elapsed,
        t.activation.delay > 0,
    ensures
        ({
            let next = next_context(ctx, pointer, elapsed, Found::Hover { entity, tooltip: t });
            &&& next.state == TooltipState::Delayed
            &&& next.target == Some(entity)
            &&& next.timer == t.activation.delay
            &&& effects_of(ctx, next, container) == no_effects()
        }),
{
}

/// While the same target stays hovered with the same configuration and the pointer stays
/// still, the delay counts down by the elapsed time; once it runs out the tooltip becomes
/// `Active` and exactly one show is emitted.
pub proof fn lemma_delay_counts_down(
    ctx: TooltipContext,
    pointer: Option<Point>,
    elapsed: u64,
    entity: u64,
    container: u64,
)
    requires
        ctx.wf(),
        ctx.state == TooltipState::Delayed,
        ctx.target == Some(entity),
        still(pointer, ctx.cursor_pos),
    ensures
        ({
            let next = next_context(ctx, pointer, elapsed, Found::Hover { entity, tooltip: ctx.tooltip });
            &&& elapsed < ctx.timer ==> next == (TooltipContext { timer: (ctx.timer - elapsed) as u16, ..ctx })
                && effects_of(ctx, next, container) == no_effects()
            &&& elapsed >= ctx.timer ==> next.state == TooltipState::Active
                && effects_of(ctx, next, container) == (StepEffects { hide: None, show: true })
        }),
{
}

/// When delays restart on movement, a frame in which the pointer moves while `Delayed`
/// restarts the delay before the elapsed time is taken off: the tooltip shows in that frame
/// only if the frame alone lasted the whole delay.
pub proof fn lemma_move_restarts_delay(
    ctx: TooltipContext,
    p: Point,
    elapsed: u64,
    entity: u64,
    t: Tooltip,
)
    requires
        ctx.state == TooltipState::Delayed,
        ctx.target == Some(entity),
        ctx.tooltip.activation.reset_delay_on_cursor_move,
        p != ctx.cursor_pos,
    ensures
        ({
            let next = next_context(ctx, Some(p), elapsed, Found::Hover { entity, tooltip: t });
            let d = ctx.tooltip.activation.delay;
            &&& next.state == TooltipState::Active <==> elapsed >= d
            &&& elapsed < d ==> next.state == TooltipState::Delayed && next.timer == d - elapsed
            &&& next.cursor_pos == p
        }),
{
}

/// Once `Active`, a pointer that moves farther than the dismissal distance from the
/// activation point dismisses the tooltip and emits exactly one hide, of its content.
pub proof fn lemma_far_pointer_dismisses(
    ctx: TooltipContext,
    p: Point,
    elapsed: u64,
    entity: u64,
    t: Tooltip,
    container: u64,
)
    requires
        ctx.wf(),
        ctx.state == TooltipState::Active,
        ctx.target == Some(entity),
        dist_sq(ctx.cursor_pos, p) > square(ctx.tooltip.dismissal.on_distance),
    ensures
        ({
            let next = next_context(ctx, Some(p), elapsed, Found::Hover { entity, tooltip: t });
            &&& next.state == TooltipState::Dismissed
            &&& effects_of(ctx, next, container) == (StepEffects {
                hide: Some(content_entity(ctx.tooltip, container)),
                show: false,
            })
        }),
{
}

/// Once `Active`, a pointer within the dismissal distance of the activation point keeps the
/// tooltip shown, the activation point unchanged, and emits nothing.
pub proof fn lemma_near_pointer_keeps_active(
    ctx: TooltipContext,
    p: Point,
    elapsed: u64,
    entity: u64,
    container: u64,
)
    requires
        ctx.wf(),
        ctx.state == TooltipState::Active,
        ctx.target == Some(entity),
        dist_sq(ctx.cursor_pos, p) <= square(ctx.tooltip.dismissal.on_distance),
    ensures
        ({
            let next = next_context(ctx, Some(p), elapsed, Found::Hover { entity, tooltip: ctx.tooltip });
            &&& next == ctx
            &&& effects_of(ctx, next, container) == no_effects()
        }),
{
}

/// Leaving a shown tooltip's target hides its content and opens a transfer window of its
/// timeout; hovering, within that window, a target on the same or a lower layer of the same
/// group shows that target's tooltip at once, whatever its delay.
pub proof fn lemma_fast_transfer(
    ctx: TooltipContext,
    leave_pointer: Option<Point>,
    leave_elapsed: u64,
    enter_pointer: Option<Point>,
    enter_elapsed: u64,
    entity: u64,
    t: Tooltip,
    container: u64,
)
    requires
        ctx.wf(),
        ctx.state == TooltipState::Active,
        still(leave_pointer, ctx.cursor_pos),
        enter_elapsed < ctx.tooltip.transfer.timeout,
        t.transfer.layer <= ctx.tooltip.transfer.layer,
        same_group(ctx.tooltip.transfer.group, t.transfer.group),
    ensures
        ({
            let left = next_context(ctx, leave_pointer, leave_elapsed, Found::Nothing);
            let entered = next_context(left, enter_pointer, enter_elapsed, Found::Hover { entity, tooltip: t });
            &&& left.state == TooltipState::Inactive
            &&& left.timer == ctx.tooltip.transfer.timeout
            &&& effects_of(ctx, left, container) == (StepEffects {
                hide: Some(content_entity(ctx.tooltip, container)),
                show: false,
            })
            &&& entered.state == TooltipState::Active
            &&& entered.target == Some(entity)
            &&& effects_of(left, entered, container) == (StepEffects { hide: None, show: true })
        }),
{
    lemma_dist_sq_self(ctx.cursor_pos);
}

/// Hovering a target on a higher layer than the previous one never uses the transfer
/// window: a nonzero delay applies in full.
pub proof fn lemma_higher_layer_waits(
    ctx: TooltipContext,
    pointer: Option<Point>,
    elapsed: u64,
    entity: u64,
    t: Tooltip,
    container: u64,
)
    requires
        ctx.state == TooltipState::Inactive,
        t.transfer.layer > ctx.tooltip.transfer.layer,
        t.activation.delay > 0,
    ensures
        ({
            let next = next_context(ctx, pointer, elapsed, Found::Hover { entity, tooltip: t });
            &&& next.state == TooltipState::Delayed
            &&& next.timer == t.activation.delay
            &&& effects_of(ctx, next, container) == no_effects()
        }),
{
}

/// Pressing the topmost interacted-with UI element, when its tooltip dismisses on click,
/// dismisses in that same frame, and hides the tooltip's content if it was shown.
pub proof fn lemma_click_dismisses(
    ctx: TooltipContext,
    pointer: Option<Point>,
    elapsed: u64,
    ui: Seq<UiTarget>,
    i: int,
    world_pointer: Option<Point>,
    world: Seq<WorldTarget>,
    container: u64,
)
    requires
        0 <= i < ui.len(),
        forall|j: int| 0 <= j < i ==> !interacting(#[trigger] ui[j]),
        ui[i].interaction == Interaction::Pressed,
        ui[i].tooltip.dismissal.on_click,
    ensures
        ({
            let next = next_context(ctx, pointer, elapsed, resolution(ui, world_pointer, world));
            &&& next.state == TooltipState::Dismissed
            &&& next.target == Some(ui[i].entity)
            &&& effects_of(ctx, next, container) == (StepEffects {
                hide: if ctx.state == TooltipState::Active {
                    Some(content_entity(ctx.tooltip, container))
                } else {
                    None
                },
                show: false,
            })
        }),
{
    lemma_first_interacting(ui, 0);
}

/// A frame that hovers the same target with the same configuration, with the pointer still
/// and no delay running out, changes nothing but a running delay, which only decreases, and
/// emits nothing.
pub proof fn lemma_same_frame_is_quiet(
    ctx: TooltipContext,
    pointer: Option<Point>,
    elapsed: u64,
    entity: u64,
    container: u64,
)
    requires
        ctx.wf(),
        ctx.state != TooltipState::Inactive,
        ctx.target == Some(entity),
        still(pointer, ctx.cursor_pos),
        ctx.state == TooltipState::Delayed ==> elapsed < ctx.timer,
    ensures
        ({
            let next = next_context(ctx, pointer, elapsed, Found::Hover { entity, tooltip: ctx.tooltip });
            &&& next == (TooltipContext { timer: next.timer, ..ctx })
            &&& next.timer <= ctx.timer
            &&& effects_of(ctx, next, container) == no_effects()
        }),
{
    lemma_square_fits(ctx.tooltip.dismissal.on_distance);
    lemma_dist_sq_self(ctx.cursor_pos);
}

/// One frame's inputs to the state machine.
#[derive(Clone, Copy, Debug, PartialEq, Eq)]
pub struct Frame {
    pub pointer: Option<Point>,
    pub elapsed_ms: u64,
    pub found: Found,
}

/// The context after running `frames` in order from `ctx`.
pub open spec fn run(ctx: TooltipContext, frames: Seq<Frame>) -> TooltipContext
    decreases frames.len(),
{
    if frames.len() == 0 {
        ctx
    } else {
        let f = frames.last();
        next_context(run(ctx, frames.drop_last()), f.pointer, f.elapsed_ms, f.found)
    }
}

/// The effects emitted by frame `k` of `frames`, run from `ctx`.
pub open spec fn effects_at(ctx: TooltipContext, frames: Seq<Frame>, k: int, container: u64) -> StepEffects {
    effects_of(run(ctx, frames.take(k)), run(ctx, frames.take(k + 1)), container)
}

/// Time spent in frames `1..=k` of `frames`.
pub open spec fn waited(frames: Seq<Frame>, k: int) -> int
    decreases k,
{
    if k <= 0 {
        0
    } else {
        waited(frames, k - 1) + frames[k].elapsed_ms
    }
}

proof fn lemma_run_take_step(ctx: TooltipContext, frames: Seq<Frame>, k: int)
    requires
        0 <= k < frames.len(),
    ensures
        run(ctx, frames.take(k + 1)) == next_context(
            run(ctx, frames.take(k)),
            frames[k].pointer,
            frames[k].elapsed_ms,
            frames[k].found,
        ),
{
    assert(frames.take(k + 1).drop_last() =~= frames.take(k));
}

proof fn lemma_idle_prefix(ctx: TooltipContext, frames: Seq<Frame>, k: int)
    requires
        ctx.state == TooltipState::Inactive,
        forall|i: int| 0 <= i < frames.len() ==> (#[trigger] frames[i]).found == Found::Nothing,
        0 <= k <= frames.len(),
    ensures
        run(ctx, frames.take(k)).state == TooltipState::Inactive,
    decreases k,
{
    if k == 0 {
        assert(frames.take(0) =~= Seq::<Frame>::empty());
    } else {
        lemma_idle_prefix(ctx, frames, k - 1);
        lemma_run_take_step(ctx, frames, k - 1);
        let f = frames[k - 1];
        lemma_idle_frame_stays_inactive(run(ctx, frames.take(k - 1)), f.pointer, f.elapsed_ms, 0);
    }
}

/// Over any sequence of frames in which nothing is hovered or clicked, an inactive context
/// stays inactive after every frame and no frame emits anything.
pub proof fn lemma_idle_run(ctx: TooltipContext, frames: Seq<Frame>, container: u64)
    requires
        ctx.state == TooltipState::Inactive,
        forall|i: int| 0 <= i < frames.len() ==> (#[trigger] frames[i]).found == Found::Nothing,
    ensures
        forall|k: int| 0 <= k <= frames.len() ==> (#[trigger] run(ctx, frames.take(k))).state
            == TooltipState::Inactive,
        forall|k: int| 0 <= k < frames.len() ==> #[trigger] effects_at(ctx, frames, k, container)
            == no_effects(),
{
    assert forall|k: int| 0 <= k <= frames.len() implies (#[trigger] run(ctx, frames.take(k))).state
        == TooltipState::Inactive by {
        lemma_idle_prefix(ctx, frames, k);
    }
    assert forall|k: int| 0 <= k < frames.len() implies #[trigger] effects_at(ctx, frames, k, container)
        == no_effects() by {
        lemma_idle_prefix(ctx, frames, k);
        lemma_run_take_step(ctx, frames, k);
        let f = frames[k];
        lemma_idle_frame_stays_inactive(run(ctx, frames.take(k)), f.pointer, f.elapsed_ms, container);
    }
}

/// What holds after frame `k` of a steady hover: `Delayed` with the rest of the delay until
/// the frames after the first have lasted the delay, `Active` from then on.
pub open spec fn steady_hover_at(
    ctx: TooltipContext,
    frames: Seq<Frame>,
    k: int,
    entity: u64,
    t: Tooltip,
    p: Point,
    container: u64,
) -> bool {
    let c = run(ctx, frames.take(k + 1));
    let d = t.activation.delay as int;
    &&& c.wf()
    &&& c.target == Some(entity)
    &&& c.tooltip == t
    &&& c.cursor_pos == p
    &&& waited(frames, k) < d ==> c.state == TooltipState::Delayed && c.timer == d - waited(frames, k)
    &&& waited(frames, k) >= d ==> c.state == TooltipState::Active
    &&& effects_at(ctx, frames, k, container) == (StepEffects {
        hide: None,
        show: waited(frames, k) >= d && (k == 0 || waited(frames, k - 1) < d),
    })
}

proof fn lemma_steady_hover_prefix(
    ctx: TooltipContext,
    frames: Seq<Frame>,
    k: int,
    entity: u64,
    t: Tooltip,
    p: Point,
    container: u64,
)
    requires
        ctx.state == TooltipState::Inactive,
        frames.len() > 0,
        ctx.timer <= frames[0].elapsed_ms,
        t.activation.delay > 0,
        frames[0].pointer == Some(p),
        forall|i: int| 0 <= i < frames.len() ==> (#[trigger] frames[i]).found == (Found::Hover { entity, tooltip: t })
            && still(frames[i].pointer, p),
        0 <= k < frames.len(),
    ensures
        steady_hover_at(ctx, frames, k, entity, t, p, container),
    decreases k,
{
    lemma_run_take_step(ctx, frames, k);
    lemma_square_fits(t.dismissal.on_distance);
    let prev = run(ctx, frames.take(k));
    let f = frames[k];
    if k == 0 {
        assert(frames.take(0) =~= Seq::<Frame>::empty());
        lemma_hover_starts_delay(ctx, f.pointer, f.elapsed_ms, entity, t, container);
    } else {
        lemma_steady_hover_prefix(ctx, frames, k - 1, entity, t, p, container);
        assert(frames.take(k - 1 + 1) =~= frames.take(k));
        if prev.state == TooltipState::Delayed {
            lemma_delay_counts_down(prev, f.pointer, f.elapsed_ms, entity, container);
        } else {
            lemma_same_frame_is_quiet(prev, f.pointer, f.elapsed_ms, entity, container);
        }
    }
}

/// Hovering one target steadily, with a nonzero delay and no transfer window open, keeps the
/// tooltip `Delayed` until the frames after the first have lasted the delay, then `Active`;
/// the one frame at which the delay is reached emits a show, and no frame emits anything else.
pub proof fn lemma_steady_hover_shows_once(
    ctx: TooltipContext,
    frames: Seq<Frame>,
    entity: u64,
    t: Tooltip,
    p: Point,
    container: u64,
)
    requires
        ctx.state == TooltipState::Inactive,
        frames.len() > 0,
        ctx.timer <= frames[0].elapsed_ms,
        t.activation.delay > 0,
        frames[0].pointer == Some(p),
        forall|i: int| 0 <= i < frames.len() ==> (#[trigger] frames[i]).found == (Found::Hover { entity, tooltip: t })
            && still(frames[i].pointer, p),
    ensures
        forall|k: int| 0 <= k < frames.len() ==> steady_hover_at(ctx, frames, k, entity, t, p, container),
{
    assert forall|k: int| 0 <= k < frames.len() implies steady_hover_at(ctx, frames, k, entity, t, p, container) by {
        lemma_steady_hover_prefix(ctx, frames, k, entity, t, p, container);
    }
}

} // verus!
