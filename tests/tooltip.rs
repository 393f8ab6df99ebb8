use pyri_tooltip::config::{
    Point, Tooltip, TooltipActivation, TooltipContent, TooltipDismissal, TooltipTransfer,
};
use pyri_tooltip::context::{
    apply_found, apply_tooltip_transition, effects, should_activate_immediately, step, tick,
    track_pointer, update_tooltip_context, Found, StepEffects, TooltipContext, TooltipState,
};
use pyri_tooltip::resolve::{
    find_ui_target, find_world_target, resolve_target, sprite_contains_point, Interaction, Size,
    UiTarget, WorldTarget,
};

const CONTAINER: u64 = 1000;

fn config(delay: u16, layer: i8, group: Option<i8>, timeout: u16) -> Tooltip {
    Tooltip {
        content: TooltipContent::Primary,
        activation: TooltipActivation { delay, reset_delay_on_cursor_move: false },
        dismissal: TooltipDismissal { on_distance: 10, on_click: true },
        transfer: TooltipTransfer { layer, group, timeout, from_active: false },
    }
}

fn pt(x: i32, y: i32) -> Point {
    Point { x, y }
}

fn hover(entity: u64, tooltip: Tooltip) -> Found {
    Found::Hover { entity, tooltip }
}

const QUIET: StepEffects = StepEffects { hide: None, show: false };
const SHOW: StepEffects = StepEffects { hide: None, show: true };

#[test]
fn default_context_is_inactive() {
    let ctx = TooltipContext::default();
    assert_eq!(ctx.state, TooltipState::Inactive);
    assert_eq!(ctx.target, None);
    assert_eq!(ctx.timer, 0);
    assert_eq!(ctx.cursor_pos, pt(0, 0));
    assert_eq!(ctx, TooltipContext::new());
}

#[test]
fn idle_frames_stay_inactive() {
    let mut ctx = TooltipContext::new();
    for i in 0..50 {
        let p = if i % 3 == 0 { None } else { Some(pt(i, 2 * i)) };
        let r = step(&mut ctx, p, 16, Found::Nothing, CONTAINER);
        assert_eq!(r, QUIET);
        assert_eq!(ctx.state, TooltipState::Inactive);
    }
}

#[test]
fn delay_of_300_ms_shows_once_at_300() {
    let t = config(300, 0, None, 0);
    let mut ctx = TooltipContext::new();
    let mut shows = 0;
    let mut now: u64 = 0;
    let mut last: u64 = 0;
    for target_time in [0u64, 100, 200, 299, 300, 400, 500, 1000] {
        let r = step(&mut ctx, Some(pt(5, 5)), target_time - last, hover(7, t), CONTAINER);
        last = target_time;
        now = target_time;
        assert_eq!(r.hide, None);
        if r.show {
            shows += 1;
        }
        if now < 300 {
            assert_eq!(ctx.state, TooltipState::Delayed);
            assert_eq!(ctx.timer as u64, 300 - now);
        } else {
            assert_eq!(ctx.state, TooltipState::Active);
        }
        if now == 300 {
            assert!(r.show);
        }
    }
    assert_eq!(now, 1000);
    assert_eq!(shows, 1);
}

#[test]
fn pointer_move_restarts_delay() {
    let mut t = config(300, 0, None, 0);
    t.activation.reset_delay_on_cursor_move = true;
    let mut ctx = TooltipContext::new();
    step(&mut ctx, Some(pt(0, 0)), 0, hover(7, t), CONTAINER);
    step(&mut ctx, Some(pt(0, 0)), 200, hover(7, t), CONTAINER);
    assert_eq!(ctx.timer, 100);
    // The pointer moves: the delay restarts from 300 before this frame's 50 ms are taken off.
    let r = step(&mut ctx, Some(pt(1, 0)), 50, hover(7, t), CONTAINER);
    assert_eq!(r, QUIET);
    assert_eq!(ctx.state, TooltipState::Delayed);
    assert_eq!(ctx.timer, 250);
    assert_eq!(ctx.cursor_pos, pt(1, 0));
    step(&mut ctx, Some(pt(1, 0)), 249, hover(7, t), CONTAINER);
    assert_eq!(ctx.state, TooltipState::Delayed);
    let r = step(&mut ctx, Some(pt(1, 0)), 1, hover(7, t), CONTAINER);
    assert_eq!(ctx.state, TooltipState::Active);
    assert_eq!(r, SHOW);
}

#[test]
fn pointer_move_without_reset_keeps_counting() {
    let t = config(300, 0, None, 0);
    let mut ctx = TooltipContext::new();
    step(&mut ctx, Some(pt(0, 0)), 0, hover(7, t), CONTAINER);
    step(&mut ctx, Some(pt(50, 50)), 200, hover(7, t), CONTAINER);
    assert_eq!(ctx.timer, 100);
    assert_eq!(ctx.cursor_pos, pt(50, 50));
}

fn active_on(entity: u64, t: Tooltip, at: Point) -> TooltipContext {
    let mut ctx = TooltipContext::new();
    let r = step(&mut ctx, Some(at), 0, hover(entity, t), CONTAINER);
    assert_eq!(ctx.state, TooltipState::Active);
    assert_eq!(r, SHOW);
    ctx
}

#[test]
fn far_pointer_dismisses_with_one_hide() {
    let t = config(0, 0, None, 0);
    let mut ctx = active_on(7, t, pt(100, 100));
    assert_eq!(ctx.dismiss_distance_sq, 100);
    // Exactly on the threshold: still shown, activation point frozen.
    let r = step(&mut ctx, Some(pt(106, 108)), 16, hover(7, t), CONTAINER);
    assert_eq!(r, QUIET);
    assert_eq!(ctx.state, TooltipState::Active);
    assert_eq!(ctx.cursor_pos, pt(100, 100));
    // Just beyond it.
    let r = step(&mut ctx, Some(pt(106, 109)), 16, hover(7, t), CONTAINER);
    assert_eq!(ctx.state, TooltipState::Dismissed);
    assert_eq!(r, StepEffects { hide: Some(CONTAINER), show: false });
    // Staying dismissed emits nothing more.
    let r = step(&mut ctx, Some(pt(0, 0)), 16, hover(7, t), CONTAINER);
    assert_eq!(ctx.state, TooltipState::Dismissed);
    assert_eq!(r, QUIET);
}

#[test]
fn custom_content_is_hidden_by_its_own_entity() {
    let mut t = config(0, 0, None, 0);
    t.content = TooltipContent::Custom(55);
    let mut ctx = active_on(7, t, pt(0, 0));
    let r = step(&mut ctx, Some(pt(0, 0)), 16, Found::Nothing, CONTAINER);
    assert_eq!(ctx.state, TooltipState::Inactive);
    assert_eq!(r, StepEffects { hide: Some(55), show: false });
}

#[test]
fn fast_transfer_within_group() {
    let a = config(300, 1, Some(4), 200);
    let mut b = config(300, 1, Some(4), 200);
    b.content = TooltipContent::Custom(77);
    let mut ctx = TooltipContext::new();
    step(&mut ctx, Some(pt(0, 0)), 0, hover(1, a), CONTAINER);
    step(&mut ctx, Some(pt(0, 0)), 300, hover(1, a), CONTAINER);
    assert_eq!(ctx.state, TooltipState::Active);
    // Leave A: hide its content, open the transfer window.
    let r = step(&mut ctx, Some(pt(0, 0)), 16, Found::Nothing, CONTAINER);
    assert_eq!(r, StepEffects { hide: Some(CONTAINER), show: false });
    assert_eq!(ctx.state, TooltipState::Inactive);
    assert_eq!(ctx.timer, 200);
    // Reach B within the window: shown at once.
    let r = step(&mut ctx, Some(pt(40, 0)), 100, hover(2, b), CONTAINER);
    assert_eq!(ctx.state, TooltipState::Active);
    assert_eq!(ctx.target, Some(2));
    assert_eq!(r, SHOW);
}

#[test]
fn transfer_window_expires() {
    let a = config(0, 1, Some(4), 200);
    let b = config(300, 1, Some(4), 200);
    let mut ctx = active_on(1, a, pt(0, 0));
    step(&mut ctx, None, 16, Found::Nothing, CONTAINER);
    let r = step(&mut ctx, None, 200, hover(2, b), CONTAINER);
    assert_eq!(ctx.state, TooltipState::Delayed);
    assert_eq!(r, QUIET);
}

#[test]
fn higher_layer_does_not_fast_activate() {
    let a = config(0, 1, Some(4), 200);
    let b = config(300, 2, Some(4), 200);
    let mut ctx = active_on(1, a, pt(0, 0));
    step(&mut ctx, None, 16, Found::Nothing, CONTAINER);
    let r = step(&mut ctx, None, 10, hover(2, b), CONTAINER);
    assert_eq!(ctx.state, TooltipState::Delayed);
    assert_eq!(ctx.timer, 300);
    assert_eq!(r, QUIET);
}

#[test]
fn different_group_does_not_fast_activate() {
    let a = config(0, 1, Some(4), 200);
    let b = config(300, 1, Some(5), 200);
    let c = config(300, 1, None, 200);
    let mut ctx = active_on(1, a, pt(0, 0));
    step(&mut ctx, None, 16, Found::Nothing, CONTAINER);
    assert!(!should_activate_immediately(&b, &ctx, 2));
    assert!(!should_activate_immediately(&c, &ctx, 2));
    // Coming back to the same target does.
    assert!(should_activate_immediately(&c, &ctx, 1));
}

#[test]
fn leaving_a_delayed_target_with_from_active_opens_no_window() {
    let mut a = config(300, 1, Some(4), 200);
    a.transfer.from_active = true;
    let mut ctx = TooltipContext::new();
    step(&mut ctx, None, 0, hover(1, a), CONTAINER);
    assert_eq!(ctx.state, TooltipState::Delayed);
    step(&mut ctx, None, 16, Found::Nothing, CONTAINER);
    assert_eq!(ctx.state, TooltipState::Inactive);
    assert_eq!(ctx.timer, 0);
    // Without from_active the window opens.
    a.transfer.from_active = false;
    let mut ctx = TooltipContext::new();
    step(&mut ctx, None, 0, hover(1, a), CONTAINER);
    step(&mut ctx, None, 16, Found::Nothing, CONTAINER);
    assert_eq!(ctx.timer, 200);
}

fn ui(entity: u64, tooltip: Tooltip, interaction: Interaction) -> UiTarget {
    UiTarget { entity, tooltip, interaction }
}

#[test]
fn click_dismisses_in_the_same_frame() {
    let t = config(0, 0, None, 0);
    let mut ctx = active_on(7, t, pt(0, 0));
    let stack = vec![ui(7, t, Interaction::Pressed)];
    let r = update_tooltip_context(&mut ctx, Some(pt(0, 0)), 16, &stack, None, &vec![], CONTAINER);
    assert_eq!(ctx.state, TooltipState::Dismissed);
    assert_eq!(ctx.target, Some(7));
    assert_eq!(r, StepEffects { hide: Some(CONTAINER), show: false });
}

#[test]
fn click_while_not_shown_hides_nothing() {
    let t = config(300, 0, None, 0);
    let mut ctx = TooltipContext::new();
    let stack = vec![ui(7, t, Interaction::Pressed)];
    let r = update_tooltip_context(&mut ctx, None, 16, &stack, None, &vec![], CONTAINER);
    assert_eq!(ctx.state, TooltipState::Dismissed);
    assert_eq!(r, QUIET);
}

#[test]
fn press_without_click_dismissal_is_a_hover() {
    let mut t = config(0, 0, None, 0);
    t.dismissal.on_click = false;
    let stack = vec![ui(7, t, Interaction::Pressed)];
    assert_eq!(resolve_target(&stack, None, &vec![]), hover(7, t));
}

#[test]
fn same_frames_are_idempotent() {
    let t = config(0, 0, None, 0);
    let mut ctx = active_on(7, t, pt(3, 4));
    let before = ctx;
    for _ in 0..20 {
        let r = step(&mut ctx, Some(pt(3, 4)), 16, hover(7, t), CONTAINER);
        assert_eq!(r, QUIET);
        assert_eq!(ctx, before);
    }
    let d = config(1000, 0, None, 0);
    let mut ctx = TooltipContext::new();
    step(&mut ctx, Some(pt(3, 4)), 0, hover(8, d), CONTAINER);
    let mut timer = ctx.timer;
    for _ in 0..20 {
        let r = step(&mut ctx, Some(pt(3, 4)), 10, hover(8, d), CONTAINER);
        assert_eq!(r, QUIET);
        assert_eq!(ctx.state, TooltipState::Delayed);
        assert_eq!(ctx.cursor_pos, pt(3, 4));
        assert_eq!(ctx.timer, timer - 10);
        timer = ctx.timer;
    }
}

#[test]
fn switching_active_target_with_no_delay_shows_new_content() {
    let a = config(0, 0, None, 0);
    let mut b = config(0, 0, None, 0);
    b.content = TooltipContent::Custom(9);
    let mut ctx = active_on(1, a, pt(0, 0));
    let r = step(&mut ctx, Some(pt(0, 0)), 16, hover(2, b), CONTAINER);
    assert_eq!(ctx.target, Some(2));
    assert_eq!(r, StepEffects { hide: Some(CONTAINER), show: true });
    // Same content entity, different target: only a show, to refresh the content.
    let c = config(0, 0, None, 0);
    let mut ctx = active_on(1, a, pt(0, 0));
    let r = step(&mut ctx, Some(pt(0, 0)), 16, hover(3, c), CONTAINER);
    assert_eq!(r, SHOW);
}

#[test]
fn ui_takes_priority_over_world_and_topmost_wins() {
    let t1 = config(0, 0, None, 0);
    let t2 = config(0, 3, None, 0);
    let world = vec![WorldTarget { entity: 50, tooltip: t1, screen_center: pt(0, 0), custom_size: None }];
    let stack = vec![
        ui(10, t1, Interaction::Idle),
        ui(11, t2, Interaction::Hovered),
        ui(12, t1, Interaction::Hovered),
    ];
    assert_eq!(find_ui_target(&stack), Some(1));
    assert_eq!(resolve_target(&stack, Some(pt(0, 0)), &world), hover(11, t2));
    let idle = vec![ui(10, t1, Interaction::Idle)];
    assert_eq!(find_ui_target(&idle), None);
    assert_eq!(resolve_target(&idle, Some(pt(0, 0)), &world), hover(50, t1));
    assert_eq!(resolve_target(&idle, None, &world), Found::Nothing);
    assert_eq!(resolve_target(&vec![], Some(pt(100, 0)), &world), Found::Nothing);
}

#[test]
fn world_bounds_default_and_custom() {
    let t = config(0, 0, None, 0);
    let plain = WorldTarget { entity: 1, tooltip: t, screen_center: pt(100, 100), custom_size: None };
    assert!(sprite_contains_point(&plain, pt(116, 84)));
    assert!(sprite_contains_point(&plain, pt(84, 116)));
    assert!(!sprite_contains_point(&plain, pt(117, 100)));
    assert!(!sprite_contains_point(&plain, pt(100, 83)));
    let wide = WorldTarget {
        entity: 2,
        tooltip: t,
        screen_center: pt(0, 0),
        custom_size: Some(Size { width: 100, height: 10 }),
    };
    assert!(sprite_contains_point(&wide, pt(-50, 5)));
    assert!(!sprite_contains_point(&wide, pt(0, 6)));
    // Overlapping targets: the first listed wins.
    let world = vec![plain, wide, WorldTarget { entity: 3, ..plain }];
    assert_eq!(find_world_target(&world, pt(100, 100)), Some(0));
    assert_eq!(find_world_target(&world, pt(-40, 0)), Some(1));
    assert_eq!(find_world_target(&world, pt(500, 500)), None);
}

#[test]
fn world_target_drives_the_state_machine() {
    let t = config(100, 0, None, 0);
    let world = vec![WorldTarget { entity: 5, tooltip: t, screen_center: pt(10, 10), custom_size: None }];
    let mut ctx = TooltipContext::new();
    let r = update_tooltip_context(&mut ctx, Some(pt(10, 10)), 0, &vec![], Some(pt(10, 10)), &world, CONTAINER);
    assert_eq!(r, QUIET);
    assert_eq!(ctx.state, TooltipState::Delayed);
    let r = update_tooltip_context(&mut ctx, Some(pt(10, 10)), 100, &vec![], Some(pt(10, 10)), &world, CONTAINER);
    assert_eq!(r, SHOW);
    assert_eq!(ctx.target, Some(5));
    let r = update_tooltip_context(&mut ctx, Some(pt(10, 10)), 16, &vec![], Some(pt(90, 90)), &world, CONTAINER);
    assert_eq!(r, StepEffects { hide: Some(CONTAINER), show: false });
    assert_eq!(ctx.state, TooltipState::Inactive);
}

#[test]
fn phases_one_by_one() {
    let t = config(50, 0, None, 0);
    let mut ctx = TooltipContext::new();
    apply_tooltip_transition(&mut ctx, 4, &t, false);
    assert_eq!(ctx.state, TooltipState::Delayed);
    assert_eq!(ctx.timer, 50);
    assert_eq!(ctx.dismiss_distance_sq, 100);
    track_pointer(&mut ctx, Some(pt(2, 2)));
    assert_eq!(ctx.cursor_pos, pt(2, 2));
    tick(&mut ctx, 20);
    assert_eq!(ctx.timer, 30);
    tick(&mut ctx, 1_000_000);
    assert_eq!(ctx.timer, 0);
    assert_eq!(ctx.state, TooltipState::Active);
    let before = ctx;
    apply_found(&mut ctx, Found::Nothing);
    assert_eq!(ctx.state, TooltipState::Inactive);
    assert_eq!(effects(&before, &ctx, CONTAINER), StepEffects { hide: Some(CONTAINER), show: false });
    assert_eq!(Tooltip::primary().content_entity(CONTAINER), CONTAINER);
    let mut c = t;
    c.content = TooltipContent::Custom(3);
    assert_eq!(c.content_entity(CONTAINER), 3);
}

#[test]
fn large_coordinates_do_not_overflow() {
    let mut t = config(0, 0, None, 0);
    t.dismissal.on_distance = u32::MAX;
    let mut ctx = active_on(1, t, pt(i32::MIN, i32::MIN));
    let r = step(&mut ctx, Some(pt(i32::MAX, i32::MAX)), 16, hover(1, t), CONTAINER);
    assert_eq!(ctx.state, TooltipState::Dismissed);
    assert_eq!(r.hide, Some(CONTAINER));
}
