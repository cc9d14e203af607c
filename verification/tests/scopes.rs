use blue_engine_imgui::style_block;
use blue_engine_imgui::Event;
use blue_engine_imgui::OverrideStack;
use blue_engine_imgui::Style;
use imgui::sys::ImVec4;
use imgui::StyleColor;
use imgui::StyleVar;
use std::sync::Mutex;
use std::sync::MutexGuard;

// Dear ImGui allows one active context per process.
static CONTEXT_LOCK: Mutex<()> = Mutex::new(());

const BLUE: [f32; 4] = [0.0, 0.0, 1.0, 1.0];
const GREEN: [f32; 4] = [0.0, 1.0, 0.0, 1.0];
const WHITE: [f32; 4] = [1.0, 1.0, 1.0, 1.0];

fn context() -> (MutexGuard<'static, ()>, imgui::Context) {
    let guard = match CONTEXT_LOCK.lock() {
        Ok(guard) => guard,
        Err(poisoned) => poisoned.into_inner(),
    };
    let mut ctx = imgui::Context::create();
    ctx.set_ini_filename(None);
    let io = ctx.io_mut();
    io.display_size = [1024.0, 768.0];
    io.delta_time = 1.0 / 60.0;
    ctx.fonts().build_rgba32_texture();
    (guard, ctx)
}

fn color(slot: StyleColor, rgba: [f32; 4]) -> Style {
    Style::Color(slot, ImVec4::from(rgba))
}

fn pops(events: &[Event]) -> Vec<Style> {
    events
        .iter()
        .filter(|e| matches!(e, Event::Popped(_)))
        .map(|e| e.style())
        .collect()
}

fn pushes(events: &[Event]) -> Vec<Style> {
    events
        .iter()
        .filter(|e| matches!(e, Event::Pushed(_)))
        .map(|e| e.style())
        .collect()
}

#[test]
fn nested_scopes_pop_in_reverse_order() {
    let (_guard, mut ctx) = context();
    let ui: &imgui::Ui = ctx.new_frame();
    let button_default = ui.style_color(StyleColor::Button);
    let border_default = ui.style_color(StyleColor::Border);
    let border_size_default = ui.clone_style().frame_border_size;
    let mut stack = OverrideStack::new(ui);

    let blue = color(StyleColor::Button, BLUE);
    let border_size = Style::Config(StyleVar::FrameBorderSize(2.0));
    let white = color(StyleColor::Border, WHITE);
    let green = color(StyleColor::Button, GREEN);

    style_block(
        vec![blue],
        |s| {
            assert_eq!(ui.style_color(StyleColor::Button), BLUE);
            style_block(
                vec![border_size, white],
                |s| {
                    assert_eq!(ui.clone_style().frame_border_size, 2.0);
                    assert_eq!(ui.style_color(StyleColor::Border), WHITE);
                    style_block(
                        vec![green],
                        |s| {
                            assert_eq!(ui.style_color(StyleColor::Button), GREEN);
                            assert_eq!(s.color_depth(), 3);
                            assert_eq!(s.config_depth(), 1);
                            assert!(pops(s.events()).is_empty());
                        },
                        s,
                    );
                    assert_eq!(ui.style_color(StyleColor::Button), BLUE);
                    assert_eq!(pops(s.events()), vec![green]);
                },
                s,
            );
            assert_eq!(ui.clone_style().frame_border_size, border_size_default);
            assert_eq!(ui.style_color(StyleColor::Border), border_default);
            assert_eq!(pops(s.events()), vec![green, white, border_size]);
        },
        &mut stack,
    );

    assert_eq!(pops(stack.events()), vec![green, white, border_size, blue]);
    assert_eq!(pushes(stack.events()), vec![blue, border_size, white, green]);
    assert!(stack.is_empty());
    assert_eq!(stack.config_depth(), 0);
    assert_eq!(stack.color_depth(), 0);
    assert_eq!(ui.style_color(StyleColor::Button), button_default);
    assert_eq!(ui.style_color(StyleColor::Border), border_default);
    assert_eq!(ui.clone_style().frame_border_size, border_size_default);
}

#[test]
fn nested_scopes_record_every_step_in_order() {
    let (_guard, mut ctx) = context();
    let ui: &imgui::Ui = ctx.new_frame();
    let mut stack = OverrideStack::new(ui);

    let blue = color(StyleColor::Button, BLUE);
    let border_size = Style::Config(StyleVar::FrameBorderSize(2.0));
    let white = color(StyleColor::Border, WHITE);
    let green = color(StyleColor::Button, GREEN);

    style_block(
        vec![blue],
        |s| {
            style_block(
                vec![border_size, white],
                |s| style_block(vec![green], |_| {}, s),
                s,
            )
        },
        &mut stack,
    );

    assert_eq!(
        stack.events().as_slice(),
        [
            Event::Pushed(blue),
            Event::Pushed(border_size),
            Event::Pushed(white),
            Event::Pushed(green),
            Event::Popped(green),
            Event::Popped(white),
            Event::Popped(border_size),
            Event::Popped(blue),
        ]
    );
}

#[test]
fn failure_in_block_is_seen_after_the_scope_is_reverted() {
    let (_guard, mut ctx) = context();
    let ui: &imgui::Ui = ctx.new_frame();
    let button_default = ui.style_color(StyleColor::Button);
    let alpha_default = ui.clone_style().alpha;
    let mut stack = OverrideStack::new(ui);

    let blue = color(StyleColor::Button, BLUE);
    let faint = Style::Config(StyleVar::Alpha(0.25));

    let outcome: Result<(), String> = style_block(
        vec![blue, faint],
        |s| {
            assert_eq!(s.color_depth(), 1);
            assert_eq!(s.config_depth(), 1);
            assert_eq!(ui.style_color(StyleColor::Button), BLUE);
            assert_eq!(ui.clone_style().alpha, 0.25);
            Err(String::from("drawing failed"))
        },
        &mut stack,
    );

    assert_eq!(outcome, Err(String::from("drawing failed")));
    assert!(stack.is_empty());
    assert_eq!(pops(stack.events()), vec![faint, blue]);
    assert_eq!(ui.style_color(StyleColor::Button), button_default);
    assert_eq!(ui.clone_style().alpha, alpha_default);
}

#[test]
fn failure_in_inner_scope_leaves_outer_overrides_applied() {
    let (_guard, mut ctx) = context();
    let ui: &imgui::Ui = ctx.new_frame();
    let mut stack = OverrideStack::new(ui);

    let blue = color(StyleColor::Button, BLUE);
    let green = color(StyleColor::Button, GREEN);

    let outcome: Result<u32, &str> = style_block(
        vec![blue],
        |s| {
            let inner: Result<u32, &str> = style_block(vec![green], |_| Err("inner"), s);
            assert_eq!(inner, Err("inner"));
            assert_eq!(s.colors(), vec![(StyleColor::Button, ImVec4::from(BLUE))]);
            assert_eq!(ui.style_color(StyleColor::Button), BLUE);
            inner
        },
        &mut stack,
    );

    assert_eq!(outcome, Err("inner"));
    assert!(stack.is_empty());
}

#[test]
fn block_result_is_handed_back() {
    let (_guard, mut ctx) = context();
    let ui: &imgui::Ui = ctx.new_frame();
    let mut stack = OverrideStack::new(ui);
    let depth = style_block(
        vec![color(StyleColor::Text, WHITE), color(StyleColor::Button, BLUE)],
        |s| s.color_depth() + 40,
        &mut stack,
    );
    assert_eq!(depth, 42);
}

#[test]
fn block_runs_once() {
    let (_guard, mut ctx) = context();
    let ui: &imgui::Ui = ctx.new_frame();
    let mut stack = OverrideStack::new(ui);
    let mut runs = 0;
    style_block(vec![color(StyleColor::Text, WHITE)], |_| runs += 1, &mut stack);
    assert_eq!(runs, 1);
}
