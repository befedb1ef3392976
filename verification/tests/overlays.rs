use rnote_overlays::colors::{
    fill_color_recolor, stroke_color_recolor, PenColors, SelectionRecolor,
};
use rnote_overlays::layout::{measured_overlay_children, OverlayChild};
use rnote_overlays::pen_style::{pen_toggle_activation, PenStyle};
use rnote_overlays::progress::{
    pulse_tick, BarFill, ProgressPulse, PulseTick, FINISH_TIMEOUT_MS, PULSE_INTERVAL_MS,
};
use rnote_overlays::tabs::{close_tab_step, tab_menu_state, ActiveTabTracker, CloseTabStep};
use rnote_overlays::toasts::{
    error_toast, replace_singleton_toast, text_toast, toast_with_button, ToastPriority,
    TEXT_TOAST_TIMEOUT_DEFAULT,
};

const ALL: [PenStyle; 6] = [
    PenStyle::Brush,
    PenStyle::Shaper,
    PenStyle::Typewriter,
    PenStyle::Eraser,
    PenStyle::Selector,
    PenStyle::Tools,
];

fn blank_colors() -> PenColors<u32> {
    PenColors {
        brush_marker_stroke: None,
        brush_solid_stroke: Some(1),
        brush_textured_stroke: None,
        shaper_smooth_stroke: Some(2),
        shaper_rough_stroke: None,
        typewriter_text: 3,
        brush_marker_fill: Some(4),
        brush_solid_fill: None,
        shaper_smooth_fill: None,
        shaper_rough_fill: Some(5),
    }
}

#[test]
fn pen_style_names() {
    let names: Vec<&str> = ALL.iter().map(|s| s.name()).collect();
    assert_eq!(names, vec!["brush", "shaper", "typewriter", "eraser", "selector", "tools"]);
}

#[test]
fn pen_style_names_are_distinct() {
    for a in ALL {
        for b in ALL {
            assert_eq!(a.name() == b.name(), a == b);
        }
    }
}

#[test]
fn pen_styles_in_toolbar_order() {
    assert_eq!(PenStyle::all(), ALL.to_vec());
}

#[test]
fn active_toggle_activates_pen_style_action() {
    for style in ALL {
        let a = pen_toggle_activation(style, true).unwrap();
        assert_eq!(a.action, "pen-style");
        assert_eq!(a.parameter, style.name());
    }
    let a = pen_toggle_activation(PenStyle::Eraser, true).unwrap();
    assert_eq!(a.parameter, "eraser");
}

#[test]
fn inactive_toggle_does_nothing() {
    for style in ALL {
        assert_eq!(pen_toggle_activation(style, false), None);
    }
}

#[test]
fn stroke_color_reaches_every_pen() {
    let mut c = blank_colors();
    c.apply_stroke_color(9);
    assert_eq!(c.brush_marker_stroke, Some(9));
    assert_eq!(c.brush_solid_stroke, Some(9));
    assert_eq!(c.brush_textured_stroke, Some(9));
    assert_eq!(c.shaper_smooth_stroke, Some(9));
    assert_eq!(c.shaper_rough_stroke, Some(9));
    assert_eq!(c.typewriter_text, 9);
    // fills untouched
    assert_eq!(c.brush_marker_fill, Some(4));
    assert_eq!(c.brush_solid_fill, None);
    assert_eq!(c.shaper_smooth_fill, None);
    assert_eq!(c.shaper_rough_fill, Some(5));
}

#[test]
fn fill_color_reaches_filling_pens_only() {
    let mut c = blank_colors();
    c.apply_fill_color(7);
    assert_eq!(c.brush_marker_fill, Some(7));
    assert_eq!(c.brush_solid_fill, Some(7));
    assert_eq!(c.shaper_smooth_fill, Some(7));
    assert_eq!(c.shaper_rough_fill, Some(7));
    // strokes and text untouched
    assert_eq!(c.brush_marker_stroke, None);
    assert_eq!(c.brush_solid_stroke, Some(1));
    assert_eq!(c.brush_textured_stroke, None);
    assert_eq!(c.shaper_smooth_stroke, Some(2));
    assert_eq!(c.shaper_rough_stroke, None);
    assert_eq!(c.typewriter_text, 3);
}

fn same(a: &PenColors<u32>, b: &PenColors<u32>) -> bool {
    a.brush_marker_stroke == b.brush_marker_stroke
        && a.brush_solid_stroke == b.brush_solid_stroke
        && a.brush_textured_stroke == b.brush_textured_stroke
        && a.shaper_smooth_stroke == b.shaper_smooth_stroke
        && a.shaper_rough_stroke == b.shaper_rough_stroke
        && a.typewriter_text == b.typewriter_text
        && a.brush_marker_fill == b.brush_marker_fill
        && a.brush_solid_fill == b.brush_solid_fill
        && a.shaper_smooth_fill == b.shaper_smooth_fill
        && a.shaper_rough_fill == b.shaper_rough_fill
}

#[test]
fn last_color_choice_wins_and_orders_commute() {
    let mut twice = blank_colors();
    twice.apply_stroke_color(10);
    twice.apply_stroke_color(11);
    let mut once = blank_colors();
    once.apply_stroke_color(11);
    assert!(same(&twice, &once));

    let mut a = blank_colors();
    a.apply_stroke_color(20);
    a.apply_fill_color(21);
    let mut b = blank_colors();
    b.apply_fill_color(21);
    b.apply_stroke_color(20);
    assert!(same(&a, &b));

    let mut again = a;
    again.apply_stroke_color(20);
    again.apply_fill_color(21);
    assert!(same(&a, &again));
}

#[test]
fn stroke_color_recolors_selection() {
    assert_eq!(
        stroke_color_recolor(PenStyle::Typewriter, true),
        SelectionRecolor::RestyleSelectedText
    );
    assert_eq!(stroke_color_recolor(PenStyle::Typewriter, false), SelectionRecolor::Nothing);
    for differs in [true, false] {
        assert_eq!(
            stroke_color_recolor(PenStyle::Selector, differs),
            SelectionRecolor::RecolorSelectedStrokes
        );
        for style in [PenStyle::Brush, PenStyle::Shaper, PenStyle::Eraser, PenStyle::Tools] {
            assert_eq!(stroke_color_recolor(style, differs), SelectionRecolor::Nothing);
        }
    }
}

#[test]
fn fill_color_recolors_selection() {
    assert_eq!(fill_color_recolor(PenStyle::Selector), SelectionRecolor::RecolorSelectedFills);
    for style in ALL {
        if style != PenStyle::Selector {
            assert_eq!(fill_color_recolor(style), SelectionRecolor::Nothing);
        }
    }
}

#[test]
fn tab_selection_syncs_from_previous_live_page() {
    let mut t = ActiveTabTracker::new();
    assert_eq!(t.previous(), None);
    assert_eq!(t.on_page_selected(1, true), None);
    assert_eq!(t.previous(), Some(1));
    assert_eq!(t.on_page_selected(2, true), Some(1));
    assert_eq!(t.previous(), Some(2));
    // reselecting the same page syncs nothing
    assert_eq!(t.on_page_selected(2, true), None);
    // a previous page that is gone is not synced from
    assert_eq!(t.on_page_selected(3, false), None);
    assert_eq!(t.previous(), Some(3));
}

#[test]
fn tab_detach_clears_record() {
    let mut t = ActiveTabTracker::new();
    t.on_page_selected(5, true);
    t.on_page_detached(6, true);
    assert_eq!(t.previous(), Some(5));
    t.on_page_detached(5, true);
    assert_eq!(t.previous(), None);

    t.on_page_selected(7, true);
    t.on_page_detached(8, false);
    assert_eq!(t.previous(), None);

    let mut empty = ActiveTabTracker::new();
    empty.on_page_detached(1, true);
    assert_eq!(empty.previous(), None);
}

#[test]
fn closing_tab_asks_only_with_unsaved_changes() {
    assert_eq!(close_tab_step(true), CloseTabStep::AskUser);
    assert_eq!(close_tab_step(false), CloseTabStep::CloseConfirmed);
}

#[test]
fn tab_menu_entries() {
    let m = tab_menu_state(1, 0);
    assert!(!m.move_left && !m.move_right && !m.close);
    let m = tab_menu_state(3, 0);
    assert!(!m.move_left && m.move_right && m.close);
    let m = tab_menu_state(3, 1);
    assert!(m.move_left && m.move_right && m.close);
    let m = tab_menu_state(3, 2);
    assert!(m.move_left && !m.move_right && m.close);
    // position -1: a page not in the view
    let m = tab_menu_state(3, -1);
    assert!(!m.move_left && m.move_right && m.close);
    // no overflow at the edge of the integer range
    let m = tab_menu_state(i32::MAX, i32::MAX);
    assert!(m.move_left && !m.move_right && m.close);
}

#[test]
fn progress_pulse_lifecycle() {
    assert_eq!(PULSE_INTERVAL_MS, 300);
    assert_eq!(FINISH_TIMEOUT_MS, 300);
    let mut p: ProgressPulse<&str> = ProgressPulse::new();
    assert!(!p.is_pulsing());
    assert_eq!(p.start_pulsing("a"), None);
    assert!(p.is_pulsing());
    assert_eq!(p.start_pulsing("b"), Some("a"));
    let stop = p.finish();
    assert_eq!(stop.stale_timer, Some("b"));
    assert_eq!(stop.fill, BarFill::Full);
    assert_eq!(stop.empty_after_ms, Some(300));
    assert!(!p.is_pulsing());
    let stop = p.finish();
    assert_eq!(stop.stale_timer, None);
}

#[test]
fn progress_abort_empties_bar() {
    let mut p: ProgressPulse<u32> = ProgressPulse::new();
    p.start_pulsing(4);
    let stop = p.abort();
    assert_eq!(stop.stale_timer, Some(4));
    assert_eq!(stop.fill, BarFill::Empty);
    assert_eq!(stop.empty_after_ms, None);
    assert!(!p.is_pulsing());
    assert_eq!(p.abort().stale_timer, None);
}

#[test]
fn pulse_tick_stops_without_overlays() {
    assert_eq!(pulse_tick(true), PulseTick::PulseAndContinue);
    assert_eq!(pulse_tick(false), PulseTick::Stop);
}

#[test]
fn toast_builders() {
    let t = toast_with_button("Saved", "Undo", 7);
    assert_eq!(t.title, "Saved");
    assert_eq!(t.button_label.as_deref(), Some("Undo"));
    assert_eq!(t.priority, ToastPriority::High);
    assert_eq!(t.timeout, 7);

    let t = text_toast("Exported", TEXT_TOAST_TIMEOUT_DEFAULT);
    assert_eq!(t.title, "Exported");
    assert_eq!(t.button_label, None);
    assert_eq!(t.priority, ToastPriority::High);
    assert_eq!(t.timeout, 5);

    let t = error_toast("Opening file failed");
    assert_eq!(t.title, "Opening file failed");
    assert_eq!(t.button_label, None);
    assert_eq!(t.priority, ToastPriority::High);
    assert_eq!(t.timeout, 0);
}

#[test]
fn singleton_toast_keeps_only_latest() {
    let mut slot: Option<u32> = None;
    assert_eq!(replace_singleton_toast(&mut slot, 1), None);
    assert_eq!(slot, Some(1));
    assert_eq!(replace_singleton_toast(&mut slot, 2), Some(1));
    assert_eq!(slot, Some(2));
    assert_eq!(replace_singleton_toast(&mut slot, 3), Some(2));
    assert_eq!(slot, Some(3));
}

#[test]
fn toolbar_overlay_measures_tools() {
    assert_eq!(
        measured_overlay_children(),
        vec![OverlayChild::ColorPicker, OverlayChild::PensTogglesBox, OverlayChild::SidebarBox]
    );
}
