//! Exact layout arithmetic, colors, and pointer-driven dismissal.

#![allow(dead_code)]

use egui_notify::{
    Anchor, Color, FrameInput, RectI, ToastLevel, ToastMeasure, Toasts, Vec2I, lighter,
    line_count,
};

fn screen() -> RectI {
    RectI { min: Vec2I { x: 0, y: 0 }, max: Vec2I { x: 800, y: 600 } }
}

#[test]
fn line_count_counts_newlines() {
    assert_eq!(line_count(""), 1);
    assert_eq!(line_count("hello"), 1);
    assert_eq!(line_count("a\nb"), 2);
    assert_eq!(line_count("a\nb\nc\n"), 4);
}

#[test]
fn palette_colors_are_exact() {
    assert_eq!(ToastLevel::Info.color(), Color { r: 150, g: 200, b: 210, a: 255 });
    assert_eq!(ToastLevel::Warning.color(), Color { r: 230, g: 220, b: 140, a: 255 });
    assert_eq!(ToastLevel::Error.color(), Color { r: 200, g: 90, b: 90, a: 255 });
    assert_eq!(ToastLevel::Success.color(), Color { r: 140, g: 230, b: 140, a: 255 });
    assert_eq!(ToastLevel::NoLevel.color(), Color { r: 160, g: 160, b: 160, a: 255 });
}

#[test]
fn lighter_scales_by_half_again_and_saturates() {
    let c = lighter(Color { r: 100, g: 200, b: 10, a: 31 });
    assert_eq!(c, Color { r: 150, g: 255, b: 15, a: 31 });
    let d = lighter(Color { r: 171, g: 0, b: 255, a: 255 });
    assert_eq!(d, Color { r: 255, g: 0, b: 255, a: 255 });
}

#[test]
fn first_frame_layout_is_exact_at_top_left() {
    // Hand-computed layout for one toast on its first frame.
    let mut toasts = Toasts::new().with_anchor(Anchor::TopLeft);
    toasts.basic(String::from("hi"));

    let input =
        FrameInput { screen: screen(), dt_ms: 16, hover: None, press: None, released: false };
    let mut pass = toasts.begin_frame(&input);
    // Margin (8, 8) from the top-left corner.
    assert_eq!(pass.cursor, Vec2I { x: 8, y: 8 });

    toasts.drain_channel(&mut pass);
    let m = ToastMeasure {
        caption_width: 100,
        caption_height: 20,
        icon_width: 0,
        icon_height: 0,
        cross_width: 10,
        cross_height: 10,
        pos_y: pass.cursor.y,
    };
    let frame = toasts.frame_toast(&mut pass, &m);
    let repaint = toasts.end_frame(pass);

    // Width: icon slot (20/1 lines = 20, +7 gap) + caption 100
    //        + close icon (10, +7 gap) + 2 * padding 10 = 164.
    // Height: max(0, 20, 10) + 2 * padding 10 = 40.
    assert_eq!(toasts.toasts[0].width, 164);
    assert_eq!(toasts.toasts[0].height, 40);

    // At progress 0 the box is slid fully out to the left of the cursor.
    assert_eq!(frame.rect, RectI {
        min: Vec2I { x: -156, y: 8 },
        max: Vec2I { x: 8, y: 48 },
    });
    // Close icon flush against the right padding, centered vertically.
    assert_eq!(frame.cross_rect, Some(RectI {
        min: Vec2I { x: -12, y: 23 },
        max: Vec2I { x: -2, y: 33 },
    }));
    // Caption centered, nudged left by half the close icon's padded
    // width (no level icon to nudge it right).
    assert_eq!(frame.caption_pos, Vec2I { x: -132, y: 18 });
    // No level, no icon.
    assert_eq!(frame.icon_pos, None);
    // Fresh countdown: the progress bar still spans the whole box.
    assert_eq!(frame.progress_left, Some(8));
    assert_eq!(frame.border_width, 1);
    assert_eq!(frame.id, 0);
    // An appearing toast needs continuous repainting.
    assert!(repaint);

    // The cursor moved down by spacing 8 + height 40.
    // (A fresh pass would start from the margin again.)
    assert_eq!(toasts.toasts[0].value, 64);
}

#[test]
fn icon_reserves_space_and_is_placed() {
    let mut toasts = Toasts::new().with_anchor(Anchor::TopLeft);
    toasts.error(String::from("boom"));
    let input =
        FrameInput { screen: screen(), dt_ms: 0, hover: None, press: None, released: false };
    let mut pass = toasts.begin_frame(&input);
    toasts.drain_channel(&mut pass);
    let m = ToastMeasure {
        caption_width: 50,
        caption_height: 16,
        icon_width: 12,
        icon_height: 14,
        cross_width: 10,
        cross_height: 10,
        pos_y: pass.cursor.y,
    };
    let frame = toasts.frame_toast(&mut pass, &m);
    toasts.end_frame(pass);
    assert_eq!(frame.level, ToastLevel::Error);
    // Width: slot (16 + 7) + 50 + cross (10 + 7) + 20 = 110.
    assert_eq!(toasts.toasts[0].width, 110);
    // Height: max(14, 16, 10) + 20 = 36.
    assert_eq!(toasts.toasts[0].height, 36);
    // Icon at padding from the left edge, centered on the icon height.
    let rect = frame.rect;
    assert_eq!(frame.icon_pos, Some(Vec2I { x: rect.min.x + 10, y: rect.min.y + 18 - 7 }));
}

#[test]
fn at_most_one_dismissal_per_press() {
    // Two zero-size toasts stack at the same point, so one press point
    // lies inside both close-icon rectangles; only one toast is
    // dismissed, and none more until the button is released.
    let mut toasts = Toasts::new()
        .with_anchor(Anchor::TopLeft)
        .with_margin(Vec2I { x: 0, y: 0 })
        .with_padding(Vec2I { x: 0, y: 0 })
        .with_spacing(0);
    toasts.basic(String::from("a"));
    toasts.basic(String::from("b"));

    let press = Some(Vec2I { x: 0, y: 0 });
    let input = FrameInput { screen: screen(), dt_ms: 0, hover: None, press, released: false };
    let mut pass = toasts.begin_frame(&input);
    while pass.index < pass.count {
        toasts.drain_channel(&mut pass);
        let m = ToastMeasure {
            caption_width: 0,
            caption_height: 0,
            icon_width: 0,
            icon_height: 0,
            cross_width: 0,
            cross_height: 0,
            pos_y: pass.cursor.y,
        };
        toasts.frame_toast(&mut pass, &m);
    }
    toasts.end_frame(pass);

    // Both close icons contained the press point, but only the first
    // toast was dismissed.
    assert!(toasts.toasts[0].state.disappearing());
    assert!(toasts.toasts[1].state.appearing());

    // The press is still held: a second frame dismisses nothing more
    // (the first toast, at zero progress, finishes disappearing).
    let input2 = FrameInput { screen: screen(), dt_ms: 0, hover: None, press, released: false };
    let mut pass = toasts.begin_frame(&input2);
    while pass.index < pass.count {
        toasts.drain_channel(&mut pass);
        let m = ToastMeasure {
            caption_width: 0,
            caption_height: 0,
            icon_width: 0,
            icon_height: 0,
            cross_width: 0,
            cross_height: 0,
            pos_y: pass.cursor.y,
        };
        toasts.frame_toast(&mut pass, &m);
    }
    toasts.end_frame(pass);
    assert!(toasts.toasts[0].state.disappeared());
    assert!(toasts.toasts[1].state.appearing());

    // After a release, a fresh press may dismiss the remaining toast.
    let input3 = FrameInput { screen: screen(), dt_ms: 0, hover: None, press, released: true };
    let mut pass = toasts.begin_frame(&input3);
    while pass.index < pass.count {
        toasts.drain_channel(&mut pass);
        let m = ToastMeasure {
            caption_width: 0,
            caption_height: 0,
            icon_width: 0,
            icon_height: 0,
            cross_width: 0,
            cross_height: 0,
            pos_y: pass.cursor.y,
        };
        toasts.frame_toast(&mut pass, &m);
    }
    toasts.end_frame(pass);
    assert_eq!(toasts.toasts.len(), 1);
    assert_eq!(toasts.toasts[0].caption, "b");
    assert!(toasts.toasts[0].state.disappearing());
}

#[test]
fn hover_inside_the_box_pauses_the_countdown() {
    let mut toasts = Toasts::new().with_anchor(Anchor::TopLeft);
    toasts.basic(String::from("hi")).set_duration(Some(1000));
    toasts.toasts[0].state = egui_notify::ToastState::Idle;
    toasts.toasts[0].value = 1000;

    let measure = |pos_y: i64| ToastMeasure {
        caption_width: 100,
        caption_height: 20,
        icon_width: 0,
        icon_height: 0,
        cross_width: 10,
        cross_height: 10,
        pos_y,
    };

    // Fully shown: the box sits at (8, 8) .. (172, 48).  Hover inside.
    let hover = Some(Vec2I { x: 50, y: 20 });
    let input = FrameInput { screen: screen(), dt_ms: 100, hover, press: None, released: false };
    let mut pass = toasts.begin_frame(&input);
    toasts.drain_channel(&mut pass);
    let m = measure(pass.cursor.y);
    let frame = toasts.frame_toast(&mut pass, &m);
    toasts.end_frame(pass);
    assert!(frame.toast_hovered);
    assert!(toasts.toasts[0].toast_hovered);
    // The first frame still ticked: the hover flag was stale.
    assert_eq!(toasts.toasts[0].options.duration, Some((1000, 900)));

    // The second frame sees the hover flag and pauses the countdown.
    let input = FrameInput { screen: screen(), dt_ms: 100, hover, press: None, released: false };
    let mut pass = toasts.begin_frame(&input);
    toasts.drain_channel(&mut pass);
    let m = measure(pass.cursor.y);
    toasts.frame_toast(&mut pass, &m);
    toasts.end_frame(pass);
    assert_eq!(toasts.toasts[0].options.duration, Some((1000, 900)));

    // Hover gone: the countdown runs again.
    let input =
        FrameInput { screen: screen(), dt_ms: 100, hover: Some(Vec2I { x: 500, y: 500 }), press: None, released: false };
    let mut pass = toasts.begin_frame(&input);
    toasts.drain_channel(&mut pass);
    let m = measure(pass.cursor.y);
    toasts.frame_toast(&mut pass, &m);
    toasts.end_frame(pass);
    // Still stale-hovered during this frame's tick, unhovered after.
    assert!(!toasts.toasts[0].toast_hovered);
    let input = FrameInput { screen: screen(), dt_ms: 100, hover: None, press: None, released: false };
    let mut pass = toasts.begin_frame(&input);
    toasts.drain_channel(&mut pass);
    let m = measure(pass.cursor.y);
    toasts.frame_toast(&mut pass, &m);
    toasts.end_frame(pass);
    assert_eq!(toasts.toasts[0].options.duration, Some((1000, 800)));
}

#[test]
fn progress_bar_tracks_the_spent_share() {
    // With 250 of 1000 ms left, three quarters of the box width are
    // spent: left edge = right edge - 164 * 750 / 1000 = right - 123.
    let mut toasts = Toasts::new().with_anchor(Anchor::TopLeft);
    toasts.basic(String::from("hi")).set_duration(Some(1000));
    toasts.toasts[0].options.duration = Some((1000, 250));
    let input =
        FrameInput { screen: screen(), dt_ms: 0, hover: None, press: None, released: false };
    let mut pass = toasts.begin_frame(&input);
    toasts.drain_channel(&mut pass);
    let m = ToastMeasure {
        caption_width: 100,
        caption_height: 20,
        icon_width: 0,
        icon_height: 0,
        cross_width: 10,
        cross_height: 10,
        pos_y: pass.cursor.y,
    };
    let frame = toasts.frame_toast(&mut pass, &m);
    toasts.end_frame(pass);
    assert_eq!(frame.rect.max.x, 8);
    assert_eq!(frame.progress_left, Some(8 - 123));
}

#[test]
fn bottom_right_anchor_pulls_margin_inward() {
    let toasts = Toasts::new();
    let input =
        FrameInput { screen: screen(), dt_ms: 0, hover: None, press: None, released: false };
    let mut toasts = toasts;
    let pass = toasts.begin_frame(&input);
    // Bottom-right corner (800, 600) pulled inward by the margin (8, 8).
    assert_eq!(pass.cursor, Vec2I { x: 792, y: 592 });
    toasts.end_frame(pass);
}
