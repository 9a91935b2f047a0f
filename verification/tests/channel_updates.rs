//! The asynchronous update channel: merging, backlog, disconnects.

#![allow(dead_code)]

use egui_notify::{
    FrameInput, RectI, ToastLevel, ToastMeasure, ToastOptions, ToastUpdate, Toasts, Vec2I,
};

fn screen() -> RectI {
    RectI { min: Vec2I { x: 0, y: 0 }, max: Vec2I { x: 800, y: 600 } }
}

fn zero_measure(pos_y: i64) -> ToastMeasure {
    ToastMeasure {
        caption_width: 0,
        caption_height: 0,
        icon_width: 0,
        icon_height: 0,
        cross_width: 0,
        cross_height: 0,
        pos_y,
    }
}

fn run_frame(toasts: &mut Toasts, dt_ms: u64) -> bool {
    let input = FrameInput { screen: screen(), dt_ms, hover: None, press: None, released: false };
    let mut pass = toasts.begin_frame(&input);
    while pass.index < pass.count {
        toasts.drain_channel(&mut pass);
        let m = zero_measure(pass.cursor.y);
        toasts.frame_toast(&mut pass, &m);
    }
    toasts.end_frame(pass)
}

#[test]
fn create_channel_disables_expiry_and_closing_immediately() {
    let mut toasts = Toasts::new();
    let sender = toasts.basic(String::from("live")).create_channel();
    // Before any frame update runs:
    assert_eq!(toasts.toasts[0].options.duration, None);
    assert!(!toasts.toasts[0].options.closable);
    assert!(toasts.toasts[0].subscription.is_some());
    drop(sender);
}

#[test]
fn caption_only_update_changes_nothing_else() {
    let mut toasts = Toasts::new();
    let sender = toasts.info(String::from("old")).create_channel();
    sender.send(ToastUpdate::caption(String::from("new"))).unwrap();
    run_frame(&mut toasts, 16);
    assert_eq!(toasts.toasts[0].caption, "new");
    assert_eq!(toasts.toasts[0].options.level, ToastLevel::Info);
    assert!(toasts.toasts[0].fallback_options.is_none());
    assert!(toasts.toasts[0].subscription.is_some());
}

#[test]
fn leveled_update_changes_level() {
    let mut toasts = Toasts::new();
    let sender = toasts.info(String::from("working")).create_channel();
    sender.send(ToastUpdate::success(String::from("done"))).unwrap();
    run_frame(&mut toasts, 16);
    assert_eq!(toasts.toasts[0].caption, "done");
    assert_eq!(toasts.toasts[0].options.level, ToastLevel::Success);
}

#[test]
fn backlog_drains_one_message_per_frame() {
    let mut toasts = Toasts::new();
    let sender = toasts.basic(String::from("0")).create_channel();
    sender.send(ToastUpdate::caption(String::from("1"))).unwrap();
    sender.send(ToastUpdate::caption(String::from("2"))).unwrap();
    run_frame(&mut toasts, 16);
    assert_eq!(toasts.toasts[0].caption, "1");
    run_frame(&mut toasts, 16);
    assert_eq!(toasts.toasts[0].caption, "2");
}

#[test]
fn disconnect_with_fallback_adopts_it_exactly_once() {
    let mut toasts = Toasts::new();
    let sender = toasts.basic(String::from("live")).create_channel();
    let fallback = ToastOptions {
        duration: Some((1200, 1200)),
        level: ToastLevel::Warning,
        closable: true,
        show_progress_bar: false,
    };
    sender
        .send(ToastUpdate::caption(String::from("done")).with_fallback_options(fallback))
        .unwrap();
    run_frame(&mut toasts, 0);
    assert!(toasts.toasts[0].fallback_options.is_some());

    drop(sender);
    run_frame(&mut toasts, 0);
    // The options are exactly the fallback values now.
    assert_eq!(toasts.toasts[0].options.duration, Some((1200, 1200)));
    assert_eq!(toasts.toasts[0].options.level, ToastLevel::Warning);
    assert!(toasts.toasts[0].options.closable);
    assert!(!toasts.toasts[0].options.show_progress_bar);
    // The subscription is cleared, so nothing further happens.
    assert!(toasts.toasts[0].subscription.is_none());
    assert!(toasts.toasts[0].fallback_options.is_none());
    run_frame(&mut toasts, 0);
    assert!(toasts.toasts[0].state.appearing());
    assert_eq!(toasts.toasts[0].options.duration, Some((1200, 1200)));
}

#[test]
fn disconnect_without_fallback_dismisses_the_toast() {
    let mut toasts = Toasts::new();
    let sender = toasts.basic(String::from("live")).create_channel();
    drop(sender);
    run_frame(&mut toasts, 0);
    assert!(toasts.toasts[0].state.disappearing());
    assert!(toasts.toasts[0].subscription.is_none());
}

#[test]
fn update_level_recolors_attached_fallback() {
    let u = ToastUpdate::caption(String::from("x"))
        .with_fallback_options(ToastOptions {
            duration: None,
            level: ToastLevel::Info,
            closable: true,
            show_progress_bar: true,
        })
        .with_level(ToastLevel::Error);
    assert_eq!(u.fallback_options.as_ref().unwrap().level, ToastLevel::Error);
    assert_eq!(u.level, Some(ToastLevel::Error));
}

#[test]
fn update_builders_compose() {
    let u = ToastUpdate::warning(String::from("w")).with_original_options();
    assert_eq!(u.caption, Some(String::from("w")));
    assert_eq!(u.level, Some(ToastLevel::Warning));
    assert!(u.use_original_options);
    let e = ToastUpdate::error(String::from("e"));
    assert_eq!(e.level, Some(ToastLevel::Error));
    let i = ToastUpdate::info(String::from("i"));
    assert_eq!(i.level, Some(ToastLevel::Info));
}
