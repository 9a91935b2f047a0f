//! Construction shortcuts, option templates and fluent configuration.

use egui_notify::{Anchor, Toast, ToastLevel, ToastOptions, Toasts, Vec2I};

#[test]
fn error_shortcut_changes_only_the_level() {
    // With the default template (3.5 s duration, closable, progress bar,
    // no level), `error` produces a toast that differs from the template
    // in its level alone.
    let mut toasts = Toasts::new();
    toasts.error(String::from("x"));
    let t = &toasts.toasts[0];
    assert_eq!(t.options.level, ToastLevel::Error);
    assert!(t.options.closable);
    assert!(t.options.show_progress_bar);
    assert_eq!(t.options.duration, Some((3500, 3500)));
    assert_eq!(t.caption, "x");
    assert!(t.state.appearing());
    assert_eq!(t.value, 0);
}

#[test]
fn every_shortcut_sets_its_level() {
    let mut toasts = Toasts::new();
    toasts.success(String::from("s"));
    toasts.info(String::from("i"));
    toasts.warning(String::from("w"));
    toasts.error(String::from("e"));
    toasts.basic(String::from("b"));
    assert_eq!(toasts.toasts[0].options.level, ToastLevel::Success);
    assert_eq!(toasts.toasts[1].options.level, ToastLevel::Info);
    assert_eq!(toasts.toasts[2].options.level, ToastLevel::Warning);
    assert_eq!(toasts.toasts[3].options.level, ToastLevel::Error);
    assert_eq!(toasts.toasts[4].options.level, ToastLevel::NoLevel);
}

#[test]
fn builders_replace_their_field() {
    let toasts = Toasts::new()
        .with_anchor(Anchor::TopCenter)
        .with_spacing(12)
        .with_margin(Vec2I { x: 4, y: 6 })
        .with_padding(Vec2I { x: 2, y: 3 })
        .reverse(true);
    assert_eq!(toasts.anchor, Anchor::TopCenter);
    assert_eq!(toasts.spacing, 12);
    assert_eq!(toasts.margin, Vec2I { x: 4, y: 6 });
    assert_eq!(toasts.padding, Vec2I { x: 2, y: 3 });
    assert!(toasts.reverse);
}

#[test]
fn fluent_setters_chain_on_the_stored_toast() {
    let mut toasts = Toasts::new();
    toasts
        .basic(String::from("x"))
        .set_level(ToastLevel::Warning)
        .set_closable(false)
        .set_show_progress_bar(false)
        .set_duration(Some(250))
        .set_width(200)
        .set_height(50);
    let t = &toasts.toasts[0];
    assert_eq!(t.options.level, ToastLevel::Warning);
    assert!(!t.options.closable);
    assert!(!t.options.show_progress_bar);
    assert_eq!(t.options.duration, Some((250, 250)));
    assert_eq!(t.width, 200);
    assert_eq!(t.height, 50);
}

#[test]
fn set_duration_none_disables_expiry() {
    let mut toasts = Toasts::new();
    toasts.basic(String::from("x")).set_duration(None);
    assert_eq!(toasts.toasts[0].options.duration, None);
}

#[test]
fn standalone_toast_constructors() {
    let t = Toast::basic(String::from("plain"));
    assert_eq!(t.options.level, ToastLevel::NoLevel);
    assert!(t.state.appearing());
    let t = Toast::basic(String::from("ok")).success();
    assert_eq!(t.options.level, ToastLevel::Success);
    let t = Toast::basic(String::from("i")).info();
    assert_eq!(t.options.level, ToastLevel::Info);
    let t = Toast::basic(String::from("w")).warning();
    assert_eq!(t.options.level, ToastLevel::Warning);
    let t = Toast::basic(String::from("e")).error();
    assert_eq!(t.options.level, ToastLevel::Error);
}

#[test]
fn with_options_replaces_live_options_only() {
    let custom = ToastOptions {
        duration: None,
        level: ToastLevel::Warning,
        closable: false,
        show_progress_bar: false,
    };
    let t = Toast::basic(String::from("x")).with_options(&custom);
    assert_eq!(t.options.level, ToastLevel::Warning);
    assert_eq!(t.options.duration, None);
    // The creation snapshot keeps the defaults.
    assert_eq!(t.original_options.duration, Some((3500, 3500)));
    assert_eq!(t.original_options.level, ToastLevel::NoLevel);
}

#[test]
fn options_set_duration_arms_both_fields() {
    let mut o = ToastOptions::default();
    o.set_duration(60000);
    assert_eq!(o.duration, Some((60000, 60000)));
}

#[test]
fn default_collection_matches_new() {
    let a = Toasts::default();
    assert_eq!(a.anchor, Anchor::BottomRight);
    assert_eq!(a.spacing, 8);
    assert_eq!(a.margin, Vec2I { x: 8, y: 8 });
    assert_eq!(a.padding, Vec2I { x: 10, y: 10 });
    assert!(!a.reverse);
    assert!(a.toasts.is_empty());
}

#[test]
fn toast_size_reports_cached_box() {
    let mut t = Toast::basic(String::from("x"));
    t.set_width(120).set_height(40);
    let s = t.size();
    assert_eq!(s, Vec2I { x: 120, y: 40 });
}
