//! Lifecycle and timing behavior of the toast engine.

#![allow(dead_code)]

use egui_notify::{FrameInput, RectI, ToastMeasure, ToastState, Toasts, Vec2I};

fn screen() -> RectI {
    RectI { min: Vec2I { x: 0, y: 0 }, max: Vec2I { x: 800, y: 600 } }
}

fn quiet_input(dt_ms: u64) -> FrameInput {
    FrameInput { screen: screen(), dt_ms, hover: None, press: None, released: false }
}

fn zero_measure(pos_y: i64) -> ToastMeasure {
    ToastMeasure {
        caption_width: 0,
        caption_height: 0,
        icon_width: 0,
        icon_height: 0,
        cross_width: 0,
        cross_height: 0,
        pos_y,
    }
}

fn run_frame(toasts: &mut Toasts, dt_ms: u64) -> bool {
    let input = quiet_input(dt_ms);
    let mut pass = toasts.begin_frame(&input);
    while pass.index < pass.count {
        toasts.drain_channel(&mut pass);
        let m = zero_measure(pass.cursor.y);
        toasts.frame_toast(&mut pass, &m);
    }
    toasts.end_frame(pass)
}

fn rank(s: &ToastState) -> u32 {
    if s.appearing() {
        0
    } else if s.idling() {
        1
    } else if s.disappearing() {
        2
    } else {
        3
    }
}

#[test]
fn appearing_reaches_idle_after_quarter_second() {
    // At the default speed of four progress units per second, a quarter
    // second of frame updates completes the entrance animation.
    let mut toasts = Toasts::new();
    toasts.basic(String::from("hello"));
    assert!(toasts.toasts[0].state.appearing());
    assert_eq!(toasts.toasts[0].value, 0);
    for _ in 0..4 {
        run_frame(&mut toasts, 50);
    }
    assert!(toasts.toasts[0].state.appearing());
    assert_eq!(toasts.toasts[0].value, 800);
    run_frame(&mut toasts, 50);
    assert_eq!(toasts.toasts[0].value, 1000);
    assert!(toasts.toasts[0].state.idling());
}

#[test]
fn value_stays_in_range_every_frame() {
    let mut toasts = Toasts::new();
    toasts.basic(String::from("a")).set_duration(Some(200));
    for frame in 0..200 {
        run_frame(&mut toasts, 7);
        for t in toasts.toasts.iter() {
            assert!(t.value <= 1000, "frame {frame}: value {} out of range", t.value);
        }
    }
    // The toast expired, disappeared and was removed along the way.
    assert!(toasts.toasts.is_empty());
}

#[test]
fn states_only_advance() {
    let mut toasts = Toasts::new();
    toasts.basic(String::from("a")).set_duration(Some(100));
    let mut last = rank(&toasts.toasts[0].state);
    loop {
        run_frame(&mut toasts, 16);
        if toasts.toasts.is_empty() {
            break;
        }
        let now = rank(&toasts.toasts[0].state);
        assert!(now >= last, "state went backward: {last} -> {now}");
        last = now;
    }
}

#[test]
fn expired_idle_toast_disappears_next_frame() {
    // An idle toast with no remaining duration transitions to
    // `Disappearing` on the very next frame update.
    let mut toasts = Toasts::new();
    toasts.basic(String::from("x"));
    toasts.toasts[0].state = ToastState::Idle;
    toasts.toasts[0].value = 1000;
    toasts.toasts[0].options.duration = Some((3000, 0));
    run_frame(&mut toasts, 16);
    assert!(toasts.toasts[0].state.disappearing());
}

#[test]
fn timer_counts_down_only_while_idle_and_unhovered() {
    let mut toasts = Toasts::new();
    toasts.basic(String::from("x")).set_duration(Some(1000));
    // Appearing: the countdown holds still.
    run_frame(&mut toasts, 100);
    assert_eq!(toasts.toasts[0].options.duration, Some((1000, 1000)));
    // Idle and unhovered: it runs.
    toasts.toasts[0].state = ToastState::Idle;
    toasts.toasts[0].value = 1000;
    run_frame(&mut toasts, 100);
    assert_eq!(toasts.toasts[0].options.duration, Some((1000, 900)));
    // Hovered: it holds still again.
    toasts.toasts[0].toast_hovered = true;
    run_frame(&mut toasts, 100);
    assert_eq!(toasts.toasts[0].options.duration, Some((1000, 900)));
}

#[test]
fn countdown_stops_at_zero() {
    let mut toasts = Toasts::new();
    toasts.basic(String::from("x")).set_duration(Some(50));
    toasts.toasts[0].state = ToastState::Idle;
    toasts.toasts[0].value = 1000;
    run_frame(&mut toasts, 400);
    assert_eq!(toasts.toasts[0].options.duration, Some((50, 0)));
}

#[test]
fn dismiss_all_lets_each_toast_fade_from_its_own_progress() {
    // One appearing toast at progress 0.4 and one idle toast both start
    // disappearing; each counts down from its own value and is removed
    // the frame after it reaches zero.
    let mut toasts = Toasts::new();
    toasts.basic(String::from("a"));
    toasts.basic(String::from("b"));
    toasts.toasts[0].value = 400;
    toasts.toasts[1].state = ToastState::Idle;
    toasts.toasts[1].value = 1000;
    toasts.dismiss_all_toasts();
    assert!(toasts.toasts[0].state.disappearing());
    assert!(toasts.toasts[1].state.disappearing());
    assert_eq!(toasts.toasts[0].value, 400);
    assert_eq!(toasts.toasts[1].value, 1000);

    // dt = 50 ms at speed 4.0/s takes 200 off each frame.
    run_frame(&mut toasts, 50);
    assert_eq!(toasts.toasts[0].value, 200);
    assert_eq!(toasts.toasts[1].value, 800);
    run_frame(&mut toasts, 50);
    assert_eq!(toasts.toasts[0].value, 0);
    assert!(toasts.toasts[0].state.disappeared());
    assert_eq!(toasts.toasts[1].value, 600);

    // The disappeared toast is removed at the start of the next frame.
    run_frame(&mut toasts, 50);
    assert_eq!(toasts.toasts.len(), 1);
    assert_eq!(toasts.toasts[0].value, 400);

    run_frame(&mut toasts, 50);
    run_frame(&mut toasts, 50);
    assert!(toasts.toasts[0].state.disappeared());
    run_frame(&mut toasts, 50);
    assert!(toasts.toasts.is_empty());
}

#[test]
fn dismiss_is_idempotent_and_never_revives() {
    let mut toasts = Toasts::new();
    toasts.basic(String::from("a"));
    toasts.toasts[0].dismiss();
    assert!(toasts.toasts[0].state.disappearing());
    toasts.toasts[0].dismiss();
    assert!(toasts.toasts[0].state.disappearing());
    toasts.toasts[0].state = ToastState::Disappeared;
    toasts.toasts[0].dismiss();
    assert!(toasts.toasts[0].state.disappeared());
}

#[test]
fn dismiss_oldest_and_latest_pick_the_ends() {
    let mut toasts = Toasts::new();
    toasts.basic(String::from("first"));
    toasts.basic(String::from("second"));
    toasts.basic(String::from("third"));
    toasts.dismiss_oldest_toast();
    assert!(toasts.toasts[0].state.disappearing());
    assert!(toasts.toasts[1].state.appearing());
    toasts.dismiss_latest_toast();
    assert!(toasts.toasts[2].state.disappearing());
    assert!(toasts.toasts[1].state.appearing());
}

#[test]
fn creation_ids_are_assigned_in_order() {
    let mut toasts = Toasts::new();
    toasts.basic(String::from("a"));
    toasts.basic(String::from("b"));
    toasts.basic(String::from("c"));
    assert_eq!(toasts.toasts[0].id, 0);
    assert_eq!(toasts.toasts[1].id, 1);
    assert_eq!(toasts.toasts[2].id, 2);
}

#[test]
fn reverse_inserts_at_the_front() {
    let mut toasts = Toasts::new().reverse(true);
    toasts.basic(String::from("a"));
    toasts.basic(String::from("b"));
    assert_eq!(toasts.toasts[0].caption, "b");
    assert_eq!(toasts.toasts[1].caption, "a");
    assert_eq!(toasts.toasts[0].id, 1);
    assert_eq!(toasts.toasts[1].id, 0);
}
