use breakdown::classify::classify;
use breakdown::classify::frame_is_suspect;
use breakdown::report::breakdown_report;
use breakdown::text::decimal_i32;
use breakdown::text::join_frames;

fn frames(names: &[&str]) -> Vec<String> {
    names.iter().map(|s| s.to_string()).collect()
}

#[test]
fn scenario_segfault_nouveau_frame() {
    let fs = frames(&["main", "nouveau_pushbuf_kick", "libgl_draw"]);
    let r = breakdown_report(11, &fs);
    assert!(r.matched);
    let w = r.config_write.expect("a match must decide a configuration write");
    assert_eq!(w.key, "allow-always-software-render");
    assert_eq!(w.value, "Y");
    assert_eq!(r.notice, "Always use software rendering will be set.");
    assert!(r.log_line.contains("Got signal 11 and exit."));
    assert_eq!(
        r.log_line,
        "Got signal 11 and exit. stack:\nmain\nnouveau_pushbuf_kick\nlibgl_draw"
    );
    let a = r.alert.expect("a match must decide an alert");
    assert_eq!(a.title, "RustDesk");
    assert_eq!(a.kind, "critical");
    assert_eq!(a.summary, "Crashed");
    assert_eq!(
        a.body,
        "Got signal 11 and exit.Always use software rendering will be set."
    );
    assert_eq!(a.buttons, vec!["Ok".to_string()]);
}

#[test]
fn scenario_segfault_vendor_frame_case_insensitive() {
    let fs = frames(&["main", "NVIDIA_driver_entry"]);
    let r = breakdown_report(11, &fs);
    assert!(r.matched);
    let w = r.config_write.expect("a match must decide a configuration write");
    assert_eq!(w.key, "allow-always-software-render");
    assert_eq!(w.value, "Y");
    assert_eq!(r.notice, "Always use software rendering will be set.");
    assert!(r.log_line.contains("Got signal 11 and exit."));
    assert!(r.alert.is_some());
}

#[test]
fn scenario_abort_unrelated_frames() {
    let fs = frames(&["main", "std_panic_handler"]);
    let r = breakdown_report(6, &fs);
    assert!(!r.matched);
    assert!(r.config_write.is_none());
    assert_eq!(r.notice, "");
    assert_eq!(r.log_line, "Got signal 6 and exit. stack:\nmain\nstd_panic_handler");
    assert!(r.alert.is_none());
}

#[test]
fn scenario_empty_capture() {
    let fs: Vec<String> = Vec::new();
    let r = breakdown_report(11, &fs);
    assert!(!r.matched);
    assert!(r.config_write.is_none());
    assert_eq!(r.notice, "");
    assert_eq!(r.log_line, "Got signal 11 and exit. stack:\n");
    assert!(r.alert.is_none());
}

#[test]
fn notice_nonempty_iff_matched() {
    let hit = breakdown_report(11, &frames(&["gdk_window_end_draw_frame"]));
    assert!(hit.matched && !hit.notice.is_empty());
    let miss = breakdown_report(11, &frames(&["gtk_main"]));
    assert!(!miss.matched && miss.notice.is_empty());
}

#[test]
fn log_line_always_written() {
    let joined = "a\nb";
    let r = breakdown_report(7, &frames(&["a", "b"]));
    assert!(r.log_line.contains("7"));
    assert!(r.log_line.contains(joined));
}

#[test]
fn classify_each_pattern() {
    assert!(classify(&frames(&["x", "nouveau_pushbuf_kick"])));
    assert!(classify(&frames(&["x", "gdk_window_end_draw_frame"])));
    assert!(classify(&frames(&["x", "nvidia"])));
    assert!(classify(&frames(&["x", "nVidia_glue"])));
}

#[test]
fn classify_substring_inside_longer_name() {
    assert!(frame_is_suspect("app::gfx::nouveau_pushbuf_kick_impl"));
    assert!(frame_is_suspect("libGLX_nvidia_entry"));
    assert!(frame_is_suspect("draw_via_gdk_window_end_draw_frame_v2"));
}

#[test]
fn classify_rejects_near_misses() {
    assert!(!classify(&frames(&["nouveau_pushbuf"])));
    assert!(!classify(&frames(&["nvidi"])));
    // only the vendor pattern is case-insensitive
    assert!(!classify(&frames(&["NOUVEAU_PUSHBUF_KICK"])));
    assert!(!classify(&frames(&["GDK_WINDOW_END_DRAW_FRAME"])));
    assert!(!classify(&frames(&[])));
}

#[test]
fn decimal_rendering() {
    assert_eq!(decimal_i32(0), "0");
    assert_eq!(decimal_i32(11), "11");
    assert_eq!(decimal_i32(6), "6");
    assert_eq!(decimal_i32(-3), "-3");
    assert_eq!(decimal_i32(i32::MAX), "2147483647");
    assert_eq!(decimal_i32(i32::MIN), "-2147483648");
}

#[test]
fn join_frames_in_order() {
    assert_eq!(join_frames(&frames(&[])), "");
    assert_eq!(join_frames(&frames(&["one"])), "one");
    assert_eq!(join_frames(&frames(&["one", "two", "three"])), "one\ntwo\nthree");
}

#[test]
fn negative_signal_log_line() {
    let r = breakdown_report(-3, &frames(&["main"]));
    assert_eq!(r.log_line, "Got signal -3 and exit. stack:\nmain");
}

#[test]
fn diagnostics_reports_whatever_was_captured() {
    let (frames, r) = breakdown::capture::breakdown_diagnostics(11);
    assert!(r.log_line.starts_with("Got signal 11 and exit. stack:\n"));
    assert!(r.log_line.ends_with(&frames.join("\n")));
    assert_eq!(r.matched, r.config_write.is_some());
    assert_eq!(r.matched, r.alert.is_some());
    assert_eq!(r.matched, !r.notice.is_empty());
}
