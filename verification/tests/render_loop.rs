//! The render loop's state machine: when frames resolve geometry, how the
//! loop stops, and what the process exit code is.

use panel_demo::geometry::Size;
use panel_demo::runloop::RenderLoop;

#[test]
fn first_frame_resolves_and_repeat_does_not() {
    let mut rl = RenderLoop::new();
    rl.start();
    let vp = Size { width: 100, height: 40 };
    assert!(rl.begin_frame(vp), "the first frame must resolve");
    assert!(!rl.begin_frame(vp), "an unchanged viewport must not resolve again");
}

#[test]
fn resize_triggers_fresh_resolution() {
    let mut rl = RenderLoop::new();
    rl.start();
    let v1 = Size { width: 100, height: 40 };
    let v2 = Size { width: 120, height: 40 };
    assert!(rl.begin_frame(v1));
    assert!(!rl.begin_frame(v1));
    assert!(rl.begin_frame(v2), "a changed viewport must resolve");
    assert!(!rl.begin_frame(v2));
}

#[test]
fn distinct_sizes_resolve_twice_same_size_once() {
    let mut a = RenderLoop::new();
    a.start();
    let v1 = Size { width: 80, height: 24 };
    let v2 = Size { width: 80, height: 25 };
    let mut resolutions = 0;
    for vp in [v1, v2] {
        if a.begin_frame(vp) {
            resolutions += 1;
        }
    }
    assert_eq!(resolutions, 2);

    let mut b = RenderLoop::new();
    b.start();
    let mut resolutions = 0;
    for vp in [v1, v1] {
        if b.begin_frame(vp) {
            resolutions += 1;
        }
    }
    assert_eq!(resolutions, 1);
}

#[test]
fn exit_key_stops_loop_and_exits_zero() {
    let mut rl = RenderLoop::new();
    rl.start();
    assert!(rl.is_running());
    rl.begin_frame(Size { width: 100, height: 40 });
    rl.on_input(Some('q'));
    assert!(!rl.is_running(), "the exit key must leave Running");
    rl.finish();
    assert_eq!(rl.exit_code(), 0, "a user quit exits zero");
}

#[test]
fn other_keys_and_timeouts_keep_running() {
    let mut rl = RenderLoop::new();
    rl.start();
    rl.begin_frame(Size { width: 100, height: 40 });
    rl.on_input(Some('x'));
    assert!(rl.is_running());
    rl.on_input(None);
    assert!(rl.is_running());
}

#[test]
fn resolution_failure_stops_loop_and_exits_nonzero() {
    let mut rl = RenderLoop::new();
    rl.start();
    assert!(rl.begin_frame(Size { width: 10, height: 10 }));
    rl.resolution_failed();
    assert!(!rl.is_running(), "a failed resolution is fatal");
    rl.finish();
    assert_ne!(rl.exit_code(), 0, "a fatal error exits non-zero");
}

#[test]
fn surface_failure_stops_loop_and_exits_nonzero() {
    let mut rl = RenderLoop::new();
    rl.start();
    rl.surface_failed();
    assert!(!rl.is_running());
    rl.finish();
    assert_ne!(rl.exit_code(), 0);
}
