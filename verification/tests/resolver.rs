use mpv_player::resolver::{
    find_window_handle, ResolveStep, WindowHandle, WindowHandleResolver, WindowInfo,
    DEFAULT_RESOLVE_TIMEOUT_MS, POLL_INTERVAL_MS,
};

fn window(handle: isize, process_id: u32, visible: bool) -> WindowInfo {
    WindowInfo { handle, process_id, visible }
}

#[test]
fn no_window_listed() {
    assert_eq!(find_window_handle(&vec![], 7), None);
}

#[test]
fn the_first_shown_window_of_the_process_is_found() {
    let windows = vec![
        window(10, 3, true),
        window(11, 7, false),
        window(0, 7, true),
        window(12, 7, true),
        window(13, 7, true),
    ];
    assert_eq!(find_window_handle(&windows, 7), Some(WindowHandle { raw: 12 }));
    assert_eq!(find_window_handle(&windows, 3), Some(WindowHandle { raw: 10 }));
    assert_eq!(find_window_handle(&windows, 4), None);
}

#[test]
fn hidden_and_null_windows_do_not_count() {
    let windows = vec![window(11, 7, false), window(0, 7, true)];
    assert_eq!(find_window_handle(&windows, 7), None);
}

#[test]
fn negative_handles_are_handles() {
    let windows = vec![window(-5, 7, true)];
    assert_eq!(find_window_handle(&windows, 7), Some(WindowHandle { raw: -5 }));
}

#[test]
fn constants() {
    assert_eq!(DEFAULT_RESOLVE_TIMEOUT_MS, 5000);
    assert_eq!(POLL_INTERVAL_MS, 1);
}

#[test]
fn the_deadline_is_start_plus_timeout() {
    let resolver = WindowHandleResolver::new(7, 1000, DEFAULT_RESOLVE_TIMEOUT_MS);
    assert_eq!(resolver.process_id(), 7);
    assert_eq!(resolver.deadline_ms(), 6000);
}

#[test]
fn the_deadline_stays_within_the_clock() {
    let resolver = WindowHandleResolver::new(7, u64::MAX - 10, 11);
    assert_eq!(resolver.deadline_ms(), u64::MAX);
    let resolver = WindowHandleResolver::new(7, u64::MAX - 10, 10);
    assert_eq!(resolver.deadline_ms(), u64::MAX);
    let resolver = WindowHandleResolver::new(7, u64::MAX - 10, 9);
    assert_eq!(resolver.deadline_ms(), u64::MAX - 1);
}

#[test]
fn polls_sleep_until_the_deadline_and_then_time_out() {
    let resolver = WindowHandleResolver::new(7, 100, 50);
    let none = vec![window(1, 8, true)];
    assert_eq!(resolver.step(100, &none), ResolveStep::Sleep(1));
    assert_eq!(resolver.step(149, &none), ResolveStep::Sleep(1));
    assert_eq!(resolver.step(150, &none), ResolveStep::TimedOut);
    assert_eq!(resolver.step(151, &none), ResolveStep::TimedOut);
    assert_eq!(resolver.step(u64::MAX, &none), ResolveStep::TimedOut);
}

#[test]
fn a_window_is_reported_whenever_it_is_seen() {
    let resolver = WindowHandleResolver::new(7, 100, 50);
    let windows = vec![window(1, 8, true), window(2, 7, true)];
    let found = ResolveStep::Found(WindowHandle { raw: 2 });
    assert_eq!(resolver.step(100, &windows), found);
    assert_eq!(resolver.step(150, &windows), found);
    assert_eq!(resolver.step(9999, &windows), found);
}

#[test]
fn a_timeout_of_nothing_times_out_at_once() {
    let resolver = WindowHandleResolver::new(7, 100, 0);
    assert_eq!(resolver.step(100, &vec![]), ResolveStep::TimedOut);
}

#[test]
fn a_run_without_window_ends_within_the_timeout() {
    let timeout = 5000;
    let resolver = WindowHandleResolver::new(7, 20, timeout);
    let mut now = 20;
    let mut sleeps = 0u64;
    loop {
        match resolver.step(now, &vec![]) {
            ResolveStep::Sleep(ms) => {
                assert!(ms >= 1);
                assert!(now + ms <= resolver.deadline_ms());
                now += ms;
                sleeps += 1;
            }
            ResolveStep::TimedOut => break,
            ResolveStep::Found(_) => panic!("no window was listed"),
        }
    }
    assert_eq!(now, 20 + timeout);
    assert_eq!(sleeps, timeout / POLL_INTERVAL_MS);
}

#[test]
fn a_run_with_late_polls_ends_too() {
    let resolver = WindowHandleResolver::new(7, 0, 100);
    let mut now = 0;
    let mut polls = 0;
    loop {
        polls += 1;
        match resolver.step(now, &vec![]) {
            ResolveStep::Sleep(ms) => now += ms + 6,
            ResolveStep::TimedOut => break,
            ResolveStep::Found(_) => panic!("no window was listed"),
        }
    }
    assert!(now >= 100);
    assert_eq!(polls, 16);
}
