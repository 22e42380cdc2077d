use mpv_player::config::{HardwareDecodeMode, MpvPlayerOption, MAX_VOLUME};
use mpv_player::supervisor::{
    build_args, kill_result, pipe_path, spawn_plan, KillFailure, KillOutcome,
};
use mpv_player::text::{concat_text, push_decimal};

fn strings(items: &[&str]) -> Vec<String> {
    items.iter().map(|item| item.to_string()).collect()
}

fn decimal(n: u8) -> String {
    let mut out = String::new();
    push_decimal(&mut out, n);
    out
}

#[test]
fn default_arguments_without_media() {
    let option = MpvPlayerOption::with_pipe_id("abc".to_string());
    let args = build_args(&option, &None);
    assert_eq!(
        args,
        strings(&[
            "--stop-screensaver=no",
            "--panscan=1.0",
            "--loop-file=inf",
            "--volume=0",
            "--hwdec=auto",
            "--input-ipc-server=\\\\.\\pipe\\abc",
        ])
    );
}

#[test]
fn every_option_changed_and_a_medium() {
    let option = MpvPlayerOption::with_pipe_id("second".to_string())
        .with_stop_screen_saver(true)
        .with_pan_scan(false)
        .with_loop_file(false)
        .with_hardware_decode_mode(HardwareDecodeMode::Off)
        .with_volume(100)
        .expect("100 is a percentage");
    let media = Some("resources\\wallpaper_samples\\video.mp4".to_string());
    let args = build_args(&option, &media);
    assert_eq!(
        args,
        strings(&[
            "--stop-screensaver=yes",
            "--panscan=0.0",
            "--loop-file=no",
            "--volume=100",
            "--hwdec=no",
            "--input-ipc-server=\\\\.\\pipe\\second",
            "resources\\wallpaper_samples\\video.mp4",
        ])
    );
}

#[test]
fn the_medium_is_the_last_argument() {
    let option = MpvPlayerOption::with_pipe_id("x".to_string());
    let without = build_args(&option, &None);
    let with = build_args(&option, &Some("a.mkv".to_string()));
    assert_eq!(without.len(), 6);
    assert_eq!(with.len(), 7);
    assert_eq!(&with[..6], &without[..]);
    assert_eq!(with[6], "a.mkv");
}

#[test]
fn each_flag_occurs_once_for_every_volume() {
    let flags = [
        "--stop-screensaver=",
        "--panscan=",
        "--loop-file=",
        "--volume=",
        "--hwdec=",
        "--input-ipc-server=",
    ];
    for volume in 0..=MAX_VOLUME {
        for bits in 0..8u8 {
            let option = MpvPlayerOption::with_pipe_id("id".to_string())
                .with_stop_screen_saver(bits & 1 != 0)
                .with_pan_scan(bits & 2 != 0)
                .with_loop_file(bits & 4 != 0)
                .with_volume(volume)
                .expect("a percentage");
            let args = build_args(&option, &Some("clip.mp4".to_string()));
            for flag in flags {
                let count = args.iter().filter(|arg| arg.starts_with(flag)).count();
                assert_eq!(count, 1, "{flag} with volume {volume}");
            }
            let written = args[3].strip_prefix("--volume=").expect("the volume flag");
            assert_eq!(written.parse::<u8>(), Ok(volume));
            assert_eq!(written, volume.to_string());
            assert_eq!(args[0], if bits & 1 != 0 { "--stop-screensaver=yes" } else { "--stop-screensaver=no" });
            assert_eq!(args[1], if bits & 2 != 0 { "--panscan=1.0" } else { "--panscan=0.0" });
            assert_eq!(args[2], if bits & 4 != 0 { "--loop-file=inf" } else { "--loop-file=no" });
        }
    }
}

#[test]
fn a_medium_named_like_a_flag_reads_as_a_second_setting() {
    let option = MpvPlayerOption::with_pipe_id("id".to_string());
    let args = build_args(&option, &Some("--volume=7".to_string()));
    let count = args.iter().filter(|arg| arg.starts_with("--volume=")).count();
    assert_eq!(count, 2);
    assert_eq!(args[6], "--volume=7");
}

#[test]
fn default_options() {
    let option = MpvPlayerOption::new();
    assert!(!option.stop_screen_saver());
    assert_eq!(option.hardware_decode_mode(), HardwareDecodeMode::Auto);
    assert!(option.pan_scan());
    assert!(option.loop_file());
    assert_eq!(option.volume(), 0);
}

#[test]
fn default_options_for_a_given_pipe() {
    let option = MpvPlayerOption::with_pipe_id("given".to_string());
    assert_eq!(option.pipe_id(), "given");
    assert!(!option.stop_screen_saver());
    assert_eq!(option.hardware_decode_mode(), HardwareDecodeMode::Auto);
    assert!(option.pan_scan());
    assert!(option.loop_file());
    assert_eq!(option.volume(), 0);
}

#[test]
fn builders_change_one_option_each() {
    let option = MpvPlayerOption::with_pipe_id("given".to_string()).with_pan_scan(false);
    assert!(!option.pan_scan());
    assert!(option.loop_file());
    let option = option.with_loop_file(false);
    assert!(!option.pan_scan());
    assert!(!option.loop_file());
    assert!(!option.stop_screen_saver());
    let option = option.with_stop_screen_saver(true);
    assert!(option.stop_screen_saver());
    let option = option.with_hardware_decode_mode(HardwareDecodeMode::Off);
    assert_eq!(option.hardware_decode_mode(), HardwareDecodeMode::Off);
    assert_eq!(option.pipe_id(), "given");
    assert_eq!(option.volume(), 0);
}

#[test]
fn volume_is_a_percentage() {
    assert_eq!(MAX_VOLUME, 100);
    let at_most = MpvPlayerOption::with_pipe_id("v".to_string()).with_volume(100);
    assert_eq!(at_most.map(|option| option.volume()), Some(100));
    let middle = MpvPlayerOption::with_pipe_id("v".to_string()).with_volume(37);
    assert_eq!(middle.map(|option| option.volume()), Some(37));
    assert!(MpvPlayerOption::with_pipe_id("v".to_string()).with_volume(101).is_none());
    assert!(MpvPlayerOption::with_pipe_id("v".to_string()).with_volume(255).is_none());
}

#[test]
fn decimal_numerals() {
    assert_eq!(decimal(0), "0");
    assert_eq!(decimal(7), "7");
    assert_eq!(decimal(9), "9");
    assert_eq!(decimal(10), "10");
    assert_eq!(decimal(42), "42");
    assert_eq!(decimal(99), "99");
    assert_eq!(decimal(100), "100");
    assert_eq!(decimal(101), "101");
    assert_eq!(decimal(255), "255");
    for n in 0..=255u8 {
        assert_eq!(decimal(n), n.to_string());
    }
}

#[test]
fn decimal_is_appended() {
    let mut out = "n=".to_string();
    push_decimal(&mut out, 50);
    assert_eq!(out, "n=50");
}

#[test]
fn concatenation() {
    assert_eq!(concat_text("ab", "cd"), "abcd");
    assert_eq!(concat_text("", "cd"), "cd");
    assert_eq!(concat_text("ab", ""), "ab");
}

#[test]
fn pipe_path_of_an_identifier() {
    assert_eq!(pipe_path("1234"), r"\\.\pipe\1234");
    assert_eq!(pipe_path(""), r"\\.\pipe\");
}

#[test]
fn spawn_plan_names_the_renderer() {
    let option = MpvPlayerOption::with_pipe_id("abc".to_string());
    let plan = spawn_plan(&option, &Some("v.mp4".to_string()));
    assert_eq!(plan.program, "resources\\mpv\\mpv.exe");
    assert_eq!(plan.args, build_args(&option, &Some("v.mp4".to_string())));
    assert_eq!(plan.args.len(), 7);
}

#[test]
fn killing_an_exited_process_is_no_failure() {
    assert_eq!(kill_result(KillOutcome::Terminated), Ok(()));
    assert_eq!(kill_result(KillOutcome::AlreadyExited), Ok(()));
    assert_eq!(kill_result(KillOutcome::Refused), Err(KillFailure {}));
}
