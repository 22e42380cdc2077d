//! The renderer's command line.
//!
//! The renderer is an external program. All that is decided here is what it
//! is started with: the program's path and its argument list, which carries
//! one flag per option, the path of the control pipe, and last the medium to
//! play, if there is one.

use vstd::prelude::*;
use crate::config::{HardwareDecodeMode, MpvPlayerOption, PlayerConfig};
use crate::text::{concat_text, decimal_text, decimal_value, lemma_decimal_round_trip, push_decimal};

verus! {

/// The path of the control pipe that belongs to `pipe_id`.
pub open spec fn pipe_path_text(pipe_id: Seq<char>) -> Seq<char> {
    "\\\\.\\pipe\\"@ + pipe_id
}

/// The argument that tells the renderer whether to keep the screen saver
/// from starting: `yes` or `no`.
pub open spec fn stop_screensaver_arg(on: bool) -> Seq<char> {
    "--stop-screensaver="@ + if on {
        "yes"@
    } else {
        "no"@
    }
}

/// The argument that tells the renderer whether to crop the picture so that
/// it fills the window: `1.0` or `0.0`.
pub open spec fn panscan_arg(on: bool) -> Seq<char> {
    "--panscan="@ + if on {
        "1.0"@
    } else {
        "0.0"@
    }
}

/// The argument that tells the renderer whether to play the medium again
/// when it ends: `inf` or `no`.
pub open spec fn loop_file_arg(on: bool) -> Seq<char> {
    "--loop-file="@ + if on {
        "inf"@
    } else {
        "no"@
    }
}

/// The argument that sets the volume: its decimal numeral.
pub open spec fn volume_arg(volume: nat) -> Seq<char> {
    "--volume="@ + decimal_text(volume)
}

/// The argument that sets how video is decoded: `auto` or `no`.
pub open spec fn hwdec_arg(mode: HardwareDecodeMode) -> Seq<char> {
    "--hwdec="@ + match mode {
        HardwareDecodeMode::Auto => "auto"@,
        HardwareDecodeMode::Off => "no"@,
    }
}

/// The argument that names the control pipe the renderer is to create.
pub open spec fn ipc_server_arg(pipe_id: Seq<char>) -> Seq<char> {
    "--input-ipc-server="@ + pipe_path_text(pipe_id)
}

/// The six option arguments, in the order the renderer is given them.
pub open spec fn option_args(config: PlayerConfig) -> Seq<Seq<char>> {
    seq![
        stop_screensaver_arg(config.stop_screen_saver),
        panscan_arg(config.pan_scan),
        loop_file_arg(config.loop_file),
        volume_arg(config.volume),
        hwdec_arg(config.hardware_decode_mode),
        ipc_server_arg(config.pipe_id),
    ]
}

/// The whole argument list: the option arguments, then the medium if any.
pub open spec fn renderer_args(config: PlayerConfig, media_path: Option<Seq<char>>) -> Seq<
    Seq<char>,
> {
    match media_path {
        Some(path) => option_args(config).push(path),
        None => option_args(config),
    }
}

/// The path of the control pipe that belongs to `pipe_id`.
pub fn pipe_path(pipe_id: &str) -> (path: String)
    ensures
        path@ == pipe_path_text(pipe_id@),
{
    concat_text("\\\\.\\pipe\\", pipe_id)
}

/// Where the renderer's program lies, relative to the directory the player
/// runs in.
pub open spec fn renderer_program_text() -> Seq<char> {
    "resources\\mpv\\mpv.exe"@
}

/// What to start: a program and its arguments.
#[derive(Debug)]
pub struct SpawnPlan {
    pub program: String,
    pub args: Vec<String>,
}

/// How an attempt to end the renderer's process ended.
#[derive(Clone, Copy, Debug, PartialEq, Eq, Structural)]
pub enum KillOutcome {
    /// The process was terminated and its exit awaited.
    Terminated,
    /// The process had exited before.
    AlreadyExited,
    /// The operating system refused.
    Refused,
}

/// The renderer's process could not be ended.
#[derive(Clone, Copy, Debug, PartialEq, Eq, Structural)]
pub struct KillFailure {}

/// Whether ending the process succeeded. To end a process that has already
/// exited is no failure.
pub fn kill_result(outcome: KillOutcome) -> (result: Result<(), KillFailure>)
    ensures
        result is Err <==> outcome is Refused,
{
    match outcome {
        KillOutcome::Terminated => Ok(()),
        KillOutcome::AlreadyExited => Ok(()),
        KillOutcome::Refused => Err(KillFailure {  }),
    }
}

/// What to start for a launch with `option`, playing `media_path` if there
/// is one.
pub fn spawn_plan(option: &MpvPlayerOption, media_path: &Option<String>) -> (plan: SpawnPlan)
    ensures
        plan.program@ == renderer_program_text(),
        plan.args.deep_view() == renderer_args(option@, media_path.deep_view()),
{
    SpawnPlan {
        program: "resources\\mpv\\mpv.exe".to_owned(),
        args: build_args(option, media_path),
    }
}

/// Builds the argument list the renderer is started with.
pub fn build_args(option: &MpvPlayerOption, media_path: &Option<String>) -> (args: Vec<String>)
    ensures
        args.deep_view() == renderer_args(option@, media_path.deep_view()),
{
    let mut args: Vec<String> = Vec::new();
    args.push(
        concat_text(
            "--stop-screensaver=",
            if option.stop_screen_saver() {
                "yes"
            } else {
                "no"
            },
        ),
    );
    args.push(
        concat_text(
            "--panscan=",
            if option.pan_scan() {
                "1.0"
            } else {
                "0.0"
            },
        ),
    );
    args.push(
        concat_text(
            "--loop-file=",
            if option.loop_file() {
                "inf"
            } else {
                "no"
            },
        ),
    );
    let mut volume = "--volume=".to_owned();
    push_decimal(&mut volume, option.volume());
    args.push(volume);
    args.push(
        concat_text(
            "--hwdec=",
            match option.hardware_decode_mode() {
                HardwareDecodeMode::Auto => "auto",
                HardwareDecodeMode::Off => "no",
            },
        ),
    );
    let path = pipe_path(option.pipe_id());
    args.push(concat_text("--input-ipc-server=", path.as_str()));
    assert(args.deep_view() =~= option_args(option@));
    match media_path {
        Some(path) => {
            args.push(path.clone());
            assert(args.deep_view() =~= option_args(option@).push(path@));
        },
        None => {},
    }
    args
}

/// The names of the six option flags, each up to and including its `=`.
pub open spec fn flag_names() -> Seq<Seq<char>> {
    seq![
        "--stop-screensaver="@,
        "--panscan="@,
        "--loop-file="@,
        "--volume="@,
        "--hwdec="@,
        "--input-ipc-server="@,
    ]
}

/// Whether `arg` sets the flag `flag`, that is, begins with its name.
pub open spec fn carries_flag(arg: Seq<char>, flag: Seq<char>) -> bool {
    flag.is_prefix_of(arg)
}

/// Whether exactly one entry of `args` sets `flag`.
pub open spec fn occurs_once(args: Seq<Seq<char>>, flag: Seq<char>) -> bool {
    exists|i: int|
        {
            &&& 0 <= i < args.len()
            &&& #[trigger] carries_flag(args[i], flag)
            &&& forall|j: int|
                0 <= j < args.len() && #[trigger] carries_flag(args[j], flag) ==> j == i
        }
}

/// Whether `path`, standing alone as an argument, would read as one of the
/// option flags.
pub open spec fn reads_as_flag(path: Seq<char>) -> bool {
    exists|k: int| 0 <= k < flag_names().len() && carries_flag(path, #[trigger] flag_names()[k])
}

proof fn lemma_prefix_mismatch(flag: Seq<char>, arg: Seq<char>, at: int)
    requires
        0 <= at < flag.len(),
        at < arg.len() ==> arg[at] != flag[at],
    ensures
        !carries_flag(arg, flag),
{
    if flag.is_prefix_of(arg) {
        assert(arg.subrange(0, flag.len() as int)[at] == arg[at]);
    }
}

proof fn lemma_own_flag(flag: Seq<char>, value: Seq<char>)
    ensures
        carries_flag(flag + value, flag),
{
    assert((flag + value).subrange(0, flag.len() as int) =~= flag);
}

/// Every valid configuration yields an argument list in which each of the six
/// flags is set exactly once, the boolean options are written with their
/// fixed words, and the volume is written as the decimal numeral of a number
/// from 0 to 100. A medium whose path itself begins with a flag's name is left
/// aside: such a path would read as a second setting of that flag.
pub proof fn lemma_each_flag_once(config: PlayerConfig, media_path: Option<Seq<char>>)
    requires
        config.valid(),
        media_path matches Some(path) ==> !reads_as_flag(path),
    ensures
        forall|k: int|
            0 <= k < flag_names().len() ==> occurs_once(
                renderer_args(config, media_path),
                #[trigger] flag_names()[k],
            ),
        renderer_args(config, media_path)[0] == "--stop-screensaver="@ + (if config.stop_screen_saver {
            "yes"@
        } else {
            "no"@
        }),
        renderer_args(config, media_path)[1] == "--panscan="@ + (if config.pan_scan {
            "1.0"@
        } else {
            "0.0"@
        }),
        renderer_args(config, media_path)[2] == "--loop-file="@ + (if config.loop_file {
            "inf"@
        } else {
            "no"@
        }),
        renderer_args(config, media_path)[3] == "--volume="@ + decimal_text(config.volume),
        decimal_value(decimal_text(config.volume)) == Some(config.volume),
        config.volume <= 100,
{
    reveal_strlit("--stop-screensaver=");
    reveal_strlit("--panscan=");
    reveal_strlit("--loop-file=");
    reveal_strlit("--volume=");
    reveal_strlit("--hwdec=");
    reveal_strlit("--input-ipc-server=");
    lemma_decimal_round_trip(config.volume);
    let args = renderer_args(config, media_path);
    let names = flag_names();
    let values = seq![
        if config.stop_screen_saver {
            "yes"@
        } else {
            "no"@
        },
        if config.pan_scan {
            "1.0"@
        } else {
            "0.0"@
        },
        if config.loop_file {
            "inf"@
        } else {
            "no"@
        },
        decimal_text(config.volume),
        match config.hardware_decode_mode {
            HardwareDecodeMode::Auto => "auto"@,
            HardwareDecodeMode::Off => "no"@,
        },
        pipe_path_text(config.pipe_id),
    ];
    assert forall|j: int| 0 <= j < 6 implies #[trigger] args[j] == names[j] + values[j] by {}
    assert forall|k: int| 0 <= k < names.len() implies occurs_once(args, #[trigger] names[k]) by {
        lemma_own_flag(names[k], values[k]);
        assert(carries_flag(args[k], names[k]));
        assert forall|j: int|
            0 <= j < args.len() && #[trigger] carries_flag(args[j], names[k]) implies j == k by {
            if j < 6 {
                if j != k {
                    assert(args[j] == names[j] + values[j]);
                    assert(args[j][2] == names[j][2]);
                    lemma_prefix_mismatch(names[k], args[j], 2);
                }
            } else {
                assert(args[j] == media_path->0);
                assert(carries_flag(media_path->0, flag_names()[k]));
            }
        }
    }
}

} // verus!
