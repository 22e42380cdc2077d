//! The configuration a renderer is launched with.

use vstd::prelude::*;
use crate::pipe_id::{fresh_pipe_id, is_random_uuid_text};

verus! {

/// How the renderer is asked to decode video.
#[derive(Clone, Copy, Debug, PartialEq, Eq, Structural)]
pub enum HardwareDecodeMode {
    /// Let the renderer pick a hardware decoder where one is available.
    Auto,
    /// Decode in software.
    Off,
}

/// The largest volume the renderer is ever asked for.
pub const MAX_VOLUME: u8 = 100;

/// What a configuration says, as plain mathematical values.
pub struct PlayerConfig {
    pub pipe_id: Seq<char>,
    pub stop_screen_saver: bool,
    pub hardware_decode_mode: HardwareDecodeMode,
    pub pan_scan: bool,
    pub loop_file: bool,
    pub volume: nat,
}

impl PlayerConfig {
    /// A configuration is valid when its volume is a percentage.
    pub open spec fn valid(self) -> bool {
        self.volume <= MAX_VOLUME
    }

    /// The configuration every launch starts from, for a given pipe identifier.
    pub open spec fn initial(pipe_id: Seq<char>) -> PlayerConfig {
        PlayerConfig {
            pipe_id,
            stop_screen_saver: false,
            hardware_decode_mode: HardwareDecodeMode::Auto,
            pan_scan: true,
            loop_file: true,
            volume: 0,
        }
    }
}

/// The options of one launch. A value is built once and never changed: the
/// `with_` methods return a new value. Its volume is always at most
/// [`MAX_VOLUME`].
#[derive(Debug)]
pub struct MpvPlayerOption {
    pipe_id: String,
    stop_screen_saver: bool,
    hardware_decode_mode: HardwareDecodeMode,
    pan_scan: bool,
    loop_file: bool,
    volume: u8,
}

impl View for MpvPlayerOption {
    type V = PlayerConfig;

    closed spec fn view(&self) -> PlayerConfig {
        PlayerConfig {
            pipe_id: self.pipe_id@,
            stop_screen_saver: self.stop_screen_saver,
            hardware_decode_mode: self.hardware_decode_mode,
            pan_scan: self.pan_scan,
            loop_file: self.loop_file,
            volume: self.volume as nat,
        }
    }
}

impl MpvPlayerOption {
    #[verifier::type_invariant]
    closed spec fn volume_is_percentage(self) -> bool {
        self.volume <= MAX_VOLUME
    }

    /// The initial options with a freshly drawn pipe identifier.
    pub fn new() -> (option: Self)
        ensures
            option@ == PlayerConfig::initial(option@.pipe_id),
            is_random_uuid_text(option@.pipe_id),
            option@.valid(),
    {
        Self::with_pipe_id(fresh_pipe_id())
    }

    /// The initial options for a pipe identifier the caller supplies.
    pub fn with_pipe_id(pipe_id: String) -> (option: Self)
        ensures
            option@ == PlayerConfig::initial(pipe_id@),
            option@.valid(),
    {
        MpvPlayerOption {
            pipe_id,
            stop_screen_saver: false,
            hardware_decode_mode: HardwareDecodeMode::Auto,
            pan_scan: true,
            loop_file: true,
            volume: 0,
        }
    }

    /// The same options, but for whether the renderer keeps the screen saver
    /// from starting.
    pub fn with_stop_screen_saver(self, on: bool) -> (option: Self)
        ensures
            option@ == (PlayerConfig { stop_screen_saver: on, ..self@ }),
    {
        proof {
            use_type_invariant(&self);
        }
        MpvPlayerOption { stop_screen_saver: on, ..self }
    }

    /// The same options, but for how the renderer decodes video.
    pub fn with_hardware_decode_mode(self, mode: HardwareDecodeMode) -> (option: Self)
        ensures
            option@ == (PlayerConfig { hardware_decode_mode: mode, ..self@ }),
    {
        proof {
            use_type_invariant(&self);
        }
        MpvPlayerOption { hardware_decode_mode: mode, ..self }
    }

    /// The same options, but for whether the picture is cropped to fill the
    /// window.
    pub fn with_pan_scan(self, on: bool) -> (option: Self)
        ensures
            option@ == (PlayerConfig { pan_scan: on, ..self@ }),
    {
        proof {
            use_type_invariant(&self);
        }
        MpvPlayerOption { pan_scan: on, ..self }
    }

    /// The same options, but for whether the medium is played again when it
    /// ends.
    pub fn with_loop_file(self, on: bool) -> (option: Self)
        ensures
            option@ == (PlayerConfig { loop_file: on, ..self@ }),
    {
        proof {
            use_type_invariant(&self);
        }
        MpvPlayerOption { loop_file: on, ..self }
    }

    /// The same options with the volume `volume`, or `None` if `volume` is
    /// more than [`MAX_VOLUME`].
    pub fn with_volume(self, volume: u8) -> (option: Option<Self>)
        ensures
            volume <= MAX_VOLUME ==> option is Some && option->0@ == (PlayerConfig {
                volume: volume as nat,
                ..self@
            }),
            volume > MAX_VOLUME ==> option is None,
    {
        if volume > MAX_VOLUME {
            None
        } else {
            Some(MpvPlayerOption { volume, ..self })
        }
    }

    /// The identifier the control pipe's path is derived from.
    pub fn pipe_id(&self) -> (id: &str)
        ensures
            id@ == self@.pipe_id,
    {
        self.pipe_id.as_str()
    }

    /// Whether the renderer keeps the screen saver from starting.
    pub fn stop_screen_saver(&self) -> (on: bool)
        ensures
            on == self@.stop_screen_saver,
    {
        self.stop_screen_saver
    }

    /// How the renderer decodes video.
    pub fn hardware_decode_mode(&self) -> (mode: HardwareDecodeMode)
        ensures
            mode == self@.hardware_decode_mode,
    {
        self.hardware_decode_mode
    }

    /// Whether the picture is cropped to fill the window.
    pub fn pan_scan(&self) -> (on: bool)
        ensures
            on == self@.pan_scan,
    {
        self.pan_scan
    }

    /// Whether the medium is played again when it ends.
    pub fn loop_file(&self) -> (on: bool)
        ensures
            on == self@.loop_file,
    {
        self.loop_file
    }

    /// The volume, a percentage.
    pub fn volume(&self) -> (volume: u8)
        ensures
            volume == self@.volume,
            volume <= MAX_VOLUME,
            self@.valid(),
    {
        proof {
            use_type_invariant(self);
        }
        self.volume
    }
}

} // verus!
