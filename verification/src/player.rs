//! The player: one renderer, from launch to stop.
//!
//! A player decides and keeps the books; the caller acts. `launch` says what
//! to start, `play` what to write to the control channel, `stop` what to cancel
//! and kill, and [`MpvPlayer::handle_event`] takes in what happened.
//!
//! A command given while the player is still `Launching` is rejected at once;
//! none is ever queued.

use vstd::prelude::*;
use crate::channel::ConnectFailure;
use crate::config::{MpvPlayerOption, PlayerConfig};
use crate::lifecycle::{
    FailureReason, Lifecycle, PlayerAction, PlayerEvent, PlayerState, StopPlan,
};
use crate::pipe_id::is_random_uuid_text;
use crate::resolver::WindowHandle;
use crate::supervisor::{
    kill_result, renderer_args, renderer_program_text, spawn_plan, KillOutcome, SpawnPlan,
};
use crate::wire::{frame_command, framed_command, loadfile_command, loadfile_text};

verus! {

/// Why a launch did not succeed.
#[derive(Clone, Copy, Debug, PartialEq, Eq, Structural)]
pub enum LaunchError {
    /// The player has been launched before: a player is launched once.
    AlreadyLaunched,
    /// The renderer could not be started.
    SpawnFailure,
    /// The control channel could not be connected.
    ConnectFailure(ConnectFailure),
}

/// Why a command was not accepted.
#[derive(Clone, Copy, Debug, PartialEq, Eq, Structural)]
pub enum PlayError {
    /// The player is still launching.
    NotReady,
    /// The player is stopped.
    Stopped,
    /// The player has failed.
    Failed(FailureReason),
}

/// Why stopping did not go through cleanly. The player is stopped all the
/// same.
#[derive(Clone, Copy, Debug, PartialEq, Eq, Structural)]
pub enum StopError {
    /// The renderer's process could not be ended.
    KillFailure,
}

/// What a player is, as plain values.
pub struct PlayerView {
    pub config: PlayerConfig,
    pub life: Lifecycle,
}

/// What `play` answers for a player with the books `life`: the bytes to write
/// where commands are accepted, and else the reason why they are not.
pub open spec fn play_outcome(life: Lifecycle, path: Seq<char>) -> Result<Seq<u8>, PlayError> {
    match life.state {
        PlayerState::Launching => Err(PlayError::NotReady),
        PlayerState::Stopped => Err(PlayError::Stopped),
        PlayerState::Failed(reason) => Err(PlayError::Failed(reason)),
        _ => Ok(framed_command(loadfile_text(path))),
    }
}

/// What a failure is called when it is shown to a person.
pub open spec fn failure_text(reason: FailureReason) -> Seq<char> {
    match reason {
        FailureReason::SpawnFailure => "the renderer could not be started"@,
        FailureReason::ConnectFailure(_) => "the control channel could not be connected"@,
        FailureReason::ReadFailure(_) => "the control channel was closed"@,
        FailureReason::SendFailure(_) => "a command could not be sent"@,
    }
}

/// A failure in words.
pub fn describe_failure(reason: FailureReason) -> (text: &'static str)
    ensures
        text@ == failure_text(reason),
{
    match reason {
        FailureReason::SpawnFailure => "the renderer could not be started",
        FailureReason::ConnectFailure(_) => "the control channel could not be connected",
        FailureReason::ReadFailure(_) => "the control channel was closed",
        FailureReason::SendFailure(_) => "a command could not be sent",
    }
}

/// Whether stopping went through, given how ending the process went; `None`
/// where there was no process to end.
pub fn stop_result(kill: Option<KillOutcome>) -> (result: Result<(), StopError>)
    ensures
        result is Err <==> kill == Some(KillOutcome::Refused),
{
    match kill {
        None => Ok(()),
        Some(outcome) => match kill_result(outcome) {
            Ok(()) => Ok(()),
            Err(_) => Err(StopError::KillFailure),
        },
    }
}

/// A player of one renderer.
#[derive(Debug)]
pub struct MpvPlayer {
    option: MpvPlayerOption,
    life: Lifecycle,
}

impl View for MpvPlayer {
    type V = PlayerView;

    closed spec fn view(&self) -> PlayerView {
        PlayerView { config: self.option@, life: self.life }
    }
}

impl MpvPlayer {
    #[verifier::type_invariant]
    closed spec fn books_are_sound(self) -> bool {
        self.life.wf()
    }

    /// A player with the initial options and a fresh pipe of its own.
    pub fn new() -> (player: Self)
        ensures
            player@.config == PlayerConfig::initial(player@.config.pipe_id),
            is_random_uuid_text(player@.config.pipe_id),
            player@.life == Lifecycle::initial(),
    {
        Self::with_option(MpvPlayerOption::new())
    }

    /// A player with the options `option`.
    pub fn with_option(option: MpvPlayerOption) -> (player: Self)
        ensures
            player@.config == option@,
            player@.life == Lifecycle::initial(),
    {
        MpvPlayer { option, life: Lifecycle::new() }
    }

    /// The options the player was made with.
    pub fn option(&self) -> (option: &MpvPlayerOption)
        ensures
            option@ == self@.config,
    {
        &self.option
    }

    /// The player's state.
    pub fn status(&self) -> (state: PlayerState)
        ensures
            state == self@.life.state,
            self@.life.wf(),
    {
        proof {
            use_type_invariant(self);
        }
        self.life.state
    }

    /// The renderer's window, if it has been found.
    pub fn window_handle(&self) -> (handle: Option<WindowHandle>)
        ensures
            handle == self@.life.window_handle,
    {
        self.life.window_handle
    }

    /// The renderer's process, while it is taken to run.
    pub fn process_id(&self) -> (process_id: Option<u32>)
        ensures
            process_id == self@.life.process_id,
    {
        self.life.process_id
    }

    /// How many background tasks belong to the player.
    pub fn background_tasks(&self) -> (count: u8)
        ensures
            count == self@.life.background_tasks(),
    {
        let resolver: u8 = if self.life.resolver_running {
            1
        } else {
            0
        };
        let reader: u8 = if self.life.reader_running {
            1
        } else {
            0
        };
        resolver + reader
    }

    /// Why the launch failed, if it did.
    pub fn launch_error(&self) -> (error: Option<LaunchError>)
        ensures
            error == match self@.life.state {
                PlayerState::Failed(FailureReason::SpawnFailure) => Some(LaunchError::SpawnFailure),
                PlayerState::Failed(FailureReason::ConnectFailure(failure)) => Some(
                    LaunchError::ConnectFailure(failure),
                ),
                _ => None,
            },
    {
        match self.life.state {
            PlayerState::Failed(FailureReason::SpawnFailure) => Some(LaunchError::SpawnFailure),
            PlayerState::Failed(FailureReason::ConnectFailure(failure)) => Some(
                LaunchError::ConnectFailure(failure),
            ),
            _ => None,
        }
    }

    /// Begins the launch: says what to start, with `path` as the medium to
    /// play if there is one.
    ///
    /// A player is launched once. The first call is accepted; the player
    /// then waits for [`PlayerEvent::Spawned`] or [`PlayerEvent::SpawnFailed`].
    /// Every later call is refused and changes nothing.
    pub fn launch(&mut self, path: Option<String>) -> (result: Result<SpawnPlan, LaunchError>)
        ensures
            final(self)@.config == old(self)@.config,
            match result {
                Ok(plan) => {
                    &&& old(self)@.life == Lifecycle::initial()
                    &&& final(self)@.life == Lifecycle {
                        launch_requested: true,
                        ..Lifecycle::initial()
                    }
                    &&& plan.program@ == renderer_program_text()
                    &&& plan.args.deep_view() == renderer_args(old(self)@.config, path.deep_view())
                },
                Err(error) => {
                    &&& old(self)@.life.launch_requested
                    &&& error == LaunchError::AlreadyLaunched
                    &&& final(self)@.life == old(self)@.life
                },
            },
    {
        proof {
            use_type_invariant(&*self);
        }
        if self.life.launch_requested {
            return Err(LaunchError::AlreadyLaunched);
        }
        let plan = spawn_plan(&self.option, &path);
        self.life = Lifecycle { launch_requested: true, ..self.life };
        Ok(plan)
    }

    /// Takes in what happened outside, and says what it asks of the caller.
    pub fn handle_event(&mut self, event: PlayerEvent) -> (action: PlayerAction)
        ensures
            final(self)@.config == old(self)@.config,
            final(self)@.life == old(self)@.life.after_event(event),
            action == old(self)@.life.action_for(event),
    {
        proof {
            use_type_invariant(&*self);
        }
        let (life, action) = self.life.on_event(event);
        self.life = life;
        action
    }

    /// Asks the renderer to load and play `path`: gives the bytes to write to
    /// the control channel.
    ///
    /// Accepted in `Ready`, `Playing` and `Paused`, and refused in every other
    /// state, `Launching` among them. The player's state does not change: it
    /// changes when the renderer reports that it plays.
    pub fn play(&mut self, path: String) -> (result: Result<Vec<u8>, PlayError>)
        ensures
            final(self)@ == old(self)@,
            match result {
                Ok(bytes) => play_outcome(old(self)@.life, path@) == Ok::<Seq<u8>, PlayError>(
                    bytes@,
                ),
                Err(error) => play_outcome(old(self)@.life, path@) == Err::<Seq<u8>, PlayError>(
                    error,
                ),
            },
    {
        match self.life.state {
            PlayerState::Launching => Err(PlayError::NotReady),
            PlayerState::Stopped => Err(PlayError::Stopped),
            PlayerState::Failed(reason) => Err(PlayError::Failed(reason)),
            _ => {
                let command = loadfile_command(path.as_str());
                Ok(frame_command(command.as_str()))
            },
        }
    }

    /// Stops the player, whatever its state, and says what remains to be
    /// done: the tasks to cancel and the process to kill.
    ///
    /// Afterwards the player is `Stopped`, and no task and no process belong
    /// to it.
    pub fn stop(&mut self) -> (plan: StopPlan)
        ensures
            final(self)@.config == old(self)@.config,
            final(self)@.life == old(self)@.life.stopped(),
            plan == old(self)@.life.stop_plan(),
            final(self)@.life.state is Stopped,
            final(self)@.life.background_tasks() == 0,
            final(self)@.life.process_id is None,
    {
        let plan = StopPlan {
            cancel_resolver: self.life.resolver_running,
            cancel_reader: self.life.reader_running,
            kill_process: self.life.process_id,
        };
        self.life = Lifecycle {
            state: PlayerState::Stopped,
            launch_requested: true,
            process_id: None,
            window_handle: None,
            resolver_running: false,
            reader_running: false,
        };
        plan
    }
}

/// A command given while the player is launching is rejected, whatever the
/// medium, and so is one given to a stopped or failed player; in the three
/// other states the same medium gets the same bytes.
pub proof fn lemma_play_policy(life: Lifecycle, path: Seq<char>)
    ensures
        life.state is Launching ==> play_outcome(life, path) == Err::<Seq<u8>, PlayError>(
            PlayError::NotReady,
        ),
        life.state is Stopped ==> play_outcome(life, path) == Err::<Seq<u8>, PlayError>(
            PlayError::Stopped,
        ),
        life.state is Failed ==> play_outcome(life, path) is Err,
        life.state.accepts_commands() <==> play_outcome(life, path) is Ok,
        life.state.accepts_commands() ==> play_outcome(life, path) == Ok::<Seq<u8>, PlayError>(
            framed_command(loadfile_text(path)),
        ),
{
}

} // verus!
