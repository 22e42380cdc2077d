//! The lifecycle of a player: its states, the events that move it from one
//! to the next, and what each event asks of the caller.
//!
//! A player starts in `Launching`. Once the renderer's process runs, two
//! background tasks belong to it: the resolver, which looks for the
//! renderer's window, and the reader, which connects the control channel and
//! reads events from it. The player is `Ready` when the channel is
//! connected, whether or not the window has been found. `Stopped` is final.
//! `Failed` is left only by stopping.

use vstd::prelude::*;
use crate::channel::{ConnectFailure, ReadFailure, SendFailure};
use crate::resolver::WindowHandle;
use crate::wire::EventKind;

verus! {

/// Why a player failed.
#[derive(Clone, Copy, Debug, PartialEq, Eq, Structural)]
pub enum FailureReason {
    /// The renderer could not be started.
    SpawnFailure,
    /// The control channel could not be connected.
    ConnectFailure(ConnectFailure),
    /// The control channel broke while it was read.
    ReadFailure(ReadFailure),
    /// A command could not be written to the control channel.
    SendFailure(SendFailure),
}

/// Where a player is in its life.
#[derive(Clone, Copy, Debug, PartialEq, Eq, Structural)]
pub enum PlayerState {
    /// The renderer is being started, or its channel is not connected yet.
    Launching,
    /// The channel is connected; nothing is known to play.
    Ready,
    /// The renderer reported that it plays.
    Playing,
    /// The renderer reported that playback is held.
    Paused,
    /// The player was stopped, or its renderer exited.
    Stopped,
    /// The player failed and can only be stopped.
    Failed(FailureReason),
}

/// What happened outside the player.
#[derive(Clone, Copy, Debug, PartialEq, Eq, Structural)]
pub enum PlayerEvent {
    /// The renderer's process was created and has this identifier.
    Spawned(u32),
    /// The renderer's process could not be created.
    SpawnFailed,
    /// The reader connected the control channel.
    ChannelConnected,
    /// The reader gave up connecting the control channel.
    ConnectFailed(ConnectFailure),
    /// The resolver found the renderer's window.
    WindowResolved(WindowHandle),
    /// The resolver ran out of time.
    ResolutionTimedOut,
    /// The reader read an event from the renderer.
    Renderer(EventKind),
    /// The reader stopped: the control channel is closed.
    ChannelClosed(ReadFailure),
    /// A command could not be written.
    SendFailed(SendFailure),
    /// The renderer's process exited.
    ProcessExited,
}

/// What is to be cancelled and killed when a player ends.
#[derive(Clone, Copy, Debug, PartialEq, Eq, Structural)]
pub struct StopPlan {
    /// Cancel the resolver and wait until it has ended.
    pub cancel_resolver: bool,
    /// Cancel the reader, wait until it has ended, and close the channel.
    pub cancel_reader: bool,
    /// Kill this process and wait for its exit.
    pub kill_process: Option<u32>,
}

/// What an event asks of the caller.
#[derive(Clone, Copy, Debug, PartialEq, Eq, Structural)]
pub enum PlayerAction {
    /// Nothing.
    Nothing,
    /// Start the resolver and the reader for the process with this
    /// identifier.
    StartTasks(u32),
    /// Cancel and kill what the plan names.
    CleanUp(StopPlan),
}

/// The books a player keeps on itself.
#[derive(Clone, Copy, Debug, PartialEq, Eq, Structural)]
pub struct Lifecycle {
    pub state: PlayerState,
    /// Whether a launch has been asked for: a player is launched once.
    pub launch_requested: bool,
    /// The renderer's process, while it is taken to run.
    pub process_id: Option<u32>,
    /// The renderer's window, once it was found.
    pub window_handle: Option<WindowHandle>,
    /// Whether the resolver is at work.
    pub resolver_running: bool,
    /// Whether the reader is at work.
    pub reader_running: bool,
}

impl PlayerState {
    /// Whether commands are accepted in this state.
    pub open spec fn accepts_commands(self) -> bool {
        self is Ready || self is Playing || self is Paused
    }
}

impl Lifecycle {
    /// The books of a new player.
    pub open spec fn initial() -> Lifecycle {
        Lifecycle {
            state: PlayerState::Launching,
            launch_requested: false,
            process_id: None,
            window_handle: None,
            resolver_running: false,
            reader_running: false,
        }
    }

    /// What holds of the books of every player at all times.
    pub open spec fn wf(self) -> bool {
        &&& !self.launch_requested ==> self == Lifecycle::initial()
        &&& self.state is Stopped ==> self.process_id is None
        &&& self.state == PlayerState::Failed(FailureReason::SpawnFailure) ==> self.process_id
            is None
        &&& self.state.accepts_commands() ==> self.process_id is Some && self.reader_running
        &&& self.process_id is None ==> !self.resolver_running && !self.reader_running
            && self.window_handle is None
        &&& self.window_handle is Some ==> !self.resolver_running
    }

    /// How many background tasks belong to the player.
    pub open spec fn background_tasks(self) -> nat {
        (if self.resolver_running {
            1nat
        } else {
            0nat
        }) + (if self.reader_running {
            1nat
        } else {
            0nat
        })
    }

    /// Whether the player waits to hear of the process it asked for.
    pub open spec fn awaits_spawn(self) -> bool {
        self.state is Launching && self.launch_requested && self.process_id is None
    }

    /// The books without process, window and tasks.
    pub open spec fn cleared(self) -> Lifecycle {
        Lifecycle {
            process_id: None,
            window_handle: None,
            resolver_running: false,
            reader_running: false,
            ..self
        }
    }

    /// The books of a stopped player.
    pub open spec fn stopped(self) -> Lifecycle {
        Lifecycle { state: PlayerState::Stopped, launch_requested: true, ..self.cleared() }
    }

    /// What has to be cancelled and killed to end the player as it is.
    pub open spec fn stop_plan(self) -> StopPlan {
        StopPlan {
            cancel_resolver: self.resolver_running,
            cancel_reader: self.reader_running,
            kill_process: self.process_id,
        }
    }

    /// The state after the renderer reported an event of kind `kind`, for a
    /// player that accepts commands.
    pub open spec fn state_after_report(self, kind: EventKind) -> PlayerState {
        match kind {
            EventKind::PlaybackStarted => PlayerState::Playing,
            EventKind::Paused => if self.state is Playing {
                PlayerState::Paused
            } else {
                self.state
            },
            EventKind::Resumed => if self.state is Paused {
                PlayerState::Playing
            } else {
                self.state
            },
            EventKind::Shutdown => PlayerState::Stopped,
            EventKind::Other => self.state,
        }
    }

    /// The books after `event`.
    pub open spec fn after_event(self, event: PlayerEvent) -> Lifecycle {
        match event {
            PlayerEvent::Spawned(process_id) => if self.awaits_spawn() {
                Lifecycle {
                    process_id: Some(process_id),
                    resolver_running: true,
                    reader_running: true,
                    ..self
                }
            } else {
                self
            },
            PlayerEvent::SpawnFailed => if self.awaits_spawn() {
                Lifecycle { state: PlayerState::Failed(FailureReason::SpawnFailure), ..self }
            } else {
                self
            },
            PlayerEvent::ChannelConnected => if self.state is Launching && self.reader_running {
                Lifecycle { state: PlayerState::Ready, ..self }
            } else {
                self
            },
            PlayerEvent::ConnectFailed(failure) => if self.state is Launching
                && self.reader_running {
                Lifecycle {
                    state: PlayerState::Failed(FailureReason::ConnectFailure(failure)),
                    reader_running: false,
                    ..self
                }
            } else {
                self
            },
            PlayerEvent::WindowResolved(handle) => if self.resolver_running {
                Lifecycle { window_handle: Some(handle), resolver_running: false, ..self }
            } else {
                self
            },
            PlayerEvent::ResolutionTimedOut => Lifecycle { resolver_running: false, ..self },
            PlayerEvent::Renderer(kind) => if !self.state.accepts_commands() {
                self
            } else if kind is Shutdown {
                self.stopped()
            } else {
                Lifecycle { state: self.state_after_report(kind), ..self }
            },
            PlayerEvent::ChannelClosed(failure) => if !self.reader_running {
                self
            } else if self.state is Failed {
                Lifecycle { reader_running: false, ..self }
            } else {
                Lifecycle {
                    state: PlayerState::Failed(FailureReason::ReadFailure(failure)),
                    reader_running: false,
                    ..self
                }
            },
            PlayerEvent::SendFailed(failure) => if self.state.accepts_commands() {
                Lifecycle {
                    state: PlayerState::Failed(FailureReason::SendFailure(failure)),
                    ..self
                }
            } else {
                self
            },
            PlayerEvent::ProcessExited => if self.process_id is None {
                self
            } else if self.state is Failed {
                self.cleared()
            } else {
                self.stopped()
            },
        }
    }

    /// What `event` asks of the caller.
    ///
    /// A process that the player did not wait for is killed, so that none is
    /// left behind. When the renderer announces its exit, or has exited, the
    /// tasks that still run are cancelled.
    pub open spec fn action_for(self, event: PlayerEvent) -> PlayerAction {
        match event {
            PlayerEvent::Spawned(process_id) => if self.awaits_spawn() {
                PlayerAction::StartTasks(process_id)
            } else if self.process_id == Some(process_id) {
                PlayerAction::Nothing
            } else {
                PlayerAction::CleanUp(
                    StopPlan {
                        cancel_resolver: false,
                        cancel_reader: false,
                        kill_process: Some(process_id),
                    },
                )
            },
            PlayerEvent::Renderer(kind) => if self.state.accepts_commands() && kind is Shutdown {
                PlayerAction::CleanUp(self.stop_plan())
            } else {
                PlayerAction::Nothing
            },
            PlayerEvent::ProcessExited => if self.process_id is Some {
                PlayerAction::CleanUp(StopPlan { kill_process: None, ..self.stop_plan() })
            } else {
                PlayerAction::Nothing
            },
            _ => PlayerAction::Nothing,
        }
    }

    /// The books of a new player.
    pub fn new() -> (life: Lifecycle)
        ensures
            life == Lifecycle::initial(),
            life.wf(),
    {
        Lifecycle {
            state: PlayerState::Launching,
            launch_requested: false,
            process_id: None,
            window_handle: None,
            resolver_running: false,
            reader_running: false,
        }
    }

    /// Takes in an event: the books after it, and what it asks of the caller.
    pub fn on_event(self, event: PlayerEvent) -> (next: (Lifecycle, PlayerAction))
        ensures
            next.0 == self.after_event(event),
            next.1 == self.action_for(event),
            self.wf() ==> next.0.wf(),
    {
        let accepts = matches!(
            self.state,
            PlayerState::Ready | PlayerState::Playing | PlayerState::Paused
        );
        let launching = matches!(self.state, PlayerState::Launching);
        let failed = matches!(self.state, PlayerState::Failed(_));
        let awaits_spawn = launching && self.launch_requested && self.process_id.is_none();
        let cleared = Lifecycle {
            process_id: None,
            window_handle: None,
            resolver_running: false,
            reader_running: false,
            ..self
        };
        let stopped = Lifecycle { state: PlayerState::Stopped, launch_requested: true, ..cleared };
        let plan = StopPlan {
            cancel_resolver: self.resolver_running,
            cancel_reader: self.reader_running,
            kill_process: self.process_id,
        };
        match event {
            PlayerEvent::Spawned(process_id) => {
                if awaits_spawn {
                    (
                        Lifecycle {
                            process_id: Some(process_id),
                            resolver_running: true,
                            reader_running: true,
                            ..self
                        },
                        PlayerAction::StartTasks(process_id),
                    )
                } else if self.process_id == Some(process_id) {
                    (self, PlayerAction::Nothing)
                } else {
                    (
                        self,
                        PlayerAction::CleanUp(
                            StopPlan {
                                cancel_resolver: false,
                                cancel_reader: false,
                                kill_process: Some(process_id),
                            },
                        ),
                    )
                }
            },
            PlayerEvent::SpawnFailed => {
                if awaits_spawn {
                    (
                        Lifecycle {
                            state: PlayerState::Failed(FailureReason::SpawnFailure),
                            ..self
                        },
                        PlayerAction::Nothing,
                    )
                } else {
                    (self, PlayerAction::Nothing)
                }
            },
            PlayerEvent::ChannelConnected => {
                if launching && self.reader_running {
                    (Lifecycle { state: PlayerState::Ready, ..self }, PlayerAction::Nothing)
                } else {
                    (self, PlayerAction::Nothing)
                }
            },
            PlayerEvent::ConnectFailed(failure) => {
                if launching && self.reader_running {
                    (
                        Lifecycle {
                            state: PlayerState::Failed(FailureReason::ConnectFailure(failure)),
                            reader_running: false,
                            ..self
                        },
                        PlayerAction::Nothing,
                    )
                } else {
                    (self, PlayerAction::Nothing)
                }
            },
            PlayerEvent::WindowResolved(handle) => {
                if self.resolver_running {
                    (
                        Lifecycle { window_handle: Some(handle), resolver_running: false, ..self },
                        PlayerAction::Nothing,
                    )
                } else {
                    (self, PlayerAction::Nothing)
                }
            },
            PlayerEvent::ResolutionTimedOut => {
                (Lifecycle { resolver_running: false, ..self }, PlayerAction::Nothing)
            },
            PlayerEvent::Renderer(kind) => {
                if !accepts {
                    (self, PlayerAction::Nothing)
                } else {
                    match kind {
                        EventKind::Shutdown => (stopped, PlayerAction::CleanUp(plan)),
                        EventKind::PlaybackStarted => (
                            Lifecycle { state: PlayerState::Playing, ..self },
                            PlayerAction::Nothing,
                        ),
                        EventKind::Paused => {
                            if matches!(self.state, PlayerState::Playing) {
                                (
                                    Lifecycle { state: PlayerState::Paused, ..self },
                                    PlayerAction::Nothing,
                                )
                            } else {
                                (self, PlayerAction::Nothing)
                            }
                        },
                        EventKind::Resumed => {
                            if matches!(self.state, PlayerState::Paused) {
                                (
                                    Lifecycle { state: PlayerState::Playing, ..self },
                                    PlayerAction::Nothing,
                                )
                            } else {
                                (self, PlayerAction::Nothing)
                            }
                        },
                        EventKind::Other => (self, PlayerAction::Nothing),
                    }
                }
            },
            PlayerEvent::ChannelClosed(failure) => {
                if !self.reader_running {
                    (self, PlayerAction::Nothing)
                } else if failed {
                    (Lifecycle { reader_running: false, ..self }, PlayerAction::Nothing)
                } else {
                    (
                        Lifecycle {
                            state: PlayerState::Failed(FailureReason::ReadFailure(failure)),
                            reader_running: false,
                            ..self
                        },
                        PlayerAction::Nothing,
                    )
                }
            },
            PlayerEvent::SendFailed(failure) => {
                if accepts {
                    (
                        Lifecycle {
                            state: PlayerState::Failed(FailureReason::SendFailure(failure)),
                            ..self
                        },
                        PlayerAction::Nothing,
                    )
                } else {
                    (self, PlayerAction::Nothing)
                }
            },
            PlayerEvent::ProcessExited => {
                if self.process_id.is_none() {
                    (self, PlayerAction::Nothing)
                } else if failed {
                    (cleared, PlayerAction::CleanUp(StopPlan { kill_process: None, ..plan }))
                } else {
                    (stopped, PlayerAction::CleanUp(StopPlan { kill_process: None, ..plan }))
                }
            },
        }
    }
}

/// No event breaks the books: what holds of them before an event holds after
/// it.
pub proof fn lemma_events_keep_books(life: Lifecycle, event: PlayerEvent)
    requires
        life.wf(),
    ensures
        life.after_event(event).wf(),
{
}

/// Stopping ends everything: no background task belongs to a stopped player
/// and no process, whatever it was doing before.
pub proof fn lemma_stop_leaves_nothing(life: Lifecycle)
    ensures
        life.stopped().state is Stopped,
        life.stopped().background_tasks() == 0,
        life.stopped().process_id is None,
        life.stopped().wf(),
        life.stop_plan().cancel_resolver == life.resolver_running,
        life.stop_plan().cancel_reader == life.reader_running,
        life.stop_plan().kill_process == life.process_id,
{
}

/// `Stopped` is final: a stopped player takes no notice of any event, and
/// none asks for a task to be started.
pub proof fn lemma_stopped_is_final(life: Lifecycle, event: PlayerEvent)
    requires
        life.wf(),
        life.state is Stopped,
    ensures
        life.after_event(event) == life,
        life.background_tasks() == 0,
        life.process_id is None,
        !(life.action_for(event) is StartTasks),
{
}

/// A failed player stays failed, for the reason it first failed for, until it
/// is stopped.
pub proof fn lemma_failure_is_kept(life: Lifecycle, event: PlayerEvent)
    requires
        life.state is Failed,
    ensures
        life.after_event(event).state == life.state,
{
}

/// Whether the window is found, and when, has no bearing on the state: a
/// resolver that times out is no failure.
pub proof fn lemma_window_leaves_state(life: Lifecycle, event: PlayerEvent)
    requires
        event is WindowResolved || event is ResolutionTimedOut,
    ensures
        life.after_event(event).state == life.state,
        life.after_event(event).reader_running == life.reader_running,
        life.after_event(event).process_id == life.process_id,
        !life.after_event(event).resolver_running,
        life.action_for(event) is Nothing,
{
}

/// A player becomes `Ready` by the connection of its channel and by nothing
/// else, and only from `Launching`.
pub proof fn lemma_ready_by_connection(life: Lifecycle, event: PlayerEvent)
    requires
        life.after_event(event).state is Ready,
        !(life.state is Ready),
    ensures
        event is ChannelConnected,
        life.state is Launching,
        life.reader_running,
{
}

/// A renderer that cannot be started leaves nothing behind: no process, no
/// background task.
pub proof fn lemma_spawn_failure_leaves_nothing(life: Lifecycle)
    requires
        life.wf(),
        life.awaits_spawn(),
    ensures
        life.after_event(PlayerEvent::SpawnFailed).state == PlayerState::Failed(
            FailureReason::SpawnFailure,
        ),
        life.after_event(PlayerEvent::SpawnFailed).process_id is None,
        life.after_event(PlayerEvent::SpawnFailed).background_tasks() == 0,
        life.action_for(PlayerEvent::SpawnFailed) is Nothing,
{
}

} // verus!
