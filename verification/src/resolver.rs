//! Discovery of the renderer's window.
//!
//! The renderer opens its window some time after it starts. The resolver
//! decides, poll by poll, whether a window has been found, whether to look
//! again after a short sleep, or whether the time is up. Listing the windows
//! and sleeping are the caller's part; times are milliseconds of a clock that
//! never runs backwards.

use vstd::prelude::*;

verus! {

/// The time given to the renderer to show a window, in milliseconds.
pub const DEFAULT_RESOLVE_TIMEOUT_MS: u64 = 5000;

/// The longest sleep between two polls, in milliseconds.
pub const POLL_INTERVAL_MS: u64 = 1;

/// A top-level window as the operating system lists it.
#[derive(Clone, Copy, Debug, PartialEq, Eq, Structural)]
pub struct WindowInfo {
    /// The window's handle; zero is the null handle.
    pub handle: isize,
    /// The process that owns the window.
    pub process_id: u32,
    /// Whether the window is shown.
    pub visible: bool,
}

/// The handle of a window that can be embedded. Never the null handle when
/// it comes from this module.
#[derive(Clone, Copy, Debug, PartialEq, Eq, Structural)]
pub struct WindowHandle {
    pub raw: isize,
}

/// What the resolver decides after a poll.
#[derive(Clone, Copy, Debug, PartialEq, Eq, Structural)]
pub enum ResolveStep {
    /// The renderer's window.
    Found(WindowHandle),
    /// No window yet: sleep this many milliseconds, then poll again.
    Sleep(u64),
    /// No window, and the time is up.
    TimedOut,
}

/// Whether `window` is a window of process `process_id` that can be embedded:
/// a real handle, shown, and owned by that process.
pub open spec fn embeddable(window: WindowInfo, process_id: u32) -> bool {
    window.handle != 0 && window.visible && window.process_id == process_id
}

/// Whether some listed window can be embedded.
pub open spec fn has_embeddable(windows: Seq<WindowInfo>, process_id: u32) -> bool {
    exists|i: int| 0 <= i < windows.len() && embeddable(#[trigger] windows[i], process_id)
}

/// Whether `handle` is the first listed window that can be embedded.
pub open spec fn is_first_embeddable(
    windows: Seq<WindowInfo>,
    process_id: u32,
    handle: WindowHandle,
) -> bool {
    exists|i: int|
        {
            &&& 0 <= i < windows.len()
            &&& embeddable(#[trigger] windows[i], process_id)
            &&& windows[i].handle == handle.raw
            &&& forall|j: int| 0 <= j < i ==> !embeddable(#[trigger] windows[j], process_id)
        }
}

/// How long to sleep at `now_ms` when the time is up at `deadline_ms`: the
/// poll interval, cut short so that the sleep ends by the deadline.
pub open spec fn sleep_for(deadline_ms: nat, now_ms: nat) -> nat {
    if deadline_ms - now_ms < POLL_INTERVAL_MS {
        (deadline_ms - now_ms) as nat
    } else {
        POLL_INTERVAL_MS as nat
    }
}

/// The first window in `windows` that process `process_id` owns and shows.
pub fn find_window_handle(windows: &Vec<WindowInfo>, process_id: u32) -> (found: Option<
    WindowHandle,
>)
    ensures
        match found {
            Some(handle) => is_first_embeddable(windows@, process_id, handle),
            None => !has_embeddable(windows@, process_id),
        },
{
    let mut i: usize = 0;
    while i < windows.len()
        invariant
            i <= windows.len(),
            forall|j: int| 0 <= j < i ==> !embeddable(#[trigger] windows@[j], process_id),
        decreases windows.len() - i,
    {
        let window = windows[i];
        if window.handle != 0 && window.visible && window.process_id == process_id {
            return Some(WindowHandle { raw: window.handle });
        }
        i += 1;
    }
    None
}

/// What a resolver is, as plain values.
pub struct ResolverView {
    pub process_id: u32,
    pub deadline_ms: nat,
}

/// Looks for the window of one process until a deadline.
#[derive(Clone, Copy, Debug)]
pub struct WindowHandleResolver {
    process_id: u32,
    deadline_ms: u64,
}

impl View for WindowHandleResolver {
    type V = ResolverView;

    closed spec fn view(&self) -> ResolverView {
        ResolverView { process_id: self.process_id, deadline_ms: self.deadline_ms as nat }
    }
}

impl WindowHandleResolver {
    /// A resolver for `process_id` that starts at `now_ms` and gives up
    /// `timeout_ms` later. A deadline beyond the clock's range is the end of
    /// that range.
    pub fn new(process_id: u32, now_ms: u64, timeout_ms: u64) -> (resolver: Self)
        ensures
            resolver@.process_id == process_id,
            resolver@.deadline_ms == if now_ms + timeout_ms <= u64::MAX {
                (now_ms + timeout_ms) as nat
            } else {
                u64::MAX as nat
            },
    {
        let deadline_ms = match now_ms.checked_add(timeout_ms) {
            Some(deadline_ms) => deadline_ms,
            None => u64::MAX,
        };
        WindowHandleResolver { process_id, deadline_ms }
    }

    /// The process whose window is looked for.
    pub fn process_id(&self) -> (process_id: u32)
        ensures
            process_id == self@.process_id,
    {
        self.process_id
    }

    /// The time at which the resolver gives up.
    pub fn deadline_ms(&self) -> (deadline_ms: u64)
        ensures
            deadline_ms == self@.deadline_ms,
    {
        self.deadline_ms
    }

    /// Decides what follows a poll made at `now_ms` that listed `windows`.
    ///
    /// A window that can be embedded is reported even when the deadline has
    /// passed. Without one, the resolver times out from the deadline on, and
    /// before it asks for a sleep that is at least one millisecond long and
    /// over by the deadline.
    pub fn step(&self, now_ms: u64, windows: &Vec<WindowInfo>) -> (step: ResolveStep)
        ensures
            match step {
                ResolveStep::Found(handle) => is_first_embeddable(
                    windows@,
                    self@.process_id,
                    handle,
                ),
                ResolveStep::Sleep(ms) => {
                    &&& !has_embeddable(windows@, self@.process_id)
                    &&& now_ms < self@.deadline_ms
                    &&& ms == sleep_for(self@.deadline_ms, now_ms as nat)
                    &&& 1 <= ms
                    &&& now_ms + ms <= self@.deadline_ms
                },
                ResolveStep::TimedOut => {
                    &&& !has_embeddable(windows@, self@.process_id)
                    &&& now_ms >= self@.deadline_ms
                },
            },
    {
        match find_window_handle(windows, self.process_id) {
            Some(handle) => ResolveStep::Found(handle),
            None => {
                if now_ms >= self.deadline_ms {
                    ResolveStep::TimedOut
                } else {
                    let left = self.deadline_ms - now_ms;
                    if left < POLL_INTERVAL_MS {
                        ResolveStep::Sleep(left)
                    } else {
                        ResolveStep::Sleep(POLL_INTERVAL_MS)
                    }
                }
            },
        }
    }
}

/// A resolver cannot be kept waiting for ever. Take the polls of one run
/// that found no window before the deadline, at the times `times`, the first
/// not before `start_ms`, each following the one before by at least the sleep
/// that was asked for. There are no more of them than poll intervals fit
/// between the start and the deadline; the poll after the last of them ends
/// the run.
pub proof fn lemma_sleeps_are_bounded(start_ms: nat, deadline_ms: nat, times: Seq<nat>)
    requires
        times.len() > 0 ==> start_ms <= times[0],
        forall|k: int| 0 <= k < times.len() ==> #[trigger] times[k] < deadline_ms,
        forall|k: int|
            0 <= k < times.len() - 1 ==> times[k + 1] >= #[trigger] times[k] + sleep_for(
                deadline_ms,
                times[k],
            ),
    ensures
        times.len() > 0 ==> times.len() * POLL_INTERVAL_MS <= deadline_ms - start_ms,
    decreases times.len(),
{
    if times.len() > 1 {
        let rest = times.drop_first();
        assert(times[1] >= times[0] + sleep_for(deadline_ms, times[0]));
        assert forall|k: int| 0 <= k < rest.len() - 1 implies rest[k + 1] >= #[trigger] rest[k]
            + sleep_for(deadline_ms, rest[k]) by {
            assert(times[k + 1 + 1] >= times[k + 1] + sleep_for(deadline_ms, times[k + 1]));
        }
        lemma_sleeps_are_bounded(start_ms + POLL_INTERVAL_MS as nat, deadline_ms, rest);
    }
}

} // verus!
