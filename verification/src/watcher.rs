//! The watcher's decisions. The program around the library owns the file
//! watch, the file and the window; it reports what happened as events, and
//! the watcher answers each event with the next thing to do.

use crate::dedup::{is_change, remembered, Deduplicator, FileMetadata};
use crate::message::{validated, ConfigAction, ConfigMessage};
use vstd::prelude::*;

verus! {

/// How old, in seconds, a message in the signal file may be and still be
/// acted on.
pub const MESSAGE_MAX_AGE_SECS: u64 = 10;

/// The kind of one file system event, as far as the watcher tells kinds apart.
#[derive(Debug, Clone, Copy, PartialEq, Eq, Structural)]
pub enum ChangeKind {
    Any,
    Access,
    Create,
    ModifyAny,
    /// The file's data changed.
    ModifyData,
    ModifyMetadata,
    ModifyName,
    ModifyOther,
    Remove,
    Other,
}

/// What the program reports to the watcher.
#[derive(Debug)]
pub enum WatchEvent {
    /// A batch of coalesced file system events arrived.
    Batch(Vec<ChangeKind>),
    /// The watch reported errors in place of a batch.
    WatchErrors,
    /// The signal file was stat'ed; `None` where that failed.
    Stat(Option<FileMetadata>),
    /// The signal file was read at Unix time `now`; `None` where that failed.
    Content { text: Option<String>, now: u64 },
    /// The main window was looked up.
    WindowFound(bool),
    /// The last window operation ended, well or not.
    StepDone(bool),
}

/// What the program is to do next.
#[derive(Debug, Clone, Copy, PartialEq, Eq, Structural)]
pub enum Command {
    /// Nothing: wait for the next batch.
    Wait,
    /// Stat the signal file and report the result.
    Stat,
    /// Read the signal file and report its content with the current time.
    ReadSignal,
    /// Look up the main window and report whether it exists.
    FindWindow,
    /// Unminimize the main window and report.
    Unminimize,
    /// Show the main window and report.
    Show,
    /// Give the main window the focus and report.
    SetFocus,
    /// Tell the subscribers that something changed; then wait.
    NotifyChanged,
}

/// Where the watcher stands.
#[derive(Debug, Clone, Copy, PartialEq, Eq, Structural)]
pub enum Phase {
    Stopped,
    /// Watching, with no batch in work.
    Idle,
    AwaitingStat,
    AwaitingContent,
    AwaitingWindow,
    AwaitingUnminimize,
    AwaitingShow,
    AwaitingFocus,
}

/// Whether an action is addressed to this process.
#[derive(Debug, Clone, Copy, PartialEq, Eq, Structural)]
pub enum Dispatch {
    /// The action names another process: nothing is done, and nothing is wrong.
    Ignore,
    /// The action asks this process to raise and focus its main window.
    FocusWindow,
}

/// The watcher of one process.
#[derive(Debug, Clone, Copy, PartialEq, Eq, Structural)]
pub struct ConfigWatcher {
    pub phase: Phase,
    pub dedup: Deduplicator,
    pub own_pid: u32,
}

/// Whether a batch holds an event that says the file's data changed.
pub open spec fn has_data_change(kinds: Seq<ChangeKind>) -> bool {
    exists|i: int| 0 <= i < kinds.len() && kinds[i] == ChangeKind::ModifyData
}

/// What an action asks of the process with id `own_pid`.
pub open spec fn dispatch(action: ConfigAction, own_pid: u32) -> Dispatch {
    match action {
        ConfigAction::Focus { target } => if target == own_pid {
            Dispatch::FocusWindow
        } else {
            Dispatch::Ignore
        },
    }
}

/// Phase and command once the signal file was read: without a valid message
/// the subscribers are told of a change; a message for this process starts
/// the window sequence; one for another process is passed over in silence.
pub open spec fn after_message(message: Option<ConfigMessage>, own_pid: u32) -> (Phase, Command) {
    match message {
        None => (Phase::Idle, Command::NotifyChanged),
        Some(m) => match dispatch(m.action, own_pid) {
            Dispatch::FocusWindow => (Phase::AwaitingWindow, Command::FindWindow),
            Dispatch::Ignore => (Phase::Idle, Command::Wait),
        },
    }
}

/// The valid message in what was read at time `now`, if there is one.
pub open spec fn received(text: Option<String>, now: u64) -> Option<ConfigMessage> {
    match text {
        None => None,
        Some(t) => validated(t@, Some(MESSAGE_MAX_AGE_SECS), now),
    }
}

/// The watcher's transition: the state after an event, and the command that
/// answers it. An event that the phase does not wait for ends the work on
/// the current batch.
pub open spec fn next(w: ConfigWatcher, event: WatchEvent) -> (ConfigWatcher, Command) {
    match (w.phase, event) {
        (Phase::Stopped, _) => (w, Command::Wait),
        (Phase::Idle, WatchEvent::Batch(kinds)) => if has_data_change(kinds@) {
            (ConfigWatcher { phase: Phase::AwaitingStat, ..w }, Command::Stat)
        } else {
            (w, Command::Wait)
        },
        (Phase::AwaitingStat, WatchEvent::Stat(stat)) => if is_change(w.dedup.last, stat) {
            (
                ConfigWatcher {
                    phase: Phase::AwaitingContent,
                    dedup: Deduplicator { last: remembered(w.dedup.last, stat) },
                    ..w
                },
                Command::ReadSignal,
            )
        } else {
            (ConfigWatcher { phase: Phase::Idle, ..w }, Command::Wait)
        },
        (Phase::AwaitingContent, WatchEvent::Content { text, now }) => {
            let (phase, command) = after_message(received(text, now), w.own_pid);
            (ConfigWatcher { phase, ..w }, command)
        },
        (Phase::AwaitingWindow, WatchEvent::WindowFound(found)) => if found {
            (ConfigWatcher { phase: Phase::AwaitingUnminimize, ..w }, Command::Unminimize)
        } else {
            (ConfigWatcher { phase: Phase::Idle, ..w }, Command::NotifyChanged)
        },
        (Phase::AwaitingUnminimize, WatchEvent::StepDone(_)) => (
            ConfigWatcher { phase: Phase::AwaitingShow, ..w },
            Command::Show,
        ),
        (Phase::AwaitingShow, WatchEvent::StepDone(ok)) => if ok {
            (ConfigWatcher { phase: Phase::AwaitingFocus, ..w }, Command::SetFocus)
        } else {
            (ConfigWatcher { phase: Phase::Idle, ..w }, Command::NotifyChanged)
        },
        (Phase::AwaitingFocus, WatchEvent::StepDone(ok)) => if ok {
            (ConfigWatcher { phase: Phase::Idle, ..w }, Command::Wait)
        } else {
            (ConfigWatcher { phase: Phase::Idle, ..w }, Command::NotifyChanged)
        },
        _ => (ConfigWatcher { phase: Phase::Idle, ..w }, Command::Wait),
    }
}

/// Whether a batch holds an event that says the file's data changed.
pub fn batch_has_data_change(kinds: &Vec<ChangeKind>) -> (found: bool)
    ensures
        found == has_data_change(kinds@),
{
    let mut i: usize = 0;
    while i < kinds.len()
        invariant
            i <= kinds.len(),
            forall|j: int| 0 <= j < i ==> kinds@[j] != ChangeKind::ModifyData,
        decreases kinds.len() - i,
    {
        if kinds[i] == ChangeKind::ModifyData {
            return true;
        }
        i += 1;
    }
    false
}

/// Decides whether an action is addressed to the process with id `own_pid`.
pub fn dispatch_action(action: ConfigAction, own_pid: u32) -> (decision: Dispatch)
    ensures
        decision == dispatch(action, own_pid),
{
    match action {
        ConfigAction::Focus { target } => {
            if target == own_pid {
                Dispatch::FocusWindow
            } else {
                Dispatch::Ignore
            }
        },
    }
}

/// Decides what follows the reading of the signal file, given the valid
/// message that was found in it, if any.
pub fn handle_config_message(message: Option<ConfigMessage>, own_pid: u32) -> (reaction: (
    Phase,
    Command,
))
    ensures
        reaction == after_message(message, own_pid),
{
    match message {
        None => (Phase::Idle, Command::NotifyChanged),
        Some(m) => match dispatch_action(m.action, own_pid) {
            Dispatch::FocusWindow => (Phase::AwaitingWindow, Command::FindWindow),
            Dispatch::Ignore => (Phase::Idle, Command::Wait),
        },
    }
}

impl ConfigWatcher {
    /// A stopped watcher for the process with id `own_pid`.
    pub fn new(own_pid: u32) -> (watcher: ConfigWatcher)
        ensures
            watcher == (ConfigWatcher {
                phase: Phase::Stopped,
                dedup: Deduplicator { last: None },
                own_pid,
            }),
    {
        ConfigWatcher { phase: Phase::Stopped, dedup: Deduplicator::new(None), own_pid }
    }

    /// Starts a stopped watcher from a baseline: the signal file's metadata
    /// at setup. Says whether the watcher was stopped; one that already
    /// watches stays as it is.
    pub fn start(&mut self, baseline: Option<FileMetadata>) -> (started: bool)
        ensures
            started == (old(self).phase == Phase::Stopped),
            started ==> *final(self) == (ConfigWatcher {
                phase: Phase::Idle,
                dedup: Deduplicator { last: baseline },
                own_pid: old(self).own_pid,
            }),
            !started ==> *final(self) == *old(self),
    {
        if self.phase == Phase::Stopped {
            self.phase = Phase::Idle;
            self.dedup = Deduplicator::new(baseline);
            true
        } else {
            false
        }
    }

    /// Stops the watcher, whatever it was doing.
    pub fn stop(&mut self)
        ensures
            *final(self) == (ConfigWatcher { phase: Phase::Stopped, ..*old(self) }),
    {
        self.phase = Phase::Stopped;
    }

    /// Takes an event and answers with the next command.
    pub fn step(&mut self, event: WatchEvent) -> (command: Command)
        ensures
            (*final(self), command) == next(*old(self), event),
            old(self).phase == Phase::AwaitingContent && (event matches WatchEvent::Content {
                text: Some(t),
                ..
            } && t@.len() == 0) ==> command == Command::NotifyChanged,
    {
        if self.phase == Phase::Stopped {
            return Command::Wait;
        }
        let (phase, command) = match (self.phase, event) {
            (Phase::Idle, WatchEvent::Batch(kinds)) => {
                if batch_has_data_change(&kinds) {
                    (Phase::AwaitingStat, Command::Stat)
                } else {
                    (Phase::Idle, Command::Wait)
                }
            },
            (Phase::AwaitingStat, WatchEvent::Stat(stat)) => {
                if self.dedup.should_process(stat) {
                    (Phase::AwaitingContent, Command::ReadSignal)
                } else {
                    (Phase::Idle, Command::Wait)
                }
            },
            (Phase::AwaitingContent, WatchEvent::Content { text, now }) => {
                let message = match &text {
                    Some(t) => ConfigMessage::read_and_validate_at(
                        t.as_str(),
                        Some(MESSAGE_MAX_AGE_SECS),
                        now,
                    ),
                    None => None,
                };
                handle_config_message(message, self.own_pid)
            },
            (Phase::AwaitingWindow, WatchEvent::WindowFound(found)) => {
                if found {
                    (Phase::AwaitingUnminimize, Command::Unminimize)
                } else {
                    (Phase::Idle, Command::NotifyChanged)
                }
            },
            (Phase::AwaitingUnminimize, WatchEvent::StepDone(_)) => (
                Phase::AwaitingShow,
                Command::Show,
            ),
            (Phase::AwaitingShow, WatchEvent::StepDone(ok)) => {
                if ok {
                    (Phase::AwaitingFocus, Command::SetFocus)
                } else {
                    (Phase::Idle, Command::NotifyChanged)
                }
            },
            (Phase::AwaitingFocus, WatchEvent::StepDone(ok)) => {
                if ok {
                    (Phase::Idle, Command::Wait)
                } else {
                    (Phase::Idle, Command::NotifyChanged)
                }
            },
            _ => (Phase::Idle, Command::Wait),
        };
        self.phase = phase;
        command
    }
}

/// A focus request for this very process starts the window sequence once:
/// look-up, unminimize, show and focus, each once and in this order, whatever
/// unminimizing gave. A request for any other process starts nothing.
pub proof fn focus_runs_once_for_own_pid(
    w: ConfigWatcher,
    text: Option<String>,
    now: u64,
    target: u32,
    unminimized: bool,
)
    requires
        w.phase == Phase::AwaitingContent,
        received(text, now).is_some(),
        received(text, now).unwrap().action == (ConfigAction::Focus { target }),
    ensures
        target == w.own_pid ==> ({
            let (w1, c1) = next(w, WatchEvent::Content { text, now });
            let (w2, c2) = next(w1, WatchEvent::WindowFound(true));
            let (w3, c3) = next(w2, WatchEvent::StepDone(unminimized));
            let (w4, c4) = next(w3, WatchEvent::StepDone(true));
            let (w5, c5) = next(w4, WatchEvent::StepDone(true));
            &&& c1 == Command::FindWindow
            &&& c2 == Command::Unminimize
            &&& c3 == Command::Show
            &&& c4 == Command::SetFocus
            &&& c5 == Command::Wait
            &&& w5.phase == Phase::Idle
        }),
        target != w.own_pid ==> ({
            let (w1, c1) = next(w, WatchEvent::Content { text, now });
            c1 == Command::Wait && w1.phase == Phase::Idle
        }),
{
}

/// One notification per change: where the file holds no valid message, the
/// batch that finds new metadata ends in one notification, and a later batch
/// that finds the same metadata again ends in none.
pub proof fn one_notification_per_change(
    w: ConfigWatcher,
    kinds: Vec<ChangeKind>,
    stat: FileMetadata,
    text: Option<String>,
    now: u64,
    later: Vec<ChangeKind>,
)
    requires
        w.phase == Phase::Idle,
        has_data_change(kinds@),
        w.dedup.last != Some(stat),
        received(text, now).is_none(),
    ensures
        ({
            let (w1, c1) = next(w, WatchEvent::Batch(kinds));
            let (w2, c2) = next(w1, WatchEvent::Stat(Some(stat)));
            let (w3, c3) = next(w2, WatchEvent::Content { text, now });
            let (w4, c4) = next(w3, WatchEvent::Batch(later));
            let (w5, c5) = next(w4, WatchEvent::Stat(Some(stat)));
            &&& c1 == Command::Stat
            &&& c2 == Command::ReadSignal
            &&& c3 == Command::NotifyChanged
            &&& (c4 == Command::Stat || c4 == Command::Wait)
            &&& c5 == Command::Wait
            &&& w5.phase == Phase::Idle
            &&& w5.dedup.last == Some(stat)
        }),
{
}

/// A batch that finds the metadata that was seen last is absorbed: nothing
/// is read, nobody is told, and the watcher is as it was. So any number of
/// further batches for one change give no further notification.
pub proof fn repeated_batch_is_absorbed(
    w: ConfigWatcher,
    kinds: Vec<ChangeKind>,
    stat: Option<FileMetadata>,
)
    requires
        w.phase == Phase::Idle,
        stat.is_none() || w.dedup.last == stat,
    ensures
        ({
            let (w1, c1) = next(w, WatchEvent::Batch(kinds));
            let (w2, c2) = next(w1, WatchEvent::Stat(stat));
            &&& c1 == (if has_data_change(kinds@) {
                Command::Stat
            } else {
                Command::Wait
            })
            &&& c2 == Command::Wait
            &&& w2 == w
        }),
{
}

} // verus!
