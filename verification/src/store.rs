//! The producer's side: the writes that signal a change of configuration or
//! ask a running instance for the focus, and the check that a process id
//! still denotes an instance of this very program.

use crate::message::{is_encoding, ConfigAction, ConfigMessage};
use crate::state::{AppStates, FileWrite, SignalError};
use vstd::prelude::*;

verus! {

/// The path of a process's executable: as the system gave it, and
/// canonicalized where that succeeded.
#[derive(Debug)]
pub struct ExePath {
    pub raw: String,
    pub canonical: Option<String>,
}

impl ExePath {
    /// The path that counts: the canonical one where there is one.
    pub open spec fn resolved(self) -> Seq<char> {
        match self.canonical {
            Some(path) => path@,
            None => self.raw@,
        }
    }

    /// The path that counts.
    pub fn resolved_path(&self) -> (path: &String)
        ensures
            path@ == self.resolved(),
    {
        match &self.canonical {
            Some(path) => path,
            None => &self.raw,
        }
    }
}

/// Whether a target process is an instance of this program: both
/// executables are known and their resolved paths are equal. `None` stands
/// for an executable that could not be told: no such process, or no path.
pub open spec fn same_program(current: Option<ExePath>, target: Option<ExePath>) -> bool {
    current.is_some() && target.is_some() && current.unwrap().resolved()
        == target.unwrap().resolved()
}

/// Whether a focus request may be sent to a process, given this process's
/// executable and the target's.
pub fn is_valid_pid(current: &Option<ExePath>, target: &Option<ExePath>) -> (valid: bool)
    ensures
        valid == same_program(*current, *target),
{
    let current = match current {
        Some(exe) => exe,
        None => return false,
    };
    let target = match target {
        Some(exe) => exe,
        None => return false,
    };
    *target.resolved_path() == *current.resolved_path()
}

/// The write that signals a change of configuration: it clears the signal
/// file.
pub fn touch_db_config(states: &AppStates) -> (write: Result<FileWrite, SignalError>)
    ensures
        states.watch_path().is_none() ==> write == Err::<FileWrite, SignalError>(
            SignalError::PathUninitialized,
        ),
        states.watch_path().is_some() ==> write.is_ok(),
        write matches Ok(w) ==> states.watch_path() == Some(w.path@) && w.content@.len() == 0,
{
    states.touch_config_file()
}

/// The write that asks process `pid` for the focus.
pub fn touch_focus_config(states: &AppStates, pid: u32) -> (write: Result<FileWrite, SignalError>)
    ensures
        states.watch_path().is_none() ==> write == Err::<FileWrite, SignalError>(
            SignalError::PathUninitialized,
        ),
        states.watch_path().is_some() ==> write.is_ok(),
        write matches Ok(w) ==> states.watch_path() == Some(w.path@) && exists|ctime: u64|
            #[trigger] is_encoding(
                w.content@,
                ConfigMessage { ctime, action: ConfigAction::Focus { target: pid } },
            ),
{
    states.write_focus_action(pid)
}

/// Signals a change of configuration to every watching process.
pub fn emit_cfg_changed(states: &AppStates) -> (write: Result<FileWrite, SignalError>)
    ensures
        states.watch_path().is_none() ==> write == Err::<FileWrite, SignalError>(
            SignalError::PathUninitialized,
        ),
        states.watch_path().is_some() ==> write.is_ok(),
        write matches Ok(w) ==> states.watch_path() == Some(w.path@) && w.content@.len() == 0,
{
    touch_db_config(states)
}

/// Asks process `pid` for the focus, if it is an instance of this program.
/// `None` means that the request is not sent and nothing is to be written:
/// the target is no valid one, or the signal file's path is not set.
pub fn emit_focus(
    states: &AppStates,
    pid: u32,
    current: &Option<ExePath>,
    target: &Option<ExePath>,
) -> (write: Option<FileWrite>)
    ensures
        write.is_some() == (same_program(*current, *target) && states.watch_path().is_some()),
        write matches Some(w) ==> states.watch_path() == Some(w.path@) && exists|ctime: u64|
            #[trigger] is_encoding(
                w.content@,
                ConfigMessage { ctime, action: ConfigAction::Focus { target: pid } },
            ),
{
    if !is_valid_pid(current, target) {
        return None;
    }
    match touch_focus_config(states, pid) {
        Ok(write) => Some(write),
        Err(_) => None,
    }
}

} // verus!
