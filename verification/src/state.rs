//! The state that one process keeps for signalling: whether start-up is
//! done, and the path of the signal file, which is set once.

use crate::message::{is_encoding, validated, ConfigAction, ConfigMessage};
use vstd::prelude::*;

verus! {

/// Why a signalling operation was not carried out.
#[derive(Debug, Clone, Copy, PartialEq, Eq, Structural)]
pub enum SignalError {
    /// The signal file's path was asked for before it was set.
    PathUninitialized,
    /// Something that is set once was set a second time.
    AlreadyInitialized,
    /// The message could not be written as text. No message is known to
    /// meet this.
    Encode,
}

/// A full replacement of a file's content, for the program to carry out.
#[derive(Debug)]
pub struct FileWrite {
    pub path: String,
    pub content: String,
}

/// The signalling state of one process.
#[derive(Debug)]
pub struct AppStates {
    initialized: bool,
    config_watch_path: Option<String>,
}

impl AppStates {
    /// Whether start-up is marked as done.
    pub closed spec fn initialized(self) -> bool {
        self.initialized
    }

    /// The signal file's path, once it is set.
    pub closed spec fn watch_path(self) -> Option<Seq<char>> {
        match self.config_watch_path {
            Some(path) => Some(path@),
            None => None,
        }
    }

    /// The state at process start: start-up not done, no path set.
    pub fn new() -> (states: AppStates)
        ensures
            !states.initialized(),
            states.watch_path().is_none(),
    {
        AppStates { initialized: false, config_watch_path: None }
    }

    /// Whether start-up is marked as done.
    pub fn is_initialized(&self) -> (done: bool)
        ensures
            done == self.initialized(),
    {
        self.initialized
    }

    /// Marks start-up as done or not done.
    pub fn set_initialized(&mut self, value: bool)
        ensures
            final(self).initialized() == value,
            final(self).watch_path() == old(self).watch_path(),
    {
        self.initialized = value;
    }

    /// Sets the signal file's path. The path is set once: a second call is
    /// refused and changes nothing.
    pub fn set_config_watch_path(&mut self, path: String) -> (set: Result<(), SignalError>)
        ensures
            final(self).initialized() == old(self).initialized(),
            old(self).watch_path().is_none() ==> set.is_ok() && final(self).watch_path() == Some(
                path@,
            ),
            old(self).watch_path().is_some() ==> set == Err::<(), SignalError>(
                SignalError::AlreadyInitialized,
            ) && final(self).watch_path() == old(self).watch_path(),
    {
        if self.config_watch_path.is_some() {
            return Err(SignalError::AlreadyInitialized);
        }
        self.config_watch_path = Some(path);
        Ok(())
    }

    /// The signal file's path, if it is set.
    pub fn get_config_watch_path(&self) -> (path: Option<String>)
        ensures
            path.is_some() == self.watch_path().is_some(),
            path matches Some(p) ==> self.watch_path() == Some(p@),
    {
        match &self.config_watch_path {
            Some(path) => Some(path.clone()),
            None => None,
        }
    }

    /// The write that clears the signal file: its content becomes empty,
    /// which every watcher sees as a change of data.
    pub fn touch_config_file(&self) -> (write: Result<FileWrite, SignalError>)
        ensures
            self.watch_path().is_none() ==> write == Err::<FileWrite, SignalError>(
                SignalError::PathUninitialized,
            ),
            self.watch_path().is_some() ==> write.is_ok(),
            write matches Ok(w) ==> self.watch_path() == Some(w.path@) && w.content@.len() == 0,
    {
        match self.get_config_watch_path() {
            None => Err(SignalError::PathUninitialized),
            Some(path) => Ok(FileWrite { path, content: String::new() }),
        }
    }

    /// The write that puts a message into the signal file.
    pub fn write_message(&self, message: ConfigMessage) -> (write: Result<FileWrite, SignalError>)
        ensures
            self.watch_path().is_none() ==> write == Err::<FileWrite, SignalError>(
                SignalError::PathUninitialized,
            ),
            self.watch_path().is_some() ==> write.is_ok(),
            write matches Ok(w) ==> self.watch_path() == Some(w.path@) && is_encoding(
                w.content@,
                message,
            ),
    {
        let path = match self.get_config_watch_path() {
            None => return Err(SignalError::PathUninitialized),
            Some(path) => path,
        };
        match message.to_json() {
            Ok(content) => Ok(FileWrite { path, content }),
            Err(_) => Err(SignalError::Encode),
        }
    }

    /// The write that puts an action into the signal file, stamped with the
    /// current time.
    pub fn write_config_action(&self, action: ConfigAction) -> (write: Result<
        FileWrite,
        SignalError,
    >)
        ensures
            self.watch_path().is_none() ==> write == Err::<FileWrite, SignalError>(
                SignalError::PathUninitialized,
            ),
            self.watch_path().is_some() ==> write.is_ok(),
            write matches Ok(w) ==> self.watch_path() == Some(w.path@) && exists|ctime: u64|
                #[trigger] is_encoding(w.content@, ConfigMessage { ctime, action }),
    {
        if self.config_watch_path.is_none() {
            return Err(SignalError::PathUninitialized);
        }
        let message = ConfigMessage::new(action);
        let write = self.write_message(message);
        proof {
            assert(is_encoding(
                write.unwrap().content@,
                ConfigMessage { ctime: message.ctime, action },
            ));
        }
        write
    }

    /// The write that puts a focus request for process `pid` into the signal
    /// file.
    pub fn write_focus_action(&self, pid: u32) -> (write: Result<FileWrite, SignalError>)
        ensures
            self.watch_path().is_none() ==> write == Err::<FileWrite, SignalError>(
                SignalError::PathUninitialized,
            ),
            self.watch_path().is_some() ==> write.is_ok(),
            write matches Ok(w) ==> self.watch_path() == Some(w.path@) && exists|ctime: u64|
                #[trigger] is_encoding(
                    w.content@,
                    ConfigMessage { ctime, action: ConfigAction::Focus { target: pid } },
                ),
    {
        self.write_config_action(ConfigAction::focus(pid))
    }

    /// The valid message in the signal file's content, read by the system
    /// clock. Refused while the path is not set.
    pub fn read_config_message(&self, content: &str, max_age_secs: Option<u64>) -> (message:
        Result<Option<ConfigMessage>, SignalError>)
        ensures
            self.watch_path().is_none() ==> message == Err::<Option<ConfigMessage>, SignalError>(
                SignalError::PathUninitialized,
            ),
            self.watch_path().is_some() ==> message.is_ok(),
            message matches Ok(found) ==> exists|now: u64|
                found == #[trigger] validated(content@, max_age_secs, now),
    {
        if self.config_watch_path.is_none() {
            return Err(SignalError::PathUninitialized);
        }
        Ok(ConfigMessage::read_and_validate(content, max_age_secs))
    }
}

/// A handle that is set once: empty at first, and filled by the first call
/// of `init`.
#[derive(Debug)]
pub struct AppHandleState<H> {
    inner: Option<H>,
}

impl<H> AppHandleState<H> {
    /// The handle, once it is set.
    pub closed spec fn handle(self) -> Option<H> {
        self.inner
    }

    /// A state without a handle.
    pub fn new() -> (state: AppHandleState<H>)
        ensures
            state.handle().is_none(),
    {
        AppHandleState { inner: None }
    }

    /// Whether the handle is set.
    pub fn is_initialized(&self) -> (set: bool)
        ensures
            set == self.handle().is_some(),
    {
        self.inner.is_some()
    }

    /// Sets the handle. A second call is refused and changes nothing.
    pub fn init(&mut self, handle: H) -> (set: Result<(), SignalError>)
        ensures
            old(self).handle().is_none() ==> set.is_ok() && final(self).handle() == Some(handle),
            old(self).handle().is_some() ==> set == Err::<(), SignalError>(
                SignalError::AlreadyInitialized,
            ) && final(self).handle() == old(self).handle(),
    {
        if self.inner.is_some() {
            return Err(SignalError::AlreadyInitialized);
        }
        self.inner = Some(handle);
        Ok(())
    }

    /// The handle, if it is set.
    pub fn get(&self) -> (handle: Option<&H>)
        ensures
            handle.is_some() == self.handle().is_some(),
            handle matches Some(h) ==> self.handle() == Some(*h),
    {
        self.inner.as_ref()
    }
}

} // verus!
