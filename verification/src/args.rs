//! The process arguments after parsing, and what they mean for logging.

use vstd::prelude::*;

verus! {

/// A log level, from the most verbose to the least.
#[derive(Debug, Clone, Copy, PartialEq, Eq, Structural)]
pub enum Level {
    Trace,
    Debug,
    Info,
    Warn,
    Error,
}

/// The parsed arguments of the process.
#[derive(Debug)]
pub struct Args {
    /// Project directory; the working directory where none is given.
    pub project: Option<String>,
    /// Debug mode: sets the log level to `Debug`.
    pub debug: bool,
    /// The log level asked for, or the default.
    pub log_level: Level,
    /// Log file; logs go to the console only where none is given.
    pub log_file: Option<String>,
}

/// How logging is to be set up.
#[derive(Debug, Clone, Copy, PartialEq, Eq, Structural)]
pub struct LogPlan {
    /// The level in force.
    pub level: Level,
    /// Whether the arguments fix the level. Where they do not, a filter
    /// from the environment goes first, and `level` is the fallback.
    pub from_arguments: bool,
    /// Whether lines carry file names and line numbers, and spans are
    /// reported when they close.
    pub show_source: bool,
    /// Whether logs also go to the log file.
    pub to_file: bool,
}

/// How much a level lets through: the more verbose, the greater.
pub open spec fn verbosity(level: Level) -> int {
    match level {
        Level::Error => 1,
        Level::Warn => 2,
        Level::Info => 3,
        Level::Debug => 4,
        Level::Trace => 5,
    }
}

/// The level without a `--log-level` argument: `Debug` in a debug build,
/// `Warn` in a release build.
pub open spec fn default_level(debug_build: bool) -> Level {
    if debug_build {
        Level::Debug
    } else {
        Level::Warn
    }
}

impl Level {
    /// How much the level lets through, from 1 for `Error` to 5 for `Trace`.
    pub fn verbosity(self) -> (rank: u8)
        ensures
            rank == verbosity(self),
    {
        match self {
            Level::Error => 1,
            Level::Warn => 2,
            Level::Info => 3,
            Level::Debug => 4,
            Level::Trace => 5,
        }
    }
}

impl Args {
    /// The level in force: debug mode overrides the level asked for.
    pub open spec fn effective_level(self) -> Level {
        if self.debug {
            Level::Debug
        } else {
            self.log_level
        }
    }

    /// The logging set-up that the arguments ask for.
    pub open spec fn plan(self, debug_build: bool) -> LogPlan {
        LogPlan {
            level: self.effective_level(),
            from_arguments: self.debug || self.log_level != default_level(debug_build),
            show_source: verbosity(self.effective_level()) <= verbosity(Level::Debug),
            to_file: self.log_file.is_some(),
        }
    }

    /// The arguments, from their parsed values.
    pub fn new(
        project: Option<String>,
        debug: bool,
        log_level: Level,
        log_file: Option<String>,
    ) -> (args: Args)
        ensures
            args.project == project,
            args.debug == debug,
            args.log_level == log_level,
            args.log_file == log_file,
    {
        Args { project, debug, log_level, log_file }
    }

    /// The level without a `--log-level` argument.
    pub fn default_log_level(debug_build: bool) -> (level: Level)
        ensures
            level == default_level(debug_build),
    {
        if debug_build {
            Level::Debug
        } else {
            Level::Warn
        }
    }

    /// The level in force.
    pub fn effective_log_level(&self) -> (level: Level)
        ensures
            level == self.effective_level(),
    {
        if self.debug {
            Level::Debug
        } else {
            self.log_level
        }
    }

    /// The logging set-up that the arguments ask for, in a debug or a
    /// release build.
    pub fn log_plan(&self, debug_build: bool) -> (plan: LogPlan)
        ensures
            plan == self.plan(debug_build),
    {
        let level = self.effective_log_level();
        LogPlan {
            level,
            from_arguments: self.debug || self.log_level != Args::default_log_level(debug_build),
            show_source: level.verbosity() <= Level::Debug.verbosity(),
            to_file: self.log_file.is_some(),
        }
    }
}

/// Why a directory cannot be used.
#[derive(Debug, Clone, Copy, PartialEq, Eq, Structural)]
pub enum DirectoryError {
    /// Nothing exists at the path.
    Missing,
    /// What exists at the path is no directory.
    NotADirectory,
    /// No file can be created in the directory.
    NotWritable,
}

/// The verdict on a directory, from what was found out about it. The first
/// failing check decides, in the order: exists, is a directory, is writable.
pub open spec fn directory_verdict(exists: bool, is_dir: bool, writable: bool) -> Result<
    (),
    DirectoryError,
> {
    if !exists {
        Err(DirectoryError::Missing)
    } else if !is_dir {
        Err(DirectoryError::NotADirectory)
    } else if !writable {
        Err(DirectoryError::NotWritable)
    } else {
        Ok(())
    }
}

/// Decides whether a directory can be used, given whether the path exists,
/// whether it is a directory, and whether a file could be created in it.
pub fn validate_directory(exists: bool, is_dir: bool, writable: bool) -> (verdict: Result<
    (),
    DirectoryError,
>)
    ensures
        verdict == directory_verdict(exists, is_dir, writable),
{
    if !exists {
        return Err(DirectoryError::Missing);
    }
    if !is_dir {
        return Err(DirectoryError::NotADirectory);
    }
    if !writable {
        return Err(DirectoryError::NotWritable);
    }
    Ok(())
}

} // verus!
