//! What the process tells of itself.

use crate::args::Args;
use crate::state::AppStates;
use vstd::prelude::*;

verus! {

/// The answer to a request for the program's particulars.
#[derive(Debug)]
pub struct PkgInfoResponse {
    pub version: String,
    pub initialized: bool,
    pub locale: String,
    /// The project directory given on the command line; empty where none was.
    pub prjarg: String,
    pub pid: u32,
}

/// The text in an optional string, and the fallback where there is none.
pub open spec fn text_or(text: Option<String>, fallback: Seq<char>) -> Seq<char> {
    match text {
        Some(t) => t@,
        None => fallback,
    }
}

/// Puts the answer together: the locale falls back to `en`, the project
/// directory to the empty string.
pub fn get_soft_info(
    states: &AppStates,
    args: &Args,
    version: String,
    locale: Option<String>,
    pid: u32,
) -> (info: PkgInfoResponse)
    ensures
        info.version@ == version@,
        info.initialized == states.initialized(),
        info.locale@ == text_or(locale, "en"@),
        info.prjarg@ == text_or(args.project, Seq::empty()),
        info.pid == pid,
{
    let locale = match locale {
        Some(found) => found,
        None => "en".to_owned(),
    };
    let prjarg = match &args.project {
        Some(project) => project.clone(),
        None => String::new(),
    };
    PkgInfoResponse { version, initialized: states.is_initialized(), locale, prjarg, pid }
}

} // verus!
