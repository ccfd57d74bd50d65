//! The arguments of `exec`'s subcommands, as the command line parser hands them over.
use vstd::prelude::*;

verus! {

/// The arguments of `resume` as they were written.
#[derive(Debug, Clone, PartialEq, Eq)]
pub struct ResumeArgsRaw {
    pub session_id: Option<String>,
    pub last: bool,
    pub all: bool,
    pub images: Vec<String>,
    pub prompt: Option<String>,
}

/// The arguments of `resume`.
#[derive(Debug, Clone, PartialEq, Eq)]
pub struct ResumeArgs {
    pub session_id: Option<String>,
    pub last: bool,
    pub all: bool,
    pub images: Vec<String>,
    pub prompt: Option<String>,
}

/// A subcommand of `exec`.
#[derive(Debug, Clone, PartialEq, Eq)]
pub enum Command {
    Resume(ResumeArgs),
}

/// With `--last` and no prompt, the one positional argument is the prompt,
/// not a session id.
impl From<ResumeArgsRaw> for ResumeArgs {
    fn from(raw: ResumeArgsRaw) -> (r: ResumeArgs) {
        let (session_id, prompt) = if raw.last && raw.prompt.is_none() {
            (None, raw.session_id)
        } else {
            (raw.session_id, raw.prompt)
        };
        ResumeArgs { session_id, last: raw.last, all: raw.all, images: raw.images, prompt }
    }
}

impl vstd::std_specs::convert::FromSpecImpl<ResumeArgsRaw> for ResumeArgs {
    open spec fn obeys_from_spec() -> bool {
        true
    }

    open spec fn from_spec(raw: ResumeArgsRaw) -> ResumeArgs {
        if raw.last && raw.prompt is None {
            ResumeArgs {
                session_id: None,
                last: raw.last,
                all: raw.all,
                images: raw.images,
                prompt: raw.session_id,
            }
        } else {
            ResumeArgs {
                session_id: raw.session_id,
                last: raw.last,
                all: raw.all,
                images: raw.images,
                prompt: raw.prompt,
            }
        }
    }
}

} // verus!
