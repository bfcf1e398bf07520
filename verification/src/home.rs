//! Resolving the Rune home directory: the decision from an environment value
//! and what the filesystem said about it.
use vstd::prelude::*;
use vstd::string::StrSliceExecFns;
use vstd::string::StringExecFns;
use crate::rollout::IoErrorKind;

verus! {

/// What probing the path named by the environment variable found.
#[derive(Clone, Debug, PartialEq, Eq)]
pub enum PathProbe {
    /// Nothing exists at the path.
    Missing,
    /// Something exists but it is not a directory.
    NotADirectory,
    /// The path is a directory.
    Directory,
    /// The probe itself failed: the failure's class and rendering.
    Unreadable { kind: IoErrorKind, text: String },
}

/// Where the home resolution ends up.
#[derive(Clone, Debug, PartialEq, Eq)]
pub enum HomeOutcome {
    /// Use the environment path, canonicalized by the caller.
    CanonicalizeEnvPath(String),
    /// No override: the given default path, which need not exist yet.
    DefaultPath(String),
}

/// A failed resolution: its class and the message shown.
#[derive(Clone, Debug, PartialEq, Eq)]
pub struct HomeError {
    pub kind: IoErrorKind,
    pub message: String,
}

/// An environment value counts only when it is set and non-empty.
pub fn env_is_set(val: Option<&str>) -> (r: bool)
    ensures
        r == (match val {
            Some(v) => v@.len() > 0,
            None => false,
        }),
{
    match val {
        Some(v) => !v.is_empty(),
        None => false,
    }
}

pub open spec fn quoted(v: Seq<char>) -> Seq<char> {
    "\""@ + v + "\""@
}

/// Decide the Rune home. A set environment value must name an existing
/// directory; without one, the home directory's `.rune` is used unprobed.
pub fn find_rune_home_from_env(
    rune_home_env: Option<&str>,
    probe: &PathProbe,
    home_dir: Option<&str>,
) -> (r: Result<HomeOutcome, HomeError>)
    ensures
        (match rune_home_env {
            Some(val) => match probe {
                PathProbe::Missing => r matches Err(e) && e.kind == IoErrorKind::NotFound
                    && e.message@ == "RUNE_HOME points to "@ + quoted(val@)
                    + ", but that path does not exist"@,
                PathProbe::Unreadable { kind, text } => r matches Err(e) && e.kind == *kind
                    && e.message@ == "failed to read RUNE_HOME "@ + quoted(val@) + ": "@ + text@,
                PathProbe::NotADirectory => r matches Err(e) && e.kind
                    == IoErrorKind::CorruptOrInvalid && e.message@ == "RUNE_HOME points to "@
                    + quoted(val@) + ", but that path is not a directory"@,
                PathProbe::Directory => r matches Ok(o) && o matches
                    HomeOutcome::CanonicalizeEnvPath(p) && p@ == val@,
            },
            None => match home_dir {
                Some(h) => r matches Ok(o) && o matches HomeOutcome::DefaultPath(p) && p@ == h@
                    + "/.rune"@,
                None => r matches Err(e) && e.kind == IoErrorKind::NotFound && e.message@
                    == "Could not find home directory"@,
            },
        }),
{
    match rune_home_env {
        Some(val) => match probe {
            PathProbe::Missing => {
                let mut m = String::new();
                m.append("RUNE_HOME points to ");
                m.append("\"");
                m.append(val);
                m.append("\"");
                m.append(", but that path does not exist");
                Err(HomeError { kind: IoErrorKind::NotFound, message: m })
            },
            PathProbe::Unreadable { kind, text } => {
                let mut m = String::new();
                m.append("failed to read RUNE_HOME ");
                m.append("\"");
                m.append(val);
                m.append("\"");
                m.append(": ");
                m.append(text.as_str());
                Err(HomeError { kind: *kind, message: m })
            },
            PathProbe::NotADirectory => {
                let mut m = String::new();
                m.append("RUNE_HOME points to ");
                m.append("\"");
                m.append(val);
                m.append("\"");
                m.append(", but that path is not a directory");
                Err(HomeError { kind: IoErrorKind::CorruptOrInvalid, message: m })
            },
            PathProbe::Directory => Ok(HomeOutcome::CanonicalizeEnvPath(val.to_owned())),
        },
        None => match home_dir {
            Some(h) => {
                let mut p = String::new();
                p.append(h);
                p.append("/.rune");
                Ok(HomeOutcome::DefaultPath(p))
            },
            None => Err(
                HomeError {
                    kind: IoErrorKind::NotFound,
                    message: "Could not find home directory".to_owned(),
                },
            ),
        },
    }
}

} // verus!
