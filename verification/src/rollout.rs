//! Rollout storage errors: turning an initialization failure into an
//! actionable, hinted fatal error.
use vstd::prelude::*;
use vstd::string::StringExecFns;
use std::io::ErrorKind;
use crate::error::RuneErr;

verus! {

#[verifier::external_type_specification]
#[verifier::external_body]
pub struct ExAnyhowError(anyhow::Error);

/// The classes of IO failure the rollout hints distinguish. `CorruptOrInvalid`
/// covers invalid data and invalid input; `WrongPathKind` covers a file where
/// a directory was expected and the reverse.
#[derive(Clone, Copy, Debug, PartialEq, Eq, Structural)]
pub enum IoErrorKind {
    PermissionDenied,
    NotFound,
    AlreadyExists,
    CorruptOrInvalid,
    WrongPathKind,
    Other,
}

/// One IO error found in a cause chain.
#[derive(Clone, Debug, PartialEq, Eq)]
pub struct IoCause {
    pub kind: IoErrorKind,
    pub text: String,
}

/// The ghost shape of an [`IoCause`].
pub ghost struct IoCauseView {
    pub kind: IoErrorKind,
    pub text: Seq<char>,
}

impl View for IoCause {
    type V = IoCauseView;

    open spec fn view(&self) -> IoCauseView {
        IoCauseView { kind: self.kind, text: self.text@ }
    }
}

/// The IO errors in an error's cause chain, outermost first.
pub uninterp spec fn io_causes_of(e: &anyhow::Error) -> Seq<IoCauseView>;

/// Relies on anyhow::Error::chain and error downcasting to std::io::Error:
/// walks the cause chain and keeps each IO error's kind and rendering.
#[verifier::external_body]
fn io_causes(err: &anyhow::Error) -> (r: Vec<IoCause>)
    ensures
        r@.len() == io_causes_of(err).len(),
        forall|i: int| 0 <= i < r@.len() ==> r@[i]@ == io_causes_of(err)[i],
{
    let mut v = Vec::new();
    for cause in err.chain() {
        let Some(e) = cause.downcast_ref::<std::io::Error>() else { continue };
        let kind = match e.kind() {
            ErrorKind::PermissionDenied => IoErrorKind::PermissionDenied,
            ErrorKind::NotFound => IoErrorKind::NotFound,
            ErrorKind::AlreadyExists => IoErrorKind::AlreadyExists,
            ErrorKind::InvalidData | ErrorKind::InvalidInput => IoErrorKind::CorruptOrInvalid,
            ErrorKind::IsADirectory | ErrorKind::NotADirectory => IoErrorKind::WrongPathKind,
            _ => IoErrorKind::Other,
        };
        v.push(IoCause { kind, text: e.to_string() });
    }
    v
}

/// The alternate (`{:#}`) rendering of an error: the cause chain in one line.
pub uninterp spec fn display_alt_of(e: &anyhow::Error) -> Seq<char>;

/// Relies on anyhow::Error's alternate Display: the message with its causes.
#[verifier::external_body]
fn error_display_alt(err: &anyhow::Error) -> (r: String)
    ensures
        r@ == display_alt_of(err),
{
    format!("{err:#}")
}

/// The sessions directory under a Rune home.
pub open spec fn sessions_dir_view(home: Seq<char>) -> Seq<char> {
    home + "/sessions"@
}

/// The hint offered for each mappable IO failure during session init.
pub open spec fn rollout_hint(kind: IoErrorKind, home: Seq<char>) -> Seq<char> {
    match kind {
        IoErrorKind::PermissionDenied => "Rune cannot access session files at "@ + sessions_dir_view(
            home,
        )
            + " (permission denied). If sessions were created using sudo, fix ownership: sudo chown -R $(whoami) "@
            + home,
        IoErrorKind::NotFound => "Session storage missing at "@ + sessions_dir_view(home)
            + ". Create the directory or choose a different Rune home."@,
        IoErrorKind::AlreadyExists => "Session storage path "@ + sessions_dir_view(home)
            + " is blocked by an existing file. Remove or rename it so Rune can create sessions."@,
        IoErrorKind::CorruptOrInvalid => "Session data under "@ + sessions_dir_view(home)
            + " looks corrupt or unreadable. Clearing the sessions directory may help (this will remove saved threads)."@,
        IoErrorKind::WrongPathKind => "Session storage path "@ + sessions_dir_view(home)
            + " has an unexpected type. Ensure it is a directory Rune can use for session files."@,
        IoErrorKind::Other => Seq::<char>::empty(),
    }
}

/// The full fatal message for one mappable cause.
pub open spec fn rollout_error_message(c: IoCauseView, home: Seq<char>) -> Seq<char> {
    rollout_hint(c.kind, home) + " (underlying error: "@ + c.text + ")"@
}

fn append_sessions_dir(s: &mut String, rune_home: &str)
    ensures
        final(s)@ == old(s)@ + sessions_dir_view(rune_home@),
{
    s.append(rune_home);
    s.append("/sessions");
}

/// Map one IO cause to a hinted fatal error; `None` when the kind carries no
/// hint and the search should continue.
pub fn map_rollout_io_error(cause: &IoCause, rune_home: &str) -> (r: Option<RuneErr>)
    ensures
        cause.kind == IoErrorKind::Other ==> r is None,
        cause.kind != IoErrorKind::Other ==> (r matches Some(e) && e matches RuneErr::Fatal(m)
            && m@ == rollout_error_message(cause@, rune_home@)),
{
    let mut m = String::new();
    match cause.kind {
        IoErrorKind::PermissionDenied => {
            m.append("Rune cannot access session files at ");
            append_sessions_dir(&mut m, rune_home);
            m.append(
                " (permission denied). If sessions were created using sudo, fix ownership: sudo chown -R $(whoami) ",
            );
            m.append(rune_home);
        },
        IoErrorKind::NotFound => {
            m.append("Session storage missing at ");
            append_sessions_dir(&mut m, rune_home);
            m.append(". Create the directory or choose a different Rune home.");
        },
        IoErrorKind::AlreadyExists => {
            m.append("Session storage path ");
            append_sessions_dir(&mut m, rune_home);
            m.append(" is blocked by an existing file. Remove or rename it so Rune can create sessions.");
        },
        IoErrorKind::CorruptOrInvalid => {
            m.append("Session data under ");
            append_sessions_dir(&mut m, rune_home);
            m.append(
                " looks corrupt or unreadable. Clearing the sessions directory may help (this will remove saved threads).",
            );
        },
        IoErrorKind::WrongPathKind => {
            m.append("Session storage path ");
            append_sessions_dir(&mut m, rune_home);
            m.append(" has an unexpected type. Ensure it is a directory Rune can use for session files.");
        },
        IoErrorKind::Other => {
            return None;
        },
    }
    m.append(" (underlying error: ");
    m.append(cause.text.as_str());
    m.append(")");
    Some(RuneErr::Fatal(m))
}

/// The first cause in the chain that a hint exists for.
pub open spec fn first_mappable(cs: Seq<IoCauseView>) -> Option<IoCauseView>
    decreases cs.len(),
{
    if cs.len() == 0 {
        None
    } else if cs[0].kind != IoErrorKind::Other {
        Some(cs[0])
    } else {
        first_mappable(cs.drop_first())
    }
}

proof fn lemma_first_mappable_at(cs: Seq<IoCauseView>, i: int)
    requires
        0 <= i <= cs.len(),
        forall|j: int| 0 <= j < i ==> cs[j].kind == IoErrorKind::Other,
    ensures
        first_mappable(cs) == first_mappable(cs.skip(i)),
    decreases i,
{
    if i > 0 {
        lemma_first_mappable_at(cs, i - 1);
        assert(cs.skip(i - 1).len() > 0);
        assert(cs.skip(i - 1)[0] == cs[i - 1]);
        assert(cs.skip(i - 1).drop_first() =~= cs.skip(i));
    } else {
        assert(cs.skip(0) =~= cs);
    }
}

/// What the session-init mapping owes: the hint for the first mappable IO
/// cause, else a generic fatal message carrying the error's rendering.
pub open spec fn session_init_error_ok(
    causes: Seq<IoCauseView>,
    display: Seq<char>,
    home: Seq<char>,
    r: RuneErr,
) -> bool {
    match first_mappable(causes) {
        Some(c) => r matches RuneErr::Fatal(m) && m@ == rollout_error_message(c, home),
        None => r matches RuneErr::Fatal(m) && m@ == "Failed to initialize session: "@ + display,
    }
}

/// Map a session-initialization failure to a fatal error with the most
/// actionable hint available.
pub fn map_session_init_error(err: &anyhow::Error, rune_home: &str) -> (r: RuneErr)
    ensures
        session_init_error_ok(io_causes_of(err), display_alt_of(err), rune_home@, r),
{
    let causes = io_causes(err);
    let n = causes.len();
    for i in 0..n
        invariant
            n == causes@.len(),
            causes@.len() == io_causes_of(err).len(),
            forall|k: int| 0 <= k < causes@.len() ==> causes@[k]@ == io_causes_of(err)[k],
            forall|j: int| 0 <= j < i ==> io_causes_of(err)[j].kind == IoErrorKind::Other,
    {
        if let Some(mapped) = map_rollout_io_error(&causes[i], rune_home) {
            proof {
                lemma_first_mappable_at(io_causes_of(err), i as int);
                assert(io_causes_of(err).skip(i as int)[0] == io_causes_of(err)[i as int]);
            }
            return mapped;
        }
        proof {
            assert(causes@[i as int]@ == io_causes_of(err)[i as int]);
        }
    }
    proof {
        lemma_first_mappable_at(io_causes_of(err), n as int);
        assert(io_causes_of(err).skip(n as int).len() == 0);
    }
    let mut m = String::new();
    m.append("Failed to initialize session: ");
    let rendered = error_display_alt(err);
    m.append(rendered.as_str());
    RuneErr::Fatal(m)
}

} // verus!
