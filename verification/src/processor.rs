//! The JSON-RPC message processor's decisions: initialization, tool routing,
//! and correlating cancellations back to threads.
use vstd::prelude::*;
use vstd::string::StrSliceExecFns;
use vstd::string::StringExecFns;
use crate::protocol::ThreadId;
use crate::text::str_eq;

verus! {

/// What the server says about itself on `initialize`.
#[derive(Clone, Debug, PartialEq, Eq)]
pub struct InitializeInfo {
    pub server_name: String,
    pub title: String,
    pub version: String,
    pub user_agent_suffix: String,
}

/// The suffix recorded for the user agent: `{name}; {version}`.
pub open spec fn user_agent_suffix_view(name: Seq<char>, version: Seq<char>) -> Seq<char> {
    name + "; "@ + version
}

/// Answer an `initialize` request: it may come only once, and it records the
/// client's identity in the user agent.
pub fn initialize_result(
    already_initialized: bool,
    client_name: &str,
    client_version: &str,
    server_version: String,
) -> (r: Result<InitializeInfo, String>)
    ensures
        already_initialized ==> (r matches Err(m) && m@ == "initialize called more than once"@),
        !already_initialized ==> (r matches Ok(info) && info.server_name@ == "rune-mcp-server"@
            && info.title@ == "Rune"@ && info.version == server_version && info.user_agent_suffix@
            == user_agent_suffix_view(client_name@, client_version@)),
{
    if already_initialized {
        return Err("initialize called more than once".to_owned());
    }
    let mut suffix = String::new();
    suffix.append(client_name);
    suffix.append("; ");
    suffix.append(client_version);
    Ok(
        InitializeInfo {
            server_name: "rune-mcp-server".to_owned(),
            title: "Rune".to_owned(),
            version: server_version,
            user_agent_suffix: suffix,
        },
    )
}

/// Which handler a tool call goes to.
#[derive(Clone, Copy, Debug, PartialEq, Eq, Structural)]
pub enum ToolRoute {
    RuneTool,
    RuneReplyTool,
    Unknown,
}

/// Route a tool call by name.
pub fn route_tool_call(name: &str) -> (r: ToolRoute)
    ensures
        name@ == "rune"@ ==> r == ToolRoute::RuneTool,
        name@ == "rune-reply"@ ==> r == ToolRoute::RuneReplyTool,
        name@ != "rune"@ && name@ != "rune-reply"@ ==> r == ToolRoute::Unknown,
{
    proof {
        reveal_strlit("rune");
        reveal_strlit("rune-reply");
        assert("rune"@.len() == 4);
        assert("rune-reply"@.len() == 10);
    }
    if str_eq(name, "rune") {
        ToolRoute::RuneTool
    } else if str_eq(name, "rune-reply") {
        ToolRoute::RuneReplyTool
    } else {
        ToolRoute::Unknown
    }
}

/// The error text for a tool nobody serves.
pub fn unknown_tool_message(name: &str) -> (r: String)
    ensures
        r@ == "Unknown tool '"@ + name@ + "'"@,
{
    let mut m = String::new();
    m.append("Unknown tool '");
    m.append(name);
    m.append("'");
    m
}

/// The error text for an unroutable request method.
pub fn method_not_found_message(method: &str) -> (r: String)
    ensures
        r@ == "method not found: "@ + method@,
{
    let mut m = String::new();
    m.append("method not found: ");
    m.append(method);
    m
}

/// How the arguments of a `rune` tool call came in, after the transport
/// decoded them.
#[derive(Clone, Debug, PartialEq, Eq)]
pub enum RuneToolArgs {
    /// No arguments at all.
    Missing,
    /// Arguments that did not parse; the decoder's rendering of why.
    Unparseable(String),
    /// Arguments that parsed but whose configuration failed to load.
    BadConfig(String),
    /// A usable call: the initial prompt.
    Ready { prompt: String },
}

/// Decide a `rune` tool call: a usable call starts a session with its
/// prompt; everything else is answered with the exact error text.
pub fn plan_rune_tool_call(args: RuneToolArgs) -> (r: Result<String, String>)
    ensures
        (match args {
            RuneToolArgs::Missing => r matches Err(m) && m@
                == "Missing arguments for rune tool-call; the `prompt` field is required."@,
            RuneToolArgs::Unparseable(e) => r matches Err(m) && m@
                == "Failed to parse configuration for Rune tool: "@ + e@,
            RuneToolArgs::BadConfig(e) => r matches Err(m) && m@
                == "Failed to load Rune configuration from overrides: "@ + e@,
            RuneToolArgs::Ready { prompt } => r == Ok::<String, String>(prompt),
        }),
{
    match args {
        RuneToolArgs::Missing => Err(
            "Missing arguments for rune tool-call; the `prompt` field is required.".to_owned(),
        ),
        RuneToolArgs::Unparseable(e) => {
            let mut m = String::new();
            m.append("Failed to parse configuration for Rune tool: ");
            m.append(e.as_str());
            Err(m)
        },
        RuneToolArgs::BadConfig(e) => {
            let mut m = String::new();
            m.append("Failed to load Rune configuration from overrides: ");
            m.append(e.as_str());
            Err(m)
        },
        RuneToolArgs::Ready { prompt } => Ok(prompt),
    }
}

/// How the arguments of a `rune-reply` tool call came in.
#[derive(Clone, Debug, PartialEq, Eq)]
pub enum RuneReplyArgs {
    Missing,
    Unparseable(String),
    /// The thread id did not parse; the decoder's rendering of why.
    BadThreadId(String),
    /// A usable reply: the addressed thread and the prompt.
    Ready { thread_id: ThreadId, prompt: String },
}

/// Decide a `rune-reply` tool call: a usable reply is routed to its thread
/// when that thread is live; everything else gets the exact error text.
pub fn plan_rune_reply_call(args: RuneReplyArgs, thread_found: bool) -> (r: Result<
    (ThreadId, String),
    String,
>)
    ensures
        (match args {
            RuneReplyArgs::Missing => r matches Err(m) && m@
                == "Missing arguments for rune-reply tool-call; the `thread_id` and `prompt` fields are required."@,
            RuneReplyArgs::Unparseable(e) => r matches Err(m) && m@
                == "Failed to parse configuration for Rune tool: "@ + e@,
            RuneReplyArgs::BadThreadId(e) => r matches Err(m) && m@
                == "Failed to parse thread_id: "@ + e@,
            RuneReplyArgs::Ready { thread_id, prompt } => if thread_found {
                r == Ok::<(ThreadId, String), String>((thread_id, prompt))
            } else {
                r matches Err(m) && m@ == "Session not found for thread_id: "@ + thread_id.id@
            },
        }),
{
    match args {
        RuneReplyArgs::Missing => Err(
            "Missing arguments for rune-reply tool-call; the `thread_id` and `prompt` fields are required.".to_owned(),
        ),
        RuneReplyArgs::Unparseable(e) => {
            let mut m = String::new();
            m.append("Failed to parse configuration for Rune tool: ");
            m.append(e.as_str());
            Err(m)
        },
        RuneReplyArgs::BadThreadId(e) => {
            let mut m = String::new();
            m.append("Failed to parse thread_id: ");
            m.append(e.as_str());
            Err(m)
        },
        RuneReplyArgs::Ready { thread_id, prompt } => {
            if thread_found {
                Ok((thread_id, prompt))
            } else {
                let mut m = String::new();
                m.append("Session not found for thread_id: ");
                m.append(thread_id.id.as_str());
                Err(m)
            }
        },
    }
}

/// The originator tag for outbound requests: an internal override, when set
/// and non-empty, replaces the default derived from the binary name.
pub fn effective_originator(override_value: Option<String>, default_originator: String) -> (r:
    String)
    ensures
        (match override_value {
            Some(v) => if v@.len() > 0 {
                r == v
            } else {
                r == default_originator
            },
            None => r == default_originator,
        }),
{
    match override_value {
        Some(v) => if v.as_str().is_empty() {
            default_originator
        } else {
            v
        },
        None => default_originator,
    }
}

/// The map from in-flight request ids to the threads serving them.
#[derive(Clone, Debug)]
pub struct RequestMap {
    pub entries: Vec<(String, ThreadId)>,
}

/// The first thread registered under a request id.
pub open spec fn request_lookup(entries: Seq<(String, ThreadId)>, id: Seq<char>) -> Option<
    ThreadId,
>
    decreases entries.len(),
{
    if entries.len() == 0 {
        None
    } else if entries[0].0@ == id {
        Some(entries[0].1)
    } else {
        request_lookup(entries.drop_first(), id)
    }
}

proof fn lemma_request_lookup_at(entries: Seq<(String, ThreadId)>, id: Seq<char>, i: int)
    requires
        0 <= i <= entries.len(),
        forall|j: int| 0 <= j < i ==> (#[trigger] entries[j]).0@ != id,
    ensures
        request_lookup(entries, id) == request_lookup(entries.skip(i), id),
    decreases i,
{
    if i > 0 {
        lemma_request_lookup_at(entries, id, i - 1);
        assert(entries.skip(i - 1).len() > 0);
        assert(entries.skip(i - 1)[0] == entries[i - 1]);
        assert(entries.skip(i - 1).drop_first() =~= entries.skip(i));
    } else {
        assert(entries.skip(0) =~= entries);
    }
}

/// The entries left after dropping the first one registered under `id`; all
/// of them when none is.
pub open spec fn remove_first_request(entries: Seq<(String, ThreadId)>, id: Seq<char>) -> Seq<
    (String, ThreadId),
>
    decreases entries.len(),
{
    if entries.len() == 0 {
        entries
    } else if entries[0].0@ == id {
        entries.drop_first()
    } else {
        seq![entries[0]] + remove_first_request(entries.drop_first(), id)
    }
}

proof fn lemma_remove_first_at(entries: Seq<(String, ThreadId)>, id: Seq<char>, i: int)
    requires
        0 <= i <= entries.len(),
        forall|j: int| 0 <= j < i ==> (#[trigger] entries[j]).0@ != id,
    ensures
        remove_first_request(entries, id) == entries.take(i) + remove_first_request(
            entries.skip(i),
            id,
        ),
    decreases i,
{
    if i > 0 {
        lemma_remove_first_at(entries, id, i - 1);
        assert(entries.skip(i - 1).len() > 0);
        assert(entries.skip(i - 1)[0] == entries[i - 1]);
        assert(entries.skip(i - 1).drop_first() =~= entries.skip(i));
        assert(entries.take(i - 1) + (seq![entries[i - 1]] + remove_first_request(
            entries.skip(i),
            id,
        )) =~= entries.take(i) + remove_first_request(entries.skip(i), id));
    } else {
        assert(entries.skip(0) =~= entries);
        assert(entries.take(0) + remove_first_request(entries, id) =~= remove_first_request(
            entries,
            id,
        ));
    }
}

impl RequestMap {
    pub fn new() -> (r: RequestMap)
        ensures
            r.entries@.len() == 0,
    {
        RequestMap { entries: Vec::new() }
    }

    /// Register a running request against its thread.
    pub fn insert(&mut self, request_id: String, thread_id: ThreadId)
        ensures
            final(self).entries@ == old(self).entries@.push((request_id, thread_id)),
    {
        self.entries.push((request_id, thread_id));
    }

    /// The thread a cancellation for `request_id` addresses, looked up
    /// without touching the map: the entry survives until the interrupt is
    /// actually submitted and [`RequestMap::confirm_cancel`] is called.
    pub fn thread_for_cancel(&self, request_id: &str) -> (r: Option<ThreadId>)
        ensures
            match request_lookup(self.entries@, request_id@) {
                Some(tid) => r matches Some(t) && t.id@ == tid.id@,
                None => r is None,
            },
    {
        let n = self.entries.len();
        for i in 0..n
            invariant
                n == self.entries@.len(),
                forall|j: int| 0 <= j < i ==> (#[trigger] self.entries@[j]).0@ != request_id@,
        {
            if str_eq(self.entries[i].0.as_str(), request_id) {
                proof {
                    lemma_request_lookup_at(self.entries@, request_id@, i as int);
                    assert(self.entries@.skip(i as int)[0] == self.entries@[i as int]);
                }
                return Some(ThreadId { id: self.entries[i].1.id.clone() });
            }
        }
        proof {
            lemma_request_lookup_at(self.entries@, request_id@, n as int);
            assert(self.entries@.skip(n as int).len() == 0);
        }
        None
    }

    /// Forget a request once its interrupt was submitted: exactly the first
    /// entry under `request_id` goes, every other entry stays; nothing
    /// changes when the id is unknown.
    pub fn confirm_cancel(&mut self, request_id: &str) -> (found: bool)
        ensures
            final(self).entries@ == remove_first_request(old(self).entries@, request_id@),
            found == (request_lookup(old(self).entries@, request_id@) is Some),
    {
        let n = self.entries.len();
        for i in 0..n
            invariant
                n == self.entries@.len(),
                *self == *old(self),
                forall|j: int| 0 <= j < i ==> (#[trigger] self.entries@[j]).0@ != request_id@,
        {
            if str_eq(self.entries[i].0.as_str(), request_id) {
                proof {
                    lemma_request_lookup_at(self.entries@, request_id@, i as int);
                    lemma_remove_first_at(self.entries@, request_id@, i as int);
                    assert(self.entries@.skip(i as int)[0] == self.entries@[i as int]);
                    assert(self.entries@.skip(i as int).drop_first() =~= self.entries@.skip(i + 1));
                    assert(self.entries@.take(i as int) + self.entries@.skip(i + 1)
                        =~= self.entries@.remove(i as int));
                }
                self.entries.remove(i);
                return true;
            }
        }
        proof {
            lemma_request_lookup_at(self.entries@, request_id@, n as int);
            lemma_remove_first_at(self.entries@, request_id@, n as int);
            assert(self.entries@.skip(n as int).len() == 0);
            assert(self.entries@.take(n as int) + remove_first_request(
                self.entries@.skip(n as int),
                request_id@,
            ) =~= self.entries@);
        }
        false
    }
}

} // verus!
