//! The thread manager: starting threads, the required-sub-tool gate, and
//! looking a thread's rollout up by id.
use vstd::prelude::*;
use vstd::string::StrSliceExecFns;
use vstd::string::StringExecFns;
use crate::config::Config;
use crate::config::McpServerConfig;
use crate::error::RuneErr;
use crate::protocol::Event;
use crate::protocol::EventMsg;
use crate::protocol::ThreadId;
use crate::recorder::rollout_path_view;
use crate::runtime::Clock;
use crate::runtime::ThreadRuntime;
use crate::runtime::TurnContext;
use crate::text::seq_contains_sub;
use crate::text::str_eq;
use crate::text::str_ends_with;
use crate::thread::RuneThread;

verus! {

/// What `start_thread` hands back: the live thread, the session event the
/// front end shows first, and where the rollout will be written.
#[derive(Clone, Debug)]
pub struct NewThread {
    pub thread: RuneThread,
    pub session_configured: Event,
    pub rollout_path: Option<String>,
}

/// The required servers among `servers` whose names stand in `failed`.
pub open spec fn failed_required(servers: Seq<McpServerConfig>, failed: Seq<String>) -> Seq<
    McpServerConfig,
> {
    servers.filter(
        |s: McpServerConfig|
            s.required && (exists|i: int| 0 <= i < failed.len() && (#[trigger] failed[i])@ == s.name@),
    )
}

fn name_in(failed: &Vec<String>, name: &str) -> (r: bool)
    ensures
        r == (exists|i: int| 0 <= i < failed@.len() && (#[trigger] failed@[i])@ == name@),
{
    let n = failed.len();
    for i in 0..n
        invariant
            n == failed@.len(),
            forall|j: int| 0 <= j < i ==> (#[trigger] failed@[j])@ != name@,
    {
        if str_eq(failed[i].as_str(), name) {
            return true;
        }
    }
    false
}

/// The message a failed start carries: it names every failing required
/// server.
pub open spec fn required_mcp_failure_message(names: Seq<Seq<char>>) -> Seq<char>
    decreases names.len(),
{
    if names.len() == 0 {
        "required MCP servers failed to initialize: "@
    } else if names.len() == 1 {
        "required MCP servers failed to initialize: "@ + names[0]
    } else {
        required_mcp_failure_message(names.drop_last()) + ", "@ + names.last()
    }
}

/// Check the declared sub-tool servers against the handshake failures:
/// startup fails exactly when a required server failed, and the error names
/// each one.
pub fn check_required_mcp_servers(servers: &Vec<McpServerConfig>, failed: &Vec<String>) -> (r:
    Result<(), RuneErr>)
    ensures
        (r is Ok) == (failed_required(servers@, failed@).len() == 0),
        failed_required(servers@, failed@).len() > 0 ==> (r matches Err(e) && e
            matches RuneErr::Fatal(m) && m@ == required_mcp_failure_message(
            failed_required(servers@, failed@).map_values(|s: McpServerConfig| s.name@),
        )),
{
    let mut bad: Vec<&McpServerConfig> = Vec::new();
    let n = servers.len();
    for i in 0..n
        invariant
            n == servers@.len(),
            bad@.map_values(|s: &McpServerConfig| *s) =~= servers@.take(i as int).filter(
                |s: McpServerConfig|
                    s.required && (exists|k: int|
                        0 <= k < failed@.len() && (#[trigger] failed@[k])@ == s.name@),
            ),
    {
        proof {
            assert(servers@.take(i + 1).drop_last() =~= servers@.take(i as int));
            assert(servers@.take(i + 1).last() == servers@[i as int]);
            reveal_with_fuel(Seq::filter, 2);
        }
        let is_bad = servers[i].required && name_in(failed, servers[i].name.as_str());
        if is_bad {
            bad.push(&servers[i]);
            proof {
                assert(bad@.map_values(|s: &McpServerConfig| *s) =~= bad@.drop_last().map_values(
                    |s: &McpServerConfig| *s,
                ).push(servers@[i as int]));
            }
        }
    }
    proof {
        assert(servers@.take(n as int) =~= servers@);
    }
    if bad.len() == 0 {
        proof {
            assert(failed_required(servers@, failed@).len() == 0);
        }
        return Ok(());
    }
    let mut m = String::new();
    m.append("required MCP servers failed to initialize: ");
    let k = bad.len();
    let ghost names = failed_required(servers@, failed@).map_values(
        |s: McpServerConfig| s.name@,
    );
    for i in 0..k
        invariant
            k == bad@.len(),
            k >= 1,
            names == failed_required(servers@, failed@).map_values(|s: McpServerConfig| s.name@),
            bad@.map_values(|s: &McpServerConfig| *s) == failed_required(servers@, failed@),
            names.len() == k,
            i == 0 ==> m@ == "required MCP servers failed to initialize: "@,
            i > 0 ==> m@ == required_mcp_failure_message(names.take(i as int)),
    {
        if i > 0 {
            m.append(", ");
        }
        m.append(bad[i].name.as_str());
        proof {
            assert(names[i as int] == bad@.map_values(|s: &McpServerConfig| *s)[i as int].name@);
            assert(names.take(i + 1).drop_last() =~= names.take(i as int));
            assert(names.take(i + 1).last() == names[i as int]);
            if i == 0 {
                assert(names.take(1) =~= seq![names[0]]);
                assert(seq![names[0]].drop_last() =~= Seq::<Seq<char>>::empty());
            }
        }
    }
    proof {
        assert(names.take(k as int) =~= names);
    }
    Err(RuneErr::Fatal(m))
}

/// The rollout path planned for a thread started now.
pub open spec fn planned_rollout_path(
    home: Seq<char>,
    clock: Clock,
    id: Seq<char>,
) -> Seq<char> {
    rollout_path_view(home, clock.date_dir@, clock.file_ts@, id)
}

/// Start a thread: gate on required sub-tool servers, then build the runtime
/// and announce the session. `mcp_failures` names the declared servers whose
/// handshake failed; the thread id comes minted from outside.
pub fn start_thread(
    config: &Config,
    thread_id: ThreadId,
    model: String,
    originator: String,
    cli_version: String,
    context: TurnContext,
    mcp_failures: &Vec<String>,
    clock: &Clock,
) -> (r: Result<NewThread, RuneErr>)
    ensures
        (r is Ok) == (failed_required(config.mcp_servers@, mcp_failures@).len() == 0),
        r matches Err(e) ==> (e matches RuneErr::Fatal(m) && m@ == required_mcp_failure_message(
            failed_required(config.mcp_servers@, mcp_failures@).map_values(
                |s: McpServerConfig| s.name@,
            ),
        )),
        r matches Ok(nt) ==> {
            &&& nt.thread.rune.inv()
            &&& nt.thread.rune.thread_id == thread_id
            &&& nt.thread.rune.context == context
            &&& nt.thread.rune.originator == originator
            &&& nt.thread.rune.cli_version == cli_version
            &&& nt.thread.rune.active is None
            &&& nt.thread.rune.queued@.len() == 0
            &&& nt.thread.rune.next_turn_index == 0
            &&& nt.thread.rune.next_submission_index == 0
            &&& !nt.thread.rune.shutting_down
            &&& !nt.thread.rune.shutdown_complete
            &&& nt.thread.rune.recorder.ephemeral == config.ephemeral
            &&& nt.thread.rune.recorder.rune_home == config.rune_home
            &&& nt.thread.rune.recorder.persisted_path is None
            &&& nt.thread.rune.emitted().len() == 0
            &&& (config.ephemeral ==> nt.rollout_path is None)
            &&& (!config.ephemeral ==> (nt.rollout_path matches Some(p) && p@
                == planned_rollout_path(config.rune_home@, *clock, thread_id.id@)))
            &&& nt.rollout_path == nt.thread.rollout_path
            &&& (nt.session_configured.msg matches EventMsg::SessionConfigured {
                thread_id: tid,
                model: m,
                model_provider_id: pid,
            } && tid == thread_id && m@ == model@ && pid@ == config.model_provider@)
        },
{
    if let Err(e) = check_required_mcp_servers(&config.mcp_servers, mcp_failures) {
        return Err(e);
    }
    let rollout_path: Option<String> = if config.ephemeral {
        None
    } else {
        let mut p = String::new();
        p.append(config.rune_home.as_str());
        p.append("/sessions");
        p.append("/");
        p.append(clock.date_dir.as_str());
        p.append("/");
        p.append("rollout-");
        p.append(clock.file_ts.as_str());
        p.append("-");
        p.append(thread_id.id.as_str());
        p.append(".jsonl");
        Some(p)
    };
    let session_configured = Event {
        id: String::new(),
        msg: EventMsg::SessionConfigured {
            thread_id: ThreadId { id: thread_id.id.clone() },
            model: model.clone(),
            model_provider_id: config.model_provider.clone(),
        },
    };
    let rune = ThreadRuntime::new(
        thread_id,
        originator,
        cli_version,
        context,
        config.ephemeral,
        config.rune_home.clone(),
    );
    let rollout_path_copy = match &rollout_path {
        Some(p) => Some(p.clone()),
        None => None,
    };
    let thread = RuneThread::new(rune, rollout_path);
    Ok(NewThread { thread, session_configured, rollout_path: rollout_path_copy })
}

/// One row of the thread index: a thread id, the name the user gave the
/// thread if any, and where its rollout lives.
#[derive(Clone, Debug, PartialEq, Eq)]
pub struct ThreadIndexEntry {
    pub id: String,
    pub thread_name: Option<String>,
    pub path: String,
}

/// The first index row for `id`.
pub open spec fn index_lookup(entries: Seq<ThreadIndexEntry>, id: Seq<char>) -> Option<Seq<char>>
    decreases entries.len(),
{
    if entries.len() == 0 {
        None
    } else if entries[0].id@ == id {
        Some(entries[0].path@)
    } else {
        index_lookup(entries.drop_first(), id)
    }
}

/// The path of the first index row named `name`.
pub open spec fn name_lookup(entries: Seq<ThreadIndexEntry>, name: Seq<char>) -> Option<Seq<char>>
    decreases entries.len(),
{
    if entries.len() == 0 {
        None
    } else if entries[0].thread_name matches Some(n) && n@ == name {
        Some(entries[0].path@)
    } else {
        name_lookup(entries.drop_first(), name)
    }
}

proof fn lemma_name_lookup_at(entries: Seq<ThreadIndexEntry>, name: Seq<char>, i: int)
    requires
        0 <= i <= entries.len(),
        forall|j: int|
            0 <= j < i ==> !((#[trigger] entries[j]).thread_name matches Some(n) && n@ == name),
    ensures
        name_lookup(entries, name) == name_lookup(entries.skip(i), name),
    decreases i,
{
    if i > 0 {
        lemma_name_lookup_at(entries, name, i - 1);
        assert(entries.skip(i - 1).len() > 0);
        assert(entries.skip(i - 1)[0] == entries[i - 1]);
        assert(entries.skip(i - 1).drop_first() =~= entries.skip(i));
    } else {
        assert(entries.skip(0) =~= entries);
    }
}

/// Find a thread's rollout path by the name the user gave it: the first
/// index row carrying that name decides.
pub fn find_thread_path_by_name(db_entries: &Vec<ThreadIndexEntry>, name: &str) -> (r: Option<
    String,
>)
    ensures
        (match name_lookup(db_entries@, name@) {
            Some(p) => r matches Some(rp) && rp@ == p,
            None => r is None,
        }),
{
    let n = db_entries.len();
    for i in 0..n
        invariant
            n == db_entries@.len(),
            forall|j: int|
                0 <= j < i ==> !((#[trigger] db_entries@[j]).thread_name matches Some(nm) && nm@
                    == name@),
    {
        let hit: bool = match &db_entries[i].thread_name {
            Some(nm) => str_eq(nm.as_str(), name),
            None => false,
        };
        if hit {
            proof {
                lemma_name_lookup_at(db_entries@, name@, i as int);
                assert(db_entries@.skip(i as int)[0] == db_entries@[i as int]);
            }
            return Some(db_entries[i].path.clone());
        }
    }
    proof {
        lemma_name_lookup_at(db_entries@, name@, n as int);
        assert(db_entries@.skip(n as int).len() == 0);
    }
    None
}

/// A path naming the rollout file of thread `id`.
pub open spec fn path_matches_id(p: Seq<char>, id: Seq<char>) -> bool {
    ("-"@ + id + ".jsonl"@).is_suffix_of(p) && seq_contains_sub(p, "rollout-"@)
}

/// The first scanned path that is the rollout of `id`.
pub open spec fn scan_lookup(paths: Seq<String>, id: Seq<char>) -> Option<Seq<char>>
    decreases paths.len(),
{
    if paths.len() == 0 {
        None
    } else if path_matches_id(paths[0]@, id) {
        Some(paths[0]@)
    } else {
        scan_lookup(paths.drop_first(), id)
    }
}

proof fn lemma_index_lookup_at(entries: Seq<ThreadIndexEntry>, id: Seq<char>, i: int)
    requires
        0 <= i <= entries.len(),
        forall|j: int| 0 <= j < i ==> (#[trigger] entries[j]).id@ != id,
    ensures
        index_lookup(entries, id) == index_lookup(entries.skip(i), id),
    decreases i,
{
    if i > 0 {
        lemma_index_lookup_at(entries, id, i - 1);
        assert(entries.skip(i - 1).len() > 0);
        assert(entries.skip(i - 1)[0] == entries[i - 1]);
        assert(entries.skip(i - 1).drop_first() =~= entries.skip(i));
    } else {
        assert(entries.skip(0) =~= entries);
    }
}

proof fn lemma_scan_lookup_at(paths: Seq<String>, id: Seq<char>, i: int)
    requires
        0 <= i <= paths.len(),
        forall|j: int| 0 <= j < i ==> !path_matches_id((#[trigger] paths[j])@, id),
    ensures
        scan_lookup(paths, id) == scan_lookup(paths.skip(i), id),
    decreases i,
{
    if i > 0 {
        lemma_scan_lookup_at(paths, id, i - 1);
        assert(paths.skip(i - 1).len() > 0);
        assert(paths.skip(i - 1)[0] == paths[i - 1]);
        assert(paths.skip(i - 1).drop_first() =~= paths.skip(i));
    } else {
        assert(paths.skip(0) =~= paths);
    }
}

fn path_has_id(p: &str, id: &str) -> (r: bool)
    ensures
        r == path_matches_id(p@, id@),
{
    let mut suffix = String::new();
    suffix.append("-");
    suffix.append(id);
    suffix.append(".jsonl");
    str_ends_with(p, suffix.as_str()) && crate::text::str_contains(p, "rollout-")
}

/// Find the rollout path of a thread by id: the state database is preferred,
/// the scanned file tree decides otherwise. The scan reads the full listing,
/// so no ignore rule anywhere can hide a persisted thread.
pub fn find_thread_path_by_id(
    db_entries: &Vec<ThreadIndexEntry>,
    scanned_paths: &Vec<String>,
    id: &str,
) -> (r: Option<String>)
    ensures
        (match index_lookup(db_entries@, id@) {
            Some(p) => r matches Some(rp) && rp@ == p,
            None => match scan_lookup(scanned_paths@, id@) {
                Some(p) => r matches Some(rp) && rp@ == p,
                None => r is None,
            },
        }),
{
    let n = db_entries.len();
    for i in 0..n
        invariant
            n == db_entries@.len(),
            forall|j: int| 0 <= j < i ==> (#[trigger] db_entries@[j]).id@ != id@,
    {
        if str_eq(db_entries[i].id.as_str(), id) {
            proof {
                lemma_index_lookup_at(db_entries@, id@, i as int);
                assert(db_entries@.skip(i as int)[0] == db_entries@[i as int]);
            }
            return Some(db_entries[i].path.clone());
        }
    }
    proof {
        lemma_index_lookup_at(db_entries@, id@, n as int);
        assert(db_entries@.skip(n as int).len() == 0);
    }
    let m = scanned_paths.len();
    for i in 0..m
        invariant
            m == scanned_paths@.len(),
            index_lookup(db_entries@, id@) is None,
            forall|j: int| 0 <= j < i ==> !path_matches_id((#[trigger] scanned_paths@[j])@, id@),
    {
        if path_has_id(scanned_paths[i].as_str(), id) {
            proof {
                lemma_scan_lookup_at(scanned_paths@, id@, i as int);
                assert(scanned_paths@.skip(i as int)[0] == scanned_paths@[i as int]);
            }
            return Some(scanned_paths[i].clone());
        }
    }
    proof {
        lemma_scan_lookup_at(scanned_paths@, id@, m as int);
        assert(scanned_paths@.skip(m as int).len() == 0);
    }
    None
}

/// Any persisted thread is found: when its rollout stands anywhere in the
/// scanned listing, the lookup returns a path.
pub proof fn lemma_persisted_thread_is_found(
    db_entries: Seq<ThreadIndexEntry>,
    scanned_paths: Seq<String>,
    id: Seq<char>,
)
    requires
        exists|i: int|
            0 <= i < scanned_paths.len() && path_matches_id((#[trigger] scanned_paths[i])@, id),
    ensures
        !(index_lookup(db_entries, id) is None && scan_lookup(scanned_paths, id) is None),
    decreases scanned_paths.len(),
{
    if index_lookup(db_entries, id) is None {
        let w = choose|i: int|
            0 <= i < scanned_paths.len() && path_matches_id((#[trigger] scanned_paths[i])@, id);
        if scanned_paths.len() > 0 {
            if path_matches_id(scanned_paths[0]@, id) {
            } else {
                assert(w != 0);
                assert(scanned_paths.drop_first()[w - 1] == scanned_paths[w]);
                lemma_persisted_thread_is_found(db_entries, scanned_paths.drop_first(), id);
            }
        }
    }
}

} // verus!
