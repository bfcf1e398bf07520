//! The rollout recorder model: an append-only journal of typed lines, with
//! the file created lazily and never for an ephemeral thread.
use vstd::prelude::*;
use vstd::string::StringExecFns;
use crate::protocol::Event;
use crate::protocol::ResponseItem;
use crate::protocol::ThreadId;
use crate::protocol::TurnContextOverride;
use crate::rollout::sessions_dir_view;

verus! {

/// The payload of one rollout line.
#[derive(Clone, Debug, PartialEq, Eq)]
pub enum RolloutItem {
    SessionMeta(SessionMetaLine),
    ResponseItem(ResponseItem),
    EventLine(Event),
    TurnContextLine(TurnContextOverride),
}

/// The first line of every rollout file.
#[derive(Clone, Debug, PartialEq, Eq)]
pub struct SessionMetaLine {
    pub id: ThreadId,
    pub cwd: String,
    pub originator: String,
    pub cli_version: String,
    pub model_provider: String,
}

/// One line of the append-only journal.
#[derive(Clone, Debug, PartialEq, Eq)]
pub struct RolloutLine {
    pub timestamp: String,
    pub item: RolloutItem,
}

/// The rollout filename: it carries the thread id right before its extension.
pub open spec fn rollout_file_name(file_ts: Seq<char>, id: Seq<char>) -> Seq<char> {
    "rollout-"@ + file_ts + "-"@ + id + ".jsonl"@
}

/// The full rollout path under a Rune home.
pub open spec fn rollout_path_view(
    home: Seq<char>,
    date_dir: Seq<char>,
    file_ts: Seq<char>,
    id: Seq<char>,
) -> Seq<char> {
    sessions_dir_view(home) + "/"@ + date_dir + "/"@ + rollout_file_name(file_ts, id)
}

/// The events journaled in a run of lines, in order.
pub open spec fn journaled_events(lines: Seq<RolloutLine>) -> Seq<Event>
    decreases lines.len(),
{
    if lines.len() == 0 {
        Seq::<Event>::empty()
    } else {
        let rest = journaled_events(lines.drop_last());
        match lines.last().item {
            RolloutItem::EventLine(e) => rest.push(e),
            _ => rest,
        }
    }
}

/// The response items journaled in a run of lines, in order.
pub open spec fn journaled_response_items(lines: Seq<RolloutLine>) -> Seq<ResponseItem>
    decreases lines.len(),
{
    if lines.len() == 0 {
        Seq::<ResponseItem>::empty()
    } else {
        let rest = journaled_response_items(lines.drop_last());
        match lines.last().item {
            RolloutItem::ResponseItem(item) => rest.push(item),
            _ => rest,
        }
    }
}

/// Journaled response items accumulate line by line.
proof fn lemma_journaled_items_step(lines: Seq<RolloutLine>, i: int)
    requires
        0 <= i < lines.len(),
    ensures
        journaled_response_items(lines.take(i + 1)) == (match lines[i].item {
            RolloutItem::ResponseItem(item) => journaled_response_items(lines.take(i)).push(item),
            _ => journaled_response_items(lines.take(i)),
        }),
{
    assert(lines.take(i + 1).drop_last() =~= lines.take(i));
    assert(lines.take(i + 1).last() == lines[i]);
}

/// There are no more journaled events than lines.
pub proof fn lemma_journaled_events_len(lines: Seq<RolloutLine>)
    ensures
        journaled_events(lines).len() <= lines.len(),
    decreases lines.len(),
{
    if lines.len() > 0 {
        lemma_journaled_events_len(lines.drop_last());
    }
}

/// The events journaled in a prefix of the lines are a prefix of the events
/// journaled in all of them.
pub proof fn lemma_journaled_events_take_prefix(lines: Seq<RolloutLine>, i: int)
    requires
        0 <= i <= lines.len(),
    ensures
        journaled_events(lines.take(i)).is_prefix_of(journaled_events(lines)),
    decreases lines.len() - i,
{
    if i < lines.len() {
        lemma_journaled_events_take_prefix(lines, i + 1);
        assert(lines.take(i + 1).drop_last() =~= lines.take(i));
        assert(lines.take(i + 1).last() == lines[i]);
        let a = journaled_events(lines.take(i));
        let b = journaled_events(lines.take(i + 1));
        let c = journaled_events(lines);
        assert(a.is_prefix_of(b));
        assert(a =~= b.subrange(0, a.len() as int));
        assert(a =~= c.subrange(0, a.len() as int));
    } else {
        assert(lines.take(i) =~= lines);
        assert(journaled_events(lines).is_prefix_of(journaled_events(lines)));
    }
}

/// Appending a run of response-item lines journals exactly those items, in
/// order, after everything journaled before.
pub proof fn lemma_response_items_round_trip(lines: Seq<RolloutLine>, tail: Seq<RolloutLine>)
    requires
        forall|i: int| 0 <= i < tail.len() ==> (#[trigger] tail[i].item) is ResponseItem,
    ensures
        journaled_response_items(lines + tail) == journaled_response_items(lines) + tail.map_values(
            |l: RolloutLine| l.item.arrow_ResponseItem_0(),
        ),
    decreases tail.len(),
{
    let items = tail.map_values(|l: RolloutLine| l.item.arrow_ResponseItem_0());
    if tail.len() == 0 {
        assert(lines + tail =~= lines);
        assert(journaled_response_items(lines) + items =~= journaled_response_items(lines));
    } else {
        lemma_response_items_round_trip(lines, tail.drop_last());
        assert((lines + tail).drop_last() =~= lines + tail.drop_last());
        assert((lines + tail).last() == tail.last());
        assert(tail.last().item is ResponseItem);
        let prev = tail.drop_last().map_values(|l: RolloutLine| l.item.arrow_ResponseItem_0());
        assert(items =~= prev.push(tail.last().item.arrow_ResponseItem_0()));
        assert(journaled_response_items(lines) + items =~= (journaled_response_items(lines) + prev)
            .push(tail.last().item.arrow_ResponseItem_0()));
    }
}

/// Appending an event line journals exactly that event.
pub proof fn lemma_journaled_events_push_event(lines: Seq<RolloutLine>, l: RolloutLine)
    requires
        l.item is EventLine,
    ensures
        journaled_events(lines.push(l)) == journaled_events(lines).push(l.item.arrow_EventLine_0()),
{
    assert(lines.push(l).drop_last() =~= lines);
    assert(lines.push(l).last() == l);
}

/// Appending a non-event line leaves the journaled events unchanged.
pub proof fn lemma_journaled_events_push_other(lines: Seq<RolloutLine>, l: RolloutLine)
    requires
        !(l.item is EventLine),
    ensures
        journaled_events(lines.push(l)) == journaled_events(lines),
{
    assert(lines.push(l).drop_last() =~= lines);
    assert(lines.push(l).last() == l);
}

/// Appending a response-item line journals exactly that item; any other
/// appended line leaves the journaled response items unchanged.
pub proof fn lemma_journaled_response_push(lines: Seq<RolloutLine>, l: RolloutLine)
    ensures
        l.item is ResponseItem ==> journaled_response_items(lines.push(l))
            == journaled_response_items(lines).push(l.item.arrow_ResponseItem_0()),
        !(l.item is ResponseItem) ==> journaled_response_items(lines.push(l))
            == journaled_response_items(lines),
{
    assert(lines.push(l).drop_last() =~= lines);
    assert(lines.push(l).last() == l);
}

/// Prepending a non-event line leaves the journaled events unchanged.
pub proof fn lemma_journaled_events_prepend_other(lines: Seq<RolloutLine>, l: RolloutLine)
    requires
        !(l.item is EventLine),
    ensures
        journaled_events(seq![l] + lines) == journaled_events(lines),
    decreases lines.len(),
{
    if lines.len() == 0 {
        assert(seq![l] + lines =~= seq![l]);
        assert(seq![l].drop_last() =~= Seq::<RolloutLine>::empty());
        assert(seq![l].last() == l);
        assert(journaled_events(Seq::<RolloutLine>::empty()) =~= Seq::<Event>::empty());
        assert(journaled_events(seq![l]) =~= Seq::<Event>::empty());
        assert(journaled_events(lines) =~= Seq::<Event>::empty());
    } else {
        lemma_journaled_events_prepend_other(lines.drop_last(), l);
        assert((seq![l] + lines).drop_last() =~= seq![l] + lines.drop_last());
        assert((seq![l] + lines).last() == lines.last());
    }
}

impl ResponseItem {
    /// A structurally equal copy.
    pub fn duplicate(&self) -> (r: ResponseItem)
        ensures
            r == *self,
    {
        match self {
            ResponseItem::AssistantMessage { text } => ResponseItem::AssistantMessage {
                text: text.clone(),
            },
            ResponseItem::Reasoning { summary } => ResponseItem::Reasoning {
                summary: summary.clone(),
            },
            ResponseItem::ToolCall { call_id, name, arguments } => ResponseItem::ToolCall {
                call_id: call_id.clone(),
                name: name.clone(),
                arguments: arguments.clone(),
            },
            ResponseItem::ToolResult { call_id, output, is_error } => ResponseItem::ToolResult {
                call_id: call_id.clone(),
                output: output.clone(),
                is_error: *is_error,
            },
        }
    }
}

/// The recorder that journals a thread. `persisted_path` is the path of the
/// file on disk once one was created; an ephemeral recorder never creates
/// one, and its lines stay in memory.
#[derive(Clone, Debug)]
pub struct RolloutRecorder {
    pub ephemeral: bool,
    pub rune_home: String,
    pub persisted_path: Option<String>,
    pub lines: Vec<RolloutLine>,
}

impl RolloutRecorder {
    /// A well-formed journal for `thread_id`: a file exists only for a
    /// non-ephemeral thread, its first line is the session meta carrying the
    /// same id that stands in the filename.
    pub open spec fn wf(self, thread_id: ThreadId) -> bool {
        &&& (self.ephemeral ==> self.persisted_path is None)
        &&& (self.persisted_path matches Some(p) ==> {
            &&& self.lines@.len() > 0
            &&& (self.lines@[0].item matches RolloutItem::SessionMeta(m) && m.id == thread_id)
            &&& (exists|date_dir: Seq<char>, file_ts: Seq<char>|
                p@ == rollout_path_view(self.rune_home@, date_dir, file_ts, thread_id.id@))
        })
    }

    pub fn new(ephemeral: bool, rune_home: String) -> (r: RolloutRecorder)
        ensures
            r.ephemeral == ephemeral,
            r.rune_home == rune_home,
            r.persisted_path is None,
            r.lines@.len() == 0,
            forall|tid: ThreadId| r.wf(tid),
    {
        RolloutRecorder { ephemeral, rune_home, persisted_path: None, lines: Vec::new() }
    }

    /// Create the file on disk: the session meta becomes the first line,
    /// ahead of anything held in memory. Never reached for an ephemeral
    /// recorder.
    pub fn persist(
        &mut self,
        meta: SessionMetaLine,
        timestamp: String,
        date_dir: &str,
        file_ts: &str,
    )
        requires
            !old(self).ephemeral,
            old(self).persisted_path is None,
        ensures
            final(self).ephemeral == old(self).ephemeral,
            final(self).rune_home == old(self).rune_home,
            (final(self).persisted_path matches Some(p) && p@ == rollout_path_view(
                old(self).rune_home@,
                date_dir@,
                file_ts@,
                meta.id.id@,
            )),
            final(self).lines@ =~= seq![
                RolloutLine { timestamp, item: RolloutItem::SessionMeta(meta) },
            ] + old(self).lines@,
            final(self).wf(meta.id),
    {
        let mut path = String::new();
        path.append(self.rune_home.as_str());
        path.append("/sessions");
        path.append("/");
        path.append(date_dir);
        path.append("/");
        path.append("rollout-");
        path.append(file_ts);
        path.append("-");
        path.append(self.thread_id_str(&meta));
        path.append(".jsonl");
        self.lines.insert(0, RolloutLine { timestamp, item: RolloutItem::SessionMeta(meta) });
        self.persisted_path = Some(path);
        proof {
            assert(self.lines@ =~= seq![
                RolloutLine { timestamp, item: RolloutItem::SessionMeta(meta) },
            ] + old(self).lines@);
            assert(self.lines@[0].item matches RolloutItem::SessionMeta(m) && m.id == meta.id);
            assert(self.persisted_path matches Some(p) && p@ == rollout_path_view(
                old(self).rune_home@,
                date_dir@,
                file_ts@,
                meta.id.id@,
            ));
        }
    }

    fn thread_id_str<'a>(&self, meta: &'a SessionMetaLine) -> (r: &'a str)
        ensures
            r@ == meta.id.id@,
    {
        meta.id.id.as_str()
    }

    /// Append one line to the journal.
    pub fn append(&mut self, line: RolloutLine)
        ensures
            final(self).ephemeral == old(self).ephemeral,
            final(self).rune_home == old(self).rune_home,
            final(self).persisted_path == old(self).persisted_path,
            final(self).lines@ == old(self).lines@.push(line),
            forall|tid: ThreadId| old(self).wf(tid) ==> final(self).wf(tid),
    {
        self.lines.push(line);
    }

    /// Read back every response item in the journal, in order.
    pub fn read_response_items(&self) -> (r: Vec<ResponseItem>)
        ensures
            r@ == journaled_response_items(self.lines@),
    {
        let mut out: Vec<ResponseItem> = Vec::new();
        let n = self.lines.len();
        for i in 0..n
            invariant
                n == self.lines@.len(),
                out@ == journaled_response_items(self.lines@.take(i as int)),
        {
            proof {
                lemma_journaled_items_step(self.lines@, i as int);
            }
            match &self.lines[i].item {
                RolloutItem::ResponseItem(item) => {
                    out.push(item.duplicate());
                },
                _ => {},
            }
        }
        proof {
            assert(self.lines@.take(n as int) =~= self.lines@);
        }
        out
    }
}

} // verus!
