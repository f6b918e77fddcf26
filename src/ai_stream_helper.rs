use vstd::prelude::*;
use vstd::string::*;
use crate::ai_chat_helper::{AIChatResponse, ResponseView};
use crate::ai_tool_to_call::{ToolToCall, ToolCallView, duplicate_calls};
use crate::message::{Message, MessageRole, MessageView, calls_view};

verus! {

/// Malformed chunks tolerated before a stream is abandoned.
pub const MAX_NUM_ERRORS: u32 = 5;

/// What became of one chunk of a streamed answer.
pub enum ChunkOutcome {
    /// The chunk decoded to a response event.
    Parsed(AIChatResponse),
    /// The chunk did not decode.
    Malformed,
}

/// What the reader of the stream does next.
#[derive(Clone, Copy, Debug, PartialEq, Eq, Structural)]
pub enum StreamAction {
    /// Read the next chunk.
    Continue,
    /// Wait this many milliseconds, then read the next chunk.
    Backoff(u64),
    /// Read no further chunk.
    Stop,
}

/// A chunk outcome over mathematical values: `None` for a malformed chunk.
pub open spec fn chunk_view(c: ChunkOutcome) -> Option<ResponseView> {
    match c {
        ChunkOutcome::Parsed(r) => Some(r@),
        ChunkOutcome::Malformed => None,
    }
}

pub struct AggregatorView {
    pub content: Seq<char>,
    pub tools: Option<Seq<ToolCallView>>,
    pub last: Option<ResponseView>,
    pub errors: nat,
    pub stopped: bool,
}

/// Nothing read yet.
pub open spec fn initial_state() -> AggregatorView {
    AggregatorView { content: Seq::empty(), tools: None, last: None, errors: 0, stopped: false }
}

/// One chunk handled. A decoded event adds its content, gives its tool calls
/// when none were captured yet and it carries some, and becomes the last
/// event. A malformed chunk counts as an error: past the threshold the stream
/// stops, otherwise the reader waits as many milliseconds as there were
/// errors. A stopped aggregator takes no more chunks.
pub open spec fn step(s: AggregatorView, c: Option<ResponseView>) -> (AggregatorView, StreamAction) {
    if s.stopped {
        (s, StreamAction::Stop)
    } else {
        match c {
            Some(r) => (
                AggregatorView {
                    content: s.content + r.message.content,
                    tools: if s.tools is None && r.message.tool_calls is Some
                        && r.message.tool_calls->0.len() > 0 {
                        r.message.tool_calls
                    } else {
                        s.tools
                    },
                    last: Some(r),
                    errors: s.errors,
                    stopped: false,
                },
                StreamAction::Continue,
            ),
            None => {
                let n = s.errors + 1;
                if n > MAX_NUM_ERRORS {
                    (
                        AggregatorView {
                            content: s.content,
                            tools: s.tools,
                            last: s.last,
                            errors: n,
                            stopped: true,
                        },
                        StreamAction::Stop,
                    )
                } else {
                    (
                        AggregatorView {
                            content: s.content,
                            tools: s.tools,
                            last: s.last,
                            errors: n,
                            stopped: false,
                        },
                        StreamAction::Backoff(n as u64),
                    )
                }
            },
        }
    }
}

/// The state after a sequence of chunks.
pub open spec fn run(s: AggregatorView, chunks: Seq<Option<ResponseView>>) -> AggregatorView
    decreases chunks.len(),
{
    if chunks.len() == 0 {
        s
    } else {
        step(run(s, chunks.drop_last()), chunks.last()).0
    }
}

/// The final answer: the last event's metadata with one message made of its
/// role, all the text and the captured tool calls; an error answer when no
/// event decoded.
pub open spec fn final_response(s: AggregatorView) -> ResponseView {
    match s.last {
        Some(r) => ResponseView {
            message: MessageView { role: r.message.role, content: s.content, tool_calls: s.tools },
            ..r
        },
        None => ResponseView {
            model: "UNKNOWN_MODEL_ERROR"@,
            created_at: Seq::empty(),
            message: MessageView {
                role: MessageRole::ERROR,
                content: "NO RESPONSE ERROR!"@,
                tool_calls: s.tools,
            },
            done_reason: "error"@,
            done: true,
            total_duration: 0,
            load_duration: 0,
            prompt_eval_count: 0,
            prompt_eval_duration: 0,
            eval_count: 0,
            eval_duration: 0,
        },
    }
}

/// Reassembles a streamed answer, one chunk at a time.
pub struct StreamAggregator {
    content: String,
    tools: Option<Vec<ToolToCall>>,
    last: Option<AIChatResponse>,
    error_count: u32,
    stopped: bool,
}

impl View for StreamAggregator {
    type V = AggregatorView;

    closed spec fn view(&self) -> AggregatorView {
        AggregatorView {
            content: self.content@,
            tools: calls_view(self.tools),
            last: match self.last {
                Some(r) => Some(r@),
                None => None,
            },
            errors: self.error_count as nat,
            stopped: self.stopped,
        }
    }
}

impl StreamAggregator {
    /// The error count passes the threshold only once the stream stopped.
    pub closed spec fn wf(&self) -> bool {
        &&& self.error_count <= MAX_NUM_ERRORS + 1
        &&& !self.stopped ==> self.error_count <= MAX_NUM_ERRORS
    }

    pub fn new() -> (r: Self)
        ensures
            r@ == initial_state(),
            r.wf(),
    {
        StreamAggregator {
            content: String::new(),
            tools: None,
            last: None,
            error_count: 0,
            stopped: false,
        }
    }

    /// Whether the stream was abandoned.
    pub fn is_stopped(&self) -> (r: bool)
        ensures
            r == self@.stopped,
    {
        self.stopped
    }

    /// Takes one chunk and says what the reader does next.
    pub fn on_chunk(&mut self, chunk: ChunkOutcome) -> (a: StreamAction)
        requires
            old(self).wf(),
        ensures
            final(self).wf(),
            (final(self)@, a) == step(old(self)@, chunk_view(chunk)),
    {
        if self.stopped {
            return StreamAction::Stop;
        }
        match chunk {
            ChunkOutcome::Parsed(r) => {
                self.content.append(r.message.content.as_str());
                if self.tools.is_none() {
                    match &r.message.tool_calls {
                        Some(calls) => {
                            if calls.len() > 0 {
                                self.tools = Some(duplicate_calls(calls));
                            }
                        },
                        None => {},
                    }
                }
                self.last = Some(r);
                StreamAction::Continue
            },
            ChunkOutcome::Malformed => {
                self.error_count = self.error_count + 1;
                if self.error_count > MAX_NUM_ERRORS {
                    self.stopped = true;
                    StreamAction::Stop
                } else {
                    StreamAction::Backoff(self.error_count as u64)
                }
            },
        }
    }

    /// The final answer.
    pub fn finish(self) -> (r: AIChatResponse)
        ensures
            r@ == final_response(self@),
    {
        match self.last {
            Some(last) => AIChatResponse {
                model: last.model,
                created_at: last.created_at,
                message: Message {
                    role: last.message.role,
                    content: self.content,
                    tool_calls: self.tools,
                },
                done_reason: last.done_reason,
                done: last.done,
                total_duration: last.total_duration,
                load_duration: last.load_duration,
                prompt_eval_count: last.prompt_eval_count,
                prompt_eval_duration: last.prompt_eval_duration,
                eval_count: last.eval_count,
                eval_duration: last.eval_duration,
            },
            None => AIChatResponse {
                model: String::from_str("UNKNOWN_MODEL_ERROR"),
                created_at: String::new(),
                message: Message {
                    role: MessageRole::ERROR,
                    content: String::from_str("NO RESPONSE ERROR!"),
                    tool_calls: self.tools,
                },
                done_reason: String::from_str("error"),
                done: true,
                total_duration: 0,
                load_duration: 0,
                prompt_eval_count: 0,
                prompt_eval_duration: 0,
                eval_count: 0,
                eval_duration: 0,
            },
        }
    }
}

// ---------------------------------------------------------------------------
// Laws of the aggregator
// ---------------------------------------------------------------------------

/// The texts of the events, one after the other.
pub open spec fn contents(events: Seq<ResponseView>) -> Seq<char>
    decreases events.len(),
{
    if events.len() == 0 {
        Seq::empty()
    } else {
        contents(events.drop_last()) + events.last().message.content
    }
}

/// Every event decoded.
pub open spec fn decoded(events: Seq<ResponseView>) -> Seq<Option<ResponseView>> {
    events.map_values(|r: ResponseView| Some(r))
}

/// `n` malformed chunks.
pub open spec fn malformed(n: nat) -> Seq<Option<ResponseView>> {
    Seq::new(n, |i: int| None::<ResponseView>)
}

proof fn lemma_run_decoded(events: Seq<ResponseView>)
    ensures
        ({
            let s = run(initial_state(), decoded(events));
            &&& !s.stopped
            &&& s.errors == 0
            &&& s.content == contents(events)
            &&& events.len() > 0 ==> s.last == Some(events.last())
        }),
    decreases events.len(),
{
    if events.len() > 0 {
        assert(decoded(events).drop_last() =~= decoded(events.drop_last()));
        lemma_run_decoded(events.drop_last());
    } else {
        assert(decoded(events) =~= Seq::<Option<ResponseView>>::empty());
    }
}

/// With every chunk decoded, the answer's text is all the events' texts in
/// order, and its role and metadata are those of the last event.
pub proof fn lemma_clean_stream(events: Seq<ResponseView>)
    requires
        events.len() > 0,
    ensures
        ({
            let s = run(initial_state(), decoded(events));
            let f = final_response(s);
            let l = events.last();
            &&& !s.stopped
            &&& f.message.content == contents(events)
            &&& f.message.role == l.message.role
            &&& f.model == l.model
            &&& f.created_at == l.created_at
            &&& f.done_reason == l.done_reason
            &&& f.done == l.done
            &&& f.total_duration == l.total_duration
            &&& f.load_duration == l.load_duration
            &&& f.prompt_eval_count == l.prompt_eval_count
            &&& f.prompt_eval_duration == l.prompt_eval_duration
            &&& f.eval_count == l.eval_count
            &&& f.eval_duration == l.eval_duration
        }),
{
    lemma_run_decoded(events);
}

proof fn lemma_run_malformed(s: AggregatorView, k: nat)
    requires
        !s.stopped,
        s.errors == 0,
        k <= MAX_NUM_ERRORS,
    ensures
        run(s, malformed(k)) == (AggregatorView {
            content: s.content,
            tools: s.tools,
            last: s.last,
            errors: k,
            stopped: false,
        }),
    decreases k,
{
    if k == 0 {
        assert(malformed(0) =~= Seq::<Option<ResponseView>>::empty());
    } else {
        assert(malformed(k).drop_last() =~= malformed((k - 1) as nat));
        lemma_run_malformed(s, (k - 1) as nat);
    }
}

proof fn lemma_run_stopped(t: AggregatorView, later: Seq<Option<ResponseView>>)
    requires
        t.stopped,
    ensures
        run(t, later) == t,
    decreases later.len(),
{
    if later.len() > 0 {
        lemma_run_stopped(t, later.drop_last());
    }
}

/// From a state without errors, six malformed chunks in a row: the first
/// five ask for waits of 1 to 5 milliseconds, the sixth stops the stream,
/// which keeps what it had gathered before them, and no later chunk changes
/// anything.
pub proof fn lemma_bounded_retry(s: AggregatorView, later: Seq<Option<ResponseView>>)
    requires
        !s.stopped,
        s.errors == 0,
    ensures
        forall|k: nat|
            k < MAX_NUM_ERRORS ==> #[trigger] step(run(s, malformed(k)), None).1
                == StreamAction::Backoff((k + 1) as u64),
        step(run(s, malformed(5)), None).1 == StreamAction::Stop,
        ({
            let t = run(s, malformed(6));
            &&& t.stopped
            &&& t.content == s.content
            &&& t.tools == s.tools
            &&& t.last == s.last
            &&& run(t, later) == t
        }),
{
    assert forall|k: nat| k < MAX_NUM_ERRORS implies #[trigger] step(
        run(s, malformed(k)),
        None,
    ).1 == StreamAction::Backoff((k + 1) as u64) by {
        lemma_run_malformed(s, k);
    }
    lemma_run_malformed(s, 5);
    assert(malformed(6).drop_last() =~= malformed(5));
    lemma_run_stopped(run(s, malformed(6)), later);
}

} // verus!
