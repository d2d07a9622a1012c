//! Conversation storage: the full dialogue of a session, step by step, its
//! markdown rendering, and the context used to simulate a case owner's reply.

use vstd::prelude::*;

use crate::markdown::string_views;
use crate::text::{chars_of, decimal, lines, lines_vec, owned, push_decimal, string_of, views};
use crate::wisdom::{append_joined, join};

verus! {

/// A single turn in the conversation.
#[derive(Debug, Clone)]
pub struct ConversationTurn {
    /// "Facilitator", "User (Auto)", an advisor's name, ...
    pub speaker: String,
    pub content: String,
    /// Time from session start.
    pub timestamp_ms: u64,
    /// Token count, when known.
    pub tokens: Option<usize>,
}

/// The conversation of one step.
#[derive(Debug, Clone)]
pub struct StepConversation {
    pub step: u8,
    pub step_name: String,
    pub start_time_ms: u64,
    pub end_time_ms: Option<u64>,
    pub turns: Vec<ConversationTurn>,
}

impl Default for StepConversation {
    fn default() -> (s: Self)
        ensures
            s.step == 0,
            s.step_name@.len() == 0,
            s.start_time_ms == 0,
            s.end_time_ms is None,
            s.turns@.len() == 0,
    {
        StepConversation {
            step: 0,
            step_name: String::new(),
            start_time_ms: 0,
            end_time_ms: None,
            turns: Vec::new(),
        }
    }
}

/// The full conversation log of a session.
#[derive(Debug, Clone)]
pub struct ConversationLog {
    pub session_id: String,
    pub project_id: String,
    pub total_time_ms: u64,
    pub total_tokens: usize,
    pub step_conversations: Vec<StepConversation>,
}

impl Default for ConversationLog {
    fn default() -> (l: Self)
        ensures
            l.session_id@.len() == 0,
            l.project_id@.len() == 0,
            l.total_time_ms == 0,
            l.total_tokens == 0,
            l.step_conversations@.len() == 0,
    {
        ConversationLog {
            session_id: String::new(),
            project_id: String::new(),
            total_time_ms: 0,
            total_tokens: 0,
            step_conversations: Vec::new(),
        }
    }
}

/// `s` with its end time set.
pub open spec fn with_end(s: StepConversation, end: u64) -> StepConversation {
    StepConversation { end_time_ms: Some(end), ..s }
}

/// `t` is `s` with one more turn at the end and nothing else changed.
pub open spec fn turn_appended(s: StepConversation, t: StepConversation, turn: ConversationTurn) -> bool {
    &&& t.step == s.step
    &&& t.step_name == s.step_name
    &&& t.start_time_ms == s.start_time_ms
    &&& t.end_time_ms == s.end_time_ms
    &&& t.turns@ == s.turns@.push(turn)
}

/// Duration of a step in milliseconds: 0 while it has not ended.
pub open spec fn step_duration(s: StepConversation) -> int {
    match s.end_time_ms {
        Some(e) => e - s.start_time_ms,
        None => 0,
    }
}

/// Every ended step ended no earlier than it started.
pub open spec fn ends_after_starts(steps: Seq<StepConversation>) -> bool {
    forall|i: int|
        0 <= i < steps.len() ==> ((#[trigger] steps[i]).end_time_ms matches Some(e) ==> e
            >= steps[i].start_time_ms)
}

/// The markdown of one turn: speaker, token count when known, and the
/// content quoted line by line.
pub open spec fn turn_md(t: ConversationTurn) -> Seq<char> {
    let tokens = match t.tokens {
        Some(n) => "[~"@ + decimal(n as nat) + " tokens]"@,
        None => Seq::empty(),
    };
    "**"@ + t.speaker@ + "** "@ + tokens + ":\n> "@ + join(lines(t.content@), "\n> "@) + "\n\n"@
}

pub open spec fn turns_md(ts: Seq<ConversationTurn>, n: int) -> Seq<char>
    decreases n,
{
    if n <= 0 || n > ts.len() {
        Seq::empty()
    } else {
        turns_md(ts, n - 1) + turn_md(ts[n - 1])
    }
}

/// The markdown of one step: heading with its duration, its turns, a rule.
pub open spec fn step_md(s: StepConversation) -> Seq<char> {
    "## Step "@ + decimal(s.step as nat) + ": "@ + s.step_name@ + " ("@ + decimal(
        step_duration(s) as nat,
    ) + "ms)\n\n"@ + turns_md(s.turns@, s.turns@.len() as int) + "---\n\n"@
}

pub open spec fn steps_md(steps: Seq<StepConversation>, n: int) -> Seq<char>
    decreases n,
{
    if n <= 0 || n > steps.len() {
        Seq::empty()
    } else {
        steps_md(steps, n - 1) + step_md(steps[n - 1])
    }
}

/// The markdown of a log; `total_secs` is the total time in seconds with one
/// decimal, as the caller formatted it.
pub open spec fn log_md(l: ConversationLog, total_secs: Seq<char>) -> Seq<char> {
    "# Conversation Log\n\n"@ + "**Total Time:** "@ + total_secs + "s | **Total Tokens:** ~"@
        + decimal((l.total_tokens / 1000) as nat) + "K\n\n"@ + "---\n\n"@ + steps_md(
        l.step_conversations@,
        l.step_conversations@.len() as int,
    )
}

fn append_turn_md(md: &mut String, t: &ConversationTurn)
    ensures
        final(md)@ == old(md)@ + turn_md(*t),
{
    md.append("**");
    md.append(t.speaker.as_str());
    md.append("** ");
    match t.tokens {
        Some(n) => {
            md.append("[~");
            push_decimal(md, n as u64);
            md.append(" tokens]");
        },
        None => {},
    }
    md.append(":\n> ");
    let ls = lines_vec(&chars_of(t.content.as_str()));
    let mut parts: Vec<String> = Vec::new();
    let mut i: usize = 0;
    while i < ls.len()
        invariant
            i <= ls@.len(),
            parts@.len() == i,
            forall|j: int| 0 <= j < i ==> (#[trigger] parts@[j])@ == ls@[j]@,
        decreases ls.len() - i,
    {
        parts.push(string_of(&ls[i]));
        i = i + 1;
    }
    proof {
        assert(string_views(parts@) =~= views(ls@));
    }
    append_joined(md, &parts, "\n> ");
    md.append("\n\n");
}

fn append_step_md(md: &mut String, s: &StepConversation)
    requires
        s.end_time_ms matches Some(e) ==> e >= s.start_time_ms,
    ensures
        final(md)@ == old(md)@ + step_md(*s),
{
    let duration: u64 = match s.end_time_ms {
        Some(e) => e - s.start_time_ms,
        None => 0,
    };
    md.append("## Step ");
    push_decimal(md, s.step as u64);
    md.append(": ");
    md.append(s.step_name.as_str());
    md.append(" (");
    push_decimal(md, duration);
    md.append("ms)\n\n");
    let ghost head = md@;
    let mut i: usize = 0;
    while i < s.turns.len()
        invariant
            i <= s.turns@.len(),
            md@ == head + turns_md(s.turns@, i as int),
        decreases s.turns.len() - i,
    {
        append_turn_md(md, &s.turns[i]);
        i = i + 1;
    }
    md.append("---\n\n");
}

impl ConversationLog {
    /// An empty log of a session.
    pub fn new(project_id: String, session_id: String) -> (l: Self)
        ensures
            l.project_id == project_id,
            l.session_id == session_id,
            l.total_time_ms == 0,
            l.total_tokens == 0,
            l.step_conversations@.len() == 0,
    {
        ConversationLog {
            project_id,
            session_id,
            total_time_ms: 0,
            total_tokens: 0,
            step_conversations: Vec::new(),
        }
    }

    /// Open a new step conversation, with no turns and no end time.
    pub fn start_step(&mut self, step: u8, step_name: String, start_time_ms: u64)
        ensures
            final(self).session_id == old(self).session_id,
            final(self).project_id == old(self).project_id,
            final(self).total_time_ms == old(self).total_time_ms,
            final(self).total_tokens == old(self).total_tokens,
            final(self).step_conversations@.len() == old(self).step_conversations@.len() + 1,
            final(self).step_conversations@.take(old(self).step_conversations@.len() as int)
                == old(self).step_conversations@,
            ({
                let s = final(self).step_conversations@.last();
                &&& s.step == step
                &&& s.step_name == step_name
                &&& s.start_time_ms == start_time_ms
                &&& s.end_time_ms is None
                &&& s.turns@.len() == 0
            }),
    {
        self.step_conversations.push(
            StepConversation { step, step_name, start_time_ms, end_time_ms: None, turns: Vec::new() },
        );
        proof {
            assert(self.step_conversations@.take(old(self).step_conversations@.len() as int)
                =~= old(self).step_conversations@);
        }
    }

    /// Set the end time of the current (last) step; nothing when no step was
    /// started.
    pub fn end_step(&mut self, end_time_ms: u64)
        ensures
            final(self).session_id == old(self).session_id,
            final(self).project_id == old(self).project_id,
            final(self).total_time_ms == old(self).total_time_ms,
            final(self).total_tokens == old(self).total_tokens,
            old(self).step_conversations@.len() == 0 ==> final(self).step_conversations@
                == old(self).step_conversations@,
            old(self).step_conversations@.len() > 0 ==> final(self).step_conversations@
                == old(self).step_conversations@.update(
                old(self).step_conversations@.len() - 1,
                with_end(old(self).step_conversations@.last(), end_time_ms),
            ),
    {
        match self.step_conversations.pop() {
            Some(mut s) => {
                s.end_time_ms = Some(end_time_ms);
                self.step_conversations.push(s);
                proof {
                    assert(self.step_conversations@ =~= old(self).step_conversations@.update(
                        old(self).step_conversations@.len() - 1,
                        with_end(old(self).step_conversations@.last(), end_time_ms),
                    ));
                }
            },
            None => {},
        }
    }

    /// Add a turn to the current (last) step; nothing when no step was
    /// started.
    pub fn add_turn(&mut self, speaker: String, content: String, timestamp_ms: u64, tokens: Option<usize>)
        ensures
            final(self).session_id == old(self).session_id,
            final(self).project_id == old(self).project_id,
            final(self).total_time_ms == old(self).total_time_ms,
            final(self).total_tokens == old(self).total_tokens,
            final(self).step_conversations@.len() == old(self).step_conversations@.len(),
            old(self).step_conversations@.len() == 0 ==> final(self).step_conversations@
                == old(self).step_conversations@,
            old(self).step_conversations@.len() > 0 ==> {
                let n = old(self).step_conversations@.len() - 1;
                &&& final(self).step_conversations@.take(n) == old(self).step_conversations@.take(n)
                &&& turn_appended(
                    old(self).step_conversations@[n],
                    final(self).step_conversations@[n],
                    ConversationTurn { speaker, content, timestamp_ms, tokens },
                )
            },
    {
        let ghost turn = ConversationTurn { speaker, content, timestamp_ms, tokens };
        match self.step_conversations.pop() {
            Some(mut s) => {
                s.turns.push(ConversationTurn { speaker, content, timestamp_ms, tokens });
                self.step_conversations.push(s);
                proof {
                    let n = old(self).step_conversations@.len() - 1;
                    assert(self.step_conversations@.take(n) =~= old(self).step_conversations@.take(n));
                }
            },
            None => {},
        }
    }

    /// Record the session totals.
    pub fn finalize(&mut self, total_time_ms: u64, total_tokens: usize)
        ensures
            final(self).total_time_ms == total_time_ms,
            final(self).total_tokens == total_tokens,
            final(self).session_id == old(self).session_id,
            final(self).project_id == old(self).project_id,
            final(self).step_conversations == old(self).step_conversations,
    {
        self.total_time_ms = total_time_ms;
        self.total_tokens = total_tokens;
    }

    /// The log as markdown; `total_secs` is the total time in seconds with
    /// one decimal (`{:.1}`), formatted by the caller.
    pub fn to_markdown(&self, total_secs: &str) -> (r: String)
        requires
            ends_after_starts(self.step_conversations@),
        ensures
            r@ == log_md(*self, total_secs@),
    {
        let mut md = owned("# Conversation Log\n\n");
        md.append("**Total Time:** ");
        md.append(total_secs);
        md.append("s | **Total Tokens:** ~");
        push_decimal(&mut md, (self.total_tokens / 1000) as u64);
        md.append("K\n\n");
        md.append("---\n\n");
        let ghost head = md@;
        let mut i: usize = 0;
        while i < self.step_conversations.len()
            invariant
                i <= self.step_conversations@.len(),
                ends_after_starts(self.step_conversations@),
                md@ == head + steps_md(self.step_conversations@, i as int),
            decreases self.step_conversations.len() - i,
        {
            let s = &self.step_conversations[i];
            assert(s.end_time_ms matches Some(e) ==> e >= s.start_time_ms);
            append_step_md(&mut md, s);
            i = i + 1;
        }
        md
    }
}

// ---------------------------------------------------------------------------
// Simulated replies
// ---------------------------------------------------------------------------

#[verifier::external_type_specification]
#[verifier::external_body]
pub struct ExInstant(std::time::Instant);

/// `Instant::now`: the current instant of the monotonic clock; nothing is
/// stated of it.
#[verifier::external_body]
fn instant_now() -> std::time::Instant {
    std::time::Instant::now()
}

/// `Instant::elapsed` in whole milliseconds (`as_millis`, truncated to
/// `u64`); it reads the clock, so nothing is stated of the result.
#[verifier::external_body]
fn millis_since(start: &std::time::Instant) -> u64 {
    start.elapsed().as_millis() as u64
}

/// Context for generating a simulated case-owner reply.
pub struct ConversationContext {
    pub project_id: String,
    pub session_id: String,
    pub step: u8,
    pub step_name: String,
    pub history: Vec<ConversationTurn>,
    pub session_start: std::time::Instant,
}

/// `speaker: content` lines of the first `n` turns.
pub open spec fn history_lines(ts: Seq<ConversationTurn>, n: int) -> Seq<char>
    decreases n,
{
    if n <= 0 || n > ts.len() {
        Seq::empty()
    } else {
        history_lines(ts, n - 1) + ts[n - 1].speaker@ + ": "@ + ts[n - 1].content@ + "\n"@
    }
}

/// The prompt asking for a typical case-owner reply to a facilitator question.
pub open spec fn auto_response_prompt(history: Seq<ConversationTurn>, question: Seq<char>) -> Seq<char> {
    "You are simulating a typical user in a coaching session.\n\n"@ + (if history.len() == 0 {
        Seq::empty()
    } else {
        "## Conversation History\n\n"@ + history_lines(history, history.len() as int) + "\n"@
    }) + "## Current Question from Facilitator\n\n"@ + question + "\n\n"@
        + "## Your Task\nGenerate a natural, typical user response that:\n- Answers the question thoughtfully\n- Provides relevant information about their situation\n- Is concise but meaningful (2-4 sentences)\n- Feels authentic, not scripted\n\nRespond ONLY with the user's response, no quotes or labels."@
}

impl ConversationContext {
    /// A context with no history, started now.
    pub fn new(project_id: String, session_id: String, step: u8, step_name: String) -> (c: Self)
        ensures
            c.project_id == project_id,
            c.session_id == session_id,
            c.step == step,
            c.step_name == step_name,
            c.history@.len() == 0,
    {
        ConversationContext {
            project_id,
            session_id,
            step,
            step_name,
            history: Vec::new(),
            session_start: instant_now(),
        }
    }

    /// Milliseconds since the context was created (a clock reading).
    pub fn elapsed_ms(&self) -> u64 {
        millis_since(&self.session_start)
    }

    /// The prompt for a simulated case-owner reply: the history (when there
    /// is one), the facilitator's question, and the task.
    pub fn build_auto_response_prompt(&self, facilitator_question: &str) -> (r: String)
        ensures
            r@ == auto_response_prompt(self.history@, facilitator_question@),
    {
        let mut prompt = owned("You are simulating a typical user in a coaching session.\n\n");
        let ghost head = prompt@;
        if self.history.len() > 0 {
            prompt.append("## Conversation History\n\n");
            let ghost h2 = prompt@;
            let mut i: usize = 0;
            while i < self.history.len()
                invariant
                    i <= self.history@.len(),
                    prompt@ == h2 + history_lines(self.history@, i as int),
                decreases self.history.len() - i,
            {
                let t = &self.history[i];
                prompt.append(t.speaker.as_str());
                prompt.append(": ");
                prompt.append(t.content.as_str());
                prompt.append("\n");
                i = i + 1;
            }
            prompt.append("\n");
        }
        prompt.append("## Current Question from Facilitator\n\n");
        prompt.append(facilitator_question);
        prompt.append("\n\n");
        prompt.append("## Your Task\nGenerate a natural, typical user response that:\n- Answers the question thoughtfully\n- Provides relevant information about their situation\n- Is concise but meaningful (2-4 sentences)\n- Feels authentic, not scripted\n\nRespond ONLY with the user's response, no quotes or labels.");
        prompt
    }
}

} // verus!
