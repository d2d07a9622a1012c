//! Core helpers of the advisory flow: response-language enforcement,
//! reasoning-block stripping, and the session data records.

use std::collections::HashMap;
use vstd::prelude::*;

use crate::text::{
    append_chars, chars_of, concat_vec, contains, contains_exec, find, find_exec, lemma_find_from,
    occurs_at, owned, push_decimal, decimal, slice_vec, string_of, trim, trim_vec,
};

verus! {

// ---------------------------------------------------------------------------
// ensure_chinese_response
// ---------------------------------------------------------------------------

/// A Han ideograph in the basic block U+4E00..=U+9FA5.
pub open spec fn is_han(c: char) -> bool {
    0x4e00 <= (c as u32) && (c as u32) <= 0x9fa5
}

/// Number of Han ideographs among the first `n` characters of `s`.
pub open spec fn han_count(s: Seq<char>, n: int) -> int
    decreases n,
{
    if n <= 0 || n > s.len() {
        0
    } else {
        han_count(s, n - 1) + if is_han(s[n - 1]) {
            1int
        } else {
            0int
        }
    }
}

/// The marker that opens the Chinese-response directive.
pub open spec fn chinese_marker() -> Seq<char> {
    "【请全程使用中文回答"@
}

/// The directive prepended to Chinese questions.
pub open spec fn chinese_directive() -> Seq<char> {
    "【请全程使用中文回答下面这个问题，不要混入英文段落或英文 reasoning】\n\n"@
}

/// A text that already carries the marker is kept; one with at least five Han
/// ideographs gets the directive in front; any other text is kept.
pub open spec fn ensure_chinese(s: Seq<char>) -> Seq<char> {
    if contains(s, chinese_marker()) {
        s
    } else if han_count(s, s.len() as int) >= 5 {
        chinese_directive() + s
    } else {
        s
    }
}

/// If `text` holds at least five Chinese characters, prepend a hard
/// Chinese-response instruction; a text that already carries it is returned
/// unchanged.
pub fn ensure_chinese_response(text: &str) -> (r: String)
    ensures
        r@ == ensure_chinese(text@),
{
    let cs = chars_of(text);
    if contains_exec(&cs, &chars_of("【请全程使用中文回答")) {
        return owned(text);
    }
    let mut n: usize = 0;
    let mut i: usize = 0;
    while i < cs.len()
        invariant
            i <= cs@.len(),
            cs@ == text@,
            n == han_count(cs@, i as int),
            n <= i,
        decreases cs.len() - i,
    {
        let u = cs[i] as u32;
        if 0x4e00 <= u && u <= 0x9fa5 {
            n = n + 1;
        }
        i = i + 1;
    }
    if n >= 5 {
        let mut r = owned("【请全程使用中文回答下面这个问题，不要混入英文段落或英文 reasoning】\n\n");
        r.append(text);
        r
    } else {
        owned(text)
    }
}

/// Applying the directive twice is the same as applying it once.
pub proof fn lemma_ensure_chinese_idempotent(s: Seq<char>)
    ensures
        ensure_chinese(ensure_chinese(s)) == ensure_chinese(s),
{
    if !contains(s, chinese_marker()) && han_count(s, s.len() as int) >= 5 {
        let t = chinese_directive() + s;
        reveal_strlit("【请全程使用中文回答");
        reveal_strlit("【请全程使用中文回答下面这个问题，不要混入英文段落或英文 reasoning】\n\n");
        assert(t.subrange(0, chinese_marker().len() as int) =~= chinese_marker());
        assert(occurs_at(t, chinese_marker(), 0));
        lemma_find_from(t, chinese_marker(), 0);
    }
}

// ---------------------------------------------------------------------------
// strip_think_tags
// ---------------------------------------------------------------------------

pub open spec fn think_open() -> Seq<char> {
    "<think>"@
}

pub open spec fn think_close() -> Seq<char> {
    "</think>"@
}

/// Removes every `<think>…</think>` block; an unclosed `<think>` drops the rest.
pub open spec fn strip_think(s: Seq<char>) -> Seq<char>
    decreases s.len(),
{
    match find(s, think_open()) {
        None => s,
        Some(i) => {
            proof {
                lemma_find_from(s, think_open(), 0);
                reveal_strlit("<think>");
                reveal_strlit("</think>");
            }
            let after = s.skip(i + think_open().len());
            match find(after, think_close()) {
                None => s.take(i),
                Some(j) => {
                    proof {
                        lemma_find_from(after, think_close(), 0);
                    }
                    s.take(i) + strip_think(after.skip(j + think_close().len()))
                },
            }
        },
    }
}

/// Strip `<think>...</think>` reasoning blocks from model output, then trim.
/// Handles multi-line content and unclosed tags (everything after an
/// unclosed `<think>` is dropped).
pub fn strip_think_tags(s: &str) -> (r: String)
    ensures
        r@ == trim(strip_think(s@)),
{
    let open = chars_of("<think>");
    let close = chars_of("</think>");
    let mut rest = chars_of(s);
    let mut out: Vec<char> = Vec::new();
    loop
        invariant_except_break
            strip_think(s@) == out@ + strip_think(rest@),
        invariant
            open@ == think_open(),
            close@ == think_close(),
        ensures
            strip_think(s@) == out@,
        decreases rest@.len(),
    {
        match find_exec(&rest, &open) {
            None => {
                out = concat_vec(&out, &rest);
                break ;
            },
            Some(i) => {
                proof {
                    lemma_find_from(rest@, think_open(), 0);
                    reveal_strlit("<think>");
                    reveal_strlit("</think>");
                }
                let olen = open.len();
                assert(i + olen <= rest.len());
                let head = slice_vec(&rest, 0, i);
                let after = slice_vec(&rest, i + olen, rest.len());
                assert(after@ == rest@.skip(i + think_open().len()));
                assert(head@ == rest@.take(i as int));
                match find_exec(&after, &close) {
                    None => {
                        out = concat_vec(&out, &head);
                        assert(strip_think(rest@) == head@);
                        break ;
                    },
                    Some(j) => {
                        proof {
                            lemma_find_from(after@, think_close(), 0);
                        }
                        let next = slice_vec(&after, j + close.len(), after.len());
                        assert(next@ == after@.skip(j + think_close().len()));
                        assert(strip_think(rest@) == head@ + strip_think(next@));
                        out = concat_vec(&out, &head);
                        assert(strip_think(s@) == out@ + strip_think(next@));
                        rest = next;
                    },
                }
            },
        }
    }
    let t = trim_vec(&out);
    string_of(&t)
}

/// Text without any `<think>` tag comes back only trimmed.
pub proof fn lemma_strip_think_plain(s: Seq<char>)
    requires
        !contains(s, think_open()),
    ensures
        strip_think(s) == s,
{
}

// ---------------------------------------------------------------------------
// Session records
// ---------------------------------------------------------------------------

/// State machine for Step 2 "one-shot lock".
#[derive(Debug, Clone)]
pub enum DefineState {
    /// Initial state: no model call yet.
    Init,
    /// The facilitator produced a draft understanding awaiting confirmation.
    Confirming { attempt: u8, draft: String },
    /// The case-owner confirmed: the problem is locked.
    Locked,
}

/// One debate dimension extracted from the advisors' opinions.
#[derive(Debug, Clone)]
pub struct Dimension {
    pub name: String,
    pub core_conflict: String,
    pub pro_argument: String,
    pub con_argument: String,
}

/// What Step 8 produces.
#[derive(Debug, Clone)]
pub struct HarvestResult {
    pub evaluations: HashMap<String, String>,
    pub todos: String,
    pub insights: String,
    pub bayesian_update: Option<String>,
}

/// Metrics for a single step.
#[derive(Debug, Clone)]
pub struct StepMetrics {
    pub step: u8,
    pub step_name: String,
    pub duration_ms: u64,
    pub prompt_tokens: usize,
    pub completion_tokens: usize,
    pub total_tokens: usize,
}

/// All metrics of a session.
#[derive(Debug, Clone)]
pub struct SessionMetrics {
    pub steps: Vec<StepMetrics>,
    pub total_duration_ms: u64,
    pub total_prompt_tokens: usize,
    pub total_completion_tokens: usize,
    pub total_tokens: usize,
}

/// One step's block of the metrics report; `secs` is its duration in seconds
/// with one decimal, as the caller formatted it.
pub open spec fn step_metrics_md(m: StepMetrics, secs: Seq<char>) -> Seq<char> {
    "## Step "@ + decimal(m.step as nat) + ": "@ + m.step_name@ + "\n- **Duration:** "@ + decimal(
        m.duration_ms as nat,
    ) + "ms ("@ + secs + "s)\n- **Prompt tokens:** ~"@ + decimal(m.prompt_tokens as nat)
        + "\n- **Completion tokens:** ~"@ + decimal(m.completion_tokens as nat)
        + "\n- **Total tokens:** ~"@ + decimal(m.total_tokens as nat) + "\n\n"@
}

/// The blocks of the first `n` steps.
pub open spec fn steps_md(steps: Seq<StepMetrics>, secs: Seq<Seq<char>>, n: int) -> Seq<char>
    decreases n,
{
    if n <= 0 {
        Seq::empty()
    } else {
        steps_md(steps, secs, n - 1) + step_metrics_md(steps[n - 1], secs[n - 1])
    }
}

fn append_step_md(md: &mut String, st: &StepMetrics, secs: &str)
    ensures
        final(md)@ == old(md)@ + step_metrics_md(*st, secs@),
{
    md.append("## Step ");
    push_decimal(md, st.step as u64);
    md.append(": ");
    md.append(st.step_name.as_str());
    md.append("\n- **Duration:** ");
    push_decimal(md, st.duration_ms);
    md.append("ms (");
    md.append(secs);
    md.append("s)\n- **Prompt tokens:** ~");
    push_decimal(md, st.prompt_tokens as u64);
    md.append("\n- **Completion tokens:** ~");
    push_decimal(md, st.completion_tokens as u64);
    md.append("\n- **Total tokens:** ~");
    push_decimal(md, st.total_tokens as u64);
    md.append("\n\n");
}

impl SessionMetrics {
    /// Empty metrics.
    pub fn new() -> (m: Self)
        ensures
            m.steps@.len() == 0,
            m.total_duration_ms == 0,
            m.total_prompt_tokens == 0,
            m.total_completion_tokens == 0,
            m.total_tokens == 0,
    {
        SessionMetrics {
            steps: Vec::new(),
            total_duration_ms: 0,
            total_prompt_tokens: 0,
            total_completion_tokens: 0,
            total_tokens: 0,
        }
    }

    /// Records a step: its numbers are added to the totals and it is appended.
    pub fn add_step(&mut self, metrics: StepMetrics)
        requires
            old(self).total_duration_ms + metrics.duration_ms <= u64::MAX,
            old(self).total_prompt_tokens + metrics.prompt_tokens <= usize::MAX,
            old(self).total_completion_tokens + metrics.completion_tokens <= usize::MAX,
            old(self).total_tokens + metrics.total_tokens <= usize::MAX,
        ensures
            final(self).total_duration_ms == old(self).total_duration_ms + metrics.duration_ms,
            final(self).total_prompt_tokens == old(self).total_prompt_tokens
                + metrics.prompt_tokens,
            final(self).total_completion_tokens == old(self).total_completion_tokens
                + metrics.completion_tokens,
            final(self).total_tokens == old(self).total_tokens + metrics.total_tokens,
            final(self).steps@ == old(self).steps@.push(metrics),
    {
        self.total_duration_ms = self.total_duration_ms + metrics.duration_ms;
        self.total_prompt_tokens = self.total_prompt_tokens + metrics.prompt_tokens;
        self.total_completion_tokens = self.total_completion_tokens + metrics.completion_tokens;
        self.total_tokens = self.total_tokens + metrics.total_tokens;
        self.steps.push(metrics);
    }

    /// The markdown report. Durations in seconds are floating-point values
    /// rendered with one decimal by the caller: `total_secs` for the session
    /// and `step_secs[k]` for step `k`.
    pub open spec fn markdown(self, total_secs: Seq<char>, step_secs: Seq<Seq<char>>) -> Seq<char> {
        "# Session Metrics\n\n**Total Time:** "@ + total_secs + "s | **Total Tokens:** ~"@
            + decimal((self.total_tokens / 1000) as nat) + "K\n\n---\n\n"@ + steps_md(
            self.steps@,
            step_secs,
            self.steps@.len() as int,
        ) + "---\n\n**Totals:** "@ + total_secs + "s | ~"@ + decimal(
            (self.total_tokens / 1000) as nat,
        ) + "K tokens\n"@
    }

    /// Format metrics as a markdown report (see `markdown`).
    pub fn to_markdown(&self, total_secs: &str, step_secs: &Vec<String>) -> (r: String)
        requires
            step_secs@.len() == self.steps@.len(),
        ensures
            r@ == self.markdown(total_secs@, step_secs@.map_values(|s: String| s@)),
    {
        let ghost secs = step_secs@.map_values(|s: String| s@);
        let mut md = owned("# Session Metrics\n\n**Total Time:** ");
        md.append(total_secs);
        md.append("s | **Total Tokens:** ~");
        push_decimal(&mut md, (self.total_tokens / 1000) as u64);
        md.append("K\n\n---\n\n");
        let ghost head = md@;
        let mut k: usize = 0;
        while k < self.steps.len()
            invariant
                k <= self.steps@.len(),
                step_secs@.len() == self.steps@.len(),
                secs == step_secs@.map_values(|s: String| s@),
                md@ == head + steps_md(self.steps@, secs, k as int),
            decreases self.steps.len() - k,
        {
            append_step_md(&mut md, &self.steps[k], step_secs[k].as_str());
            assert(secs[k as int] == step_secs@[k as int]@);
            k = k + 1;
        }
        md.append("---\n\n**Totals:** ");
        md.append(total_secs);
        md.append("s | ~");
        push_decimal(&mut md, (self.total_tokens / 1000) as u64);
        md.append("K tokens\n");
        md
    }
}


/// Session state: progress through the eight-step flow.
#[derive(Debug, Clone)]
pub struct SessionState {
    pub project_id: String,
    pub session_id: String,
    pub raw_input: String,
    pub current_step: u8,
    pub defined: Option<String>,
    pub facts_qa: Option<String>,
    pub opinions: HashMap<String, String>,
    pub dimensions: Vec<Dimension>,
    /// Dimensions the case owner picked for the debate (at most three).
    pub selected_dimension_indices: Vec<usize>,
    pub debate_record: HashMap<String, String>,
    pub summary: Option<String>,
    pub harvest: Option<HarvestResult>,
}

impl SessionState {
    /// A fresh session at step 0 with nothing recorded yet.
    pub fn new(project_id: String, session_id: String, raw_input: String) -> (s: Self)
        ensures
            s.project_id == project_id,
            s.session_id == session_id,
            s.raw_input == raw_input,
            s.current_step == 0,
            s.defined is None,
            s.facts_qa is None,
            s.opinions@ == Map::<String, String>::empty(),
            s.dimensions@.len() == 0,
            s.selected_dimension_indices@.len() == 0,
            s.debate_record@ == Map::<String, String>::empty(),
            s.summary is None,
            s.harvest is None,
    {
        SessionState {
            project_id,
            session_id,
            raw_input,
            current_step: 0,
            defined: None,
            facts_qa: None,
            opinions: HashMap::new(),
            dimensions: Vec::new(),
            selected_dimension_indices: Vec::new(),
            debate_record: HashMap::new(),
            summary: None,
            harvest: None,
        }
    }
}

} // verus!
