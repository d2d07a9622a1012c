//! Decisions of the session flow, apart from the model calls and the file
//! reads that surround them: the Step 2 lock machine, which work a step
//! request runs, and the texts the steps write and send.

use vstd::prelude::*;

use crate::counsel::{strip_think, strip_think_tags, DefineState};
use crate::steps::is_confirmation_word;
use crate::sse::string_views;
use crate::steps::{split_on, split_on_exec};
use crate::text::{chars_of, lowercase, owned, string_of, trim, trim_vec, uppercase, views};

verus! {

// ---------------------------------------------------------------------------
// Step 2: the lock machine
// ---------------------------------------------------------------------------

/// What Step 2 does with its state and the case owner's input.
pub enum DefineAction {
    /// The topic is locked already: return the stored definition.
    ReturnLocked,
    /// Ask the facilitator for a first draft.
    Draft,
    /// Ask the facilitator to redraft with the case owner's correction.
    Correct { previous: String, correction: String },
    /// Lock this draft.
    Lock { draft: String },
    /// No transition applies.
    Invalid,
}

/// Whether a reply confirms the draft (trimmed, lowercased by
/// `str::to_lowercase`, one of the confirmation words).
pub open spec fn confirms(input: Seq<char>) -> bool {
    is_confirmation_word(lowercase(trim(input)))
}

/// The state as (kind, attempt, draft): 0 initial, 1 confirming, 2 locked.
pub open spec fn define_view(s: DefineState) -> (int, int, Seq<char>) {
    match s {
        DefineState::Init => (0, 0, Seq::empty()),
        DefineState::Confirming { attempt, draft } => (1, attempt as int, draft@),
        DefineState::Locked => (2, 0, Seq::empty()),
    }
}

/// The action as (kind, first text, second text): 0 return locked, 1 draft,
/// 2 correct (previous draft, correction), 3 lock (draft), 4 invalid.
pub open spec fn action_view(a: DefineAction) -> (int, Seq<char>, Seq<char>) {
    match a {
        DefineAction::ReturnLocked => (0, Seq::empty(), Seq::empty()),
        DefineAction::Draft => (1, Seq::empty(), Seq::empty()),
        DefineAction::Correct { previous, correction } => (2, previous@, correction@),
        DefineAction::Lock { draft } => (3, draft@, Seq::empty()),
        DefineAction::Invalid => (4, Seq::empty(), Seq::empty()),
    }
}

/// The Step 2 decision: a locked topic stays locked; the first call drafts;
/// a confirming reply locks the draft; the first correction redrafts; from
/// the second draft on any reply locks; anything else is invalid.
pub open spec fn define_decision(st: (int, int, Seq<char>), input: Option<Seq<char>>) -> (int, Seq<char>, Seq<char>) {
    if st.0 == 2 {
        (0, Seq::empty(), Seq::empty())
    } else if st.0 == 0 {
        (1, Seq::empty(), Seq::empty())
    } else {
        match input {
            Some(i) => if confirms(i) {
                (3, st.2, Seq::empty())
            } else if st.1 == 1 {
                (2, st.2, i)
            } else if st.1 >= 2 {
                (3, st.2, Seq::empty())
            } else {
                (4, Seq::empty(), Seq::empty())
            },
            None => if st.1 >= 2 {
                (3, st.2, Seq::empty())
            } else {
                (4, Seq::empty(), Seq::empty())
            },
        }
    }
}

/// The state after a facilitator draft: locked at once in auto-simulation,
/// else awaiting confirmation of that draft as attempt `attempt`.
pub open spec fn after_draft(auto_simulate: bool, attempt: int, draft: Seq<char>) -> (int, int, Seq<char>) {
    if auto_simulate {
        (2, 0, Seq::empty())
    } else {
        (1, attempt, draft)
    }
}

/// One Step 2 call with its model reply: the next state, or none when the
/// call is invalid.
pub open spec fn define_next(
    st: (int, int, Seq<char>),
    input: Option<Seq<char>>,
    auto_simulate: bool,
    reply: Seq<char>,
) -> Option<(int, int, Seq<char>)> {
    let d = define_decision(st, input);
    if d.0 == 0 {
        Some(st)
    } else if d.0 == 1 {
        Some(after_draft(auto_simulate, 1, reply))
    } else if d.0 == 2 {
        Some(after_draft(auto_simulate, 2, reply))
    } else if d.0 == 3 {
        Some((2, 0, Seq::empty()))
    } else {
        None
    }
}

/// What Step 2 does (see `define_decision`); `input` is the case owner's
/// reply, if any.
pub fn define_action(state: &DefineState, input: Option<&str>) -> (r: DefineAction)
    ensures
        action_view(r) == define_decision(
            define_view(*state),
            match input {
                Some(i) => Some(i@),
                None => None,
            },
        ),
{
    match state {
        DefineState::Locked => DefineAction::ReturnLocked,
        DefineState::Init => DefineAction::Draft,
        DefineState::Confirming { attempt, draft } => {
            match input {
                Some(i) => {
                    if crate::steps::is_confirmation(i) {
                        DefineAction::Lock { draft: draft.clone() }
                    } else if *attempt == 1 {
                        DefineAction::Correct { previous: draft.clone(), correction: owned(i) }
                    } else if *attempt >= 2 {
                        DefineAction::Lock { draft: draft.clone() }
                    } else {
                        DefineAction::Invalid
                    }
                },
                None => {
                    if *attempt >= 2 {
                        DefineAction::Lock { draft: draft.clone() }
                    } else {
                        DefineAction::Invalid
                    }
                },
            }
        },
    }
}

/// The state after a facilitator draft (see `after_draft`).
pub fn define_after_draft(auto_simulate: bool, attempt: u8, draft: String) -> (r: DefineState)
    ensures
        define_view(r) == after_draft(auto_simulate, attempt as int, draft@),
{
    if auto_simulate {
        DefineState::Locked
    } else {
        DefineState::Confirming { attempt, draft }
    }
}

/// The text a Step 2 call returns, the state it leaves and, when that state
/// is locked, what `01-defined.md` then holds; none when the call is invalid.
/// `stored` is the saved definition (read only when the topic is locked
/// already) and `reply` the facilitator's draft (read only when the decision
/// asks for one). A topic that was locked already is returned as stored and
/// nothing is written; a lock writes the locked text without its
/// `<think>` blocks, trimmed.
pub open spec fn define_outcome_of(
    st: (int, int, Seq<char>),
    input: Option<Seq<char>>,
    auto_simulate: bool,
    stored: Seq<char>,
    reply: Seq<char>,
) -> Option<(Seq<char>, (int, int, Seq<char>), Option<Seq<char>>)> {
    let d = define_decision(st, input);
    if d.0 == 0 {
        Some((stored, (2, 0, Seq::empty()), None))
    } else if d.0 == 1 || d.0 == 2 {
        Some(
            (
                reply,
                after_draft(auto_simulate, d.0, reply),
                if auto_simulate {
                    Some(trim(strip_think(reply)))
                } else {
                    None
                },
            ),
        )
    } else if d.0 == 3 {
        Some((d.1, (2, 0, Seq::empty()), Some(trim(strip_think(d.1)))))
    } else {
        None
    }
}

/// The outcome of one Step 2 call (see `define_outcome_of`): the returned
/// text, the next state, and the content of `01-defined.md` when the call
/// locks the topic.
pub fn define_outcome(
    state: &DefineState,
    input: Option<&str>,
    auto_simulate: bool,
    stored: &str,
    reply: &str,
) -> (r: Option<(String, DefineState, Option<String>)>)
    ensures
        (match r {
            Some(o) => Some((o.0@, define_view(o.1), match o.2 {
                Some(f) => Some(f@),
                None => None,
            })),
            None => None,
        }) == define_outcome_of(
            define_view(*state),
            match input {
                Some(i) => Some(i@),
                None => None,
            },
            auto_simulate,
            stored@,
            reply@,
        ),
{
    match define_action(state, input) {
        DefineAction::ReturnLocked => Some((owned(stored), DefineState::Locked, None)),
        DefineAction::Draft => {
            let next = define_after_draft(auto_simulate, 1, owned(reply));
            let file = if auto_simulate {
                Some(strip_think_tags(reply))
            } else {
                None
            };
            Some((owned(reply), next, file))
        },
        DefineAction::Correct { .. } => {
            let next = define_after_draft(auto_simulate, 2, owned(reply));
            let file = if auto_simulate {
                Some(strip_think_tags(reply))
            } else {
                None
            };
            Some((owned(reply), next, file))
        },
        DefineAction::Lock { draft } => {
            let file = strip_think_tags(draft.as_str());
            Some((draft, DefineState::Locked, Some(file)))
        },
        DefineAction::Invalid => None,
    }
}

/// A locked topic stays locked whatever the case owner sends.
pub proof fn lemma_define_locked_absorbing(input: Option<Seq<char>>, auto_simulate: bool, reply: Seq<char>)
    ensures
        define_next((2, 0, Seq::empty()), input, auto_simulate, reply) == Some(
            (2int, 0int, Seq::<char>::empty()),
        ),
{
}

/// From the second draft on, any reply (or none) locks the topic.
pub proof fn lemma_define_force_lock(draft: Seq<char>, attempt: int, input: Option<Seq<char>>, auto_simulate: bool, reply: Seq<char>)
    requires
        attempt >= 2,
    ensures
        define_next((1, attempt, draft), input, auto_simulate, reply) == Some(
            (2int, 0int, Seq::<char>::empty()),
        ),
{
}

/// A confirming reply locks the draft it confirms.
pub proof fn lemma_define_confirm_locks(draft: Seq<char>, attempt: int, input: Seq<char>, auto_simulate: bool, reply: Seq<char>)
    requires
        confirms(input),
    ensures
        define_decision((1, attempt, draft), Some(input)) == (3int, draft, Seq::<char>::empty()),
        define_next((1, attempt, draft), Some(input), auto_simulate, reply) == Some(
            (2int, 0int, Seq::<char>::empty()),
        ),
{
}

/// Whatever the case owner replies, a topic is locked by the third call:
/// draft, then at most one redraft, then a lock.
pub proof fn lemma_define_locks_by_third_call(
    i1: Option<Seq<char>>,
    i2: Seq<char>,
    i3: Option<Seq<char>>,
    r1: Seq<char>,
    r2: Seq<char>,
    r3: Seq<char>,
    auto_simulate: bool,
)
    ensures
        ({
            let s1 = define_next((0, 0, Seq::empty()), i1, auto_simulate, r1).unwrap();
            let s2 = define_next(s1, Some(i2), auto_simulate, r2).unwrap();
            &&& define_next((0, 0, Seq::empty()), i1, auto_simulate, r1) is Some
            &&& define_next(s1, Some(i2), auto_simulate, r2) is Some
            &&& define_next(s2, i3, auto_simulate, r3) == Some((2int, 0int, Seq::<char>::empty()))
        }),
{
}

// ---------------------------------------------------------------------------
// Step dispatch
// ---------------------------------------------------------------------------

/// The work one step request runs.
pub enum StepPlan {
    /// Step 1: record the raw input.
    MarkRawInput,
    /// Step 2: the lock machine.
    Define,
    /// Step 3: store the case owner's answers.
    SaveAnswers,
    /// The step's output is stored already: report it cached.
    Cached,
    /// Step 3: ask the advisors' fact questions.
    RunFacts,
    /// Step 4: the advisors' opinions.
    RunOpinions,
    /// Steps 5 and 6 with a single advisor: write a marker and skip.
    SkipSingleAdvisor,
    /// Step 5: extract the dimensions.
    RunDimensions,
    /// Step 6: debate the selected dimensions.
    RunDebate,
    /// Step 7: pre-mortem and summary side by side.
    RunPremortemAndSummary,
    /// Step 8: evaluations, to-dos and the belief update.
    RunHarvest,
    /// Not a step.
    Invalid,
}

/// The stored file whose presence makes a step cached (Step 4 uses the
/// opinions directory instead).
pub open spec fn cache_file_of(step: u8) -> Option<Seq<char>> {
    if step == 3 {
        Some("02-facts-answers.md"@)
    } else if step == 5 {
        Some("04-dimensions.md"@)
    } else if step == 6 {
        Some("05-debate.md"@)
    } else if step == 7 {
        Some("06-summary.md"@)
    } else if step == 8 {
        Some("07-harvest.md"@)
    } else {
        None
    }
}

/// The file that marks a step as cached (see `cache_file_of`).
pub fn cache_file(step: u8) -> (r: Option<&'static str>)
    ensures
        match cache_file_of(step) {
            Some(f) => r matches Some(x) && x@ == f,
            None => r is None,
        },
{
    match step {
        3 => Some("02-facts-answers.md"),
        5 => Some("04-dimensions.md"),
        6 => Some("05-debate.md"),
        7 => Some("06-summary.md"),
        8 => Some("07-harvest.md"),
        _ => None,
    }
}

/// The plan as a number, in the order of `StepPlan`'s variants.
pub open spec fn plan_code(p: StepPlan) -> int {
    match p {
        StepPlan::MarkRawInput => 0,
        StepPlan::Define => 1,
        StepPlan::SaveAnswers => 2,
        StepPlan::Cached => 3,
        StepPlan::RunFacts => 4,
        StepPlan::RunOpinions => 5,
        StepPlan::SkipSingleAdvisor => 6,
        StepPlan::RunDimensions => 7,
        StepPlan::RunDebate => 8,
        StepPlan::RunPremortemAndSummary => 9,
        StepPlan::RunHarvest => 10,
        StepPlan::Invalid => 11,
    }
}

/// What a step request runs: submitted answers are stored (Step 3); a step
/// with a single advisor skips dimensions and debate; stored output is
/// reported cached (`cached` is false under a forced refresh); otherwise the
/// step's work runs.
pub open spec fn step_plan(step: u8, has_answers: bool, cached: bool, active_advisors: int) -> int {
    if step == 1 {
        0
    } else if step == 2 {
        1
    } else if step == 3 {
        if has_answers {
            2
        } else if cached {
            3
        } else {
            4
        }
    } else if step == 4 {
        if cached {
            3
        } else {
            5
        }
    } else if step == 5 || step == 6 {
        if active_advisors <= 1 {
            6
        } else if cached {
            3
        } else if step == 5 {
            7
        } else {
            8
        }
    } else if step == 7 {
        if cached {
            3
        } else {
            9
        }
    } else if step == 8 {
        if cached {
            3
        } else {
            10
        }
    } else {
        11
    }
}

/// What a step request runs (see `step_plan`); `input` is the request's
/// input, `cached` whether the step's output is stored and no refresh was
/// forced, `active_advisors` the size of the session's roster.
pub fn plan_step(step: u8, input: Option<&str>, cached: bool, active_advisors: usize) -> (r: StepPlan)
    ensures
        plan_code(r) == step_plan(
            step,
            input matches Some(i) && i@.len() > 0,
            cached,
            active_advisors as int,
        ),
{
    let has_answers = match input {
        Some(i) => !i.is_empty(),
        None => false,
    };
    match step {
        1 => StepPlan::MarkRawInput,
        2 => StepPlan::Define,
        3 => if has_answers {
            StepPlan::SaveAnswers
        } else if cached {
            StepPlan::Cached
        } else {
            StepPlan::RunFacts
        },
        4 => if cached {
            StepPlan::Cached
        } else {
            StepPlan::RunOpinions
        },
        5 | 6 => if active_advisors <= 1 {
            StepPlan::SkipSingleAdvisor
        } else if cached {
            StepPlan::Cached
        } else if step == 5 {
            StepPlan::RunDimensions
        } else {
            StepPlan::RunDebate
        },
        7 => if cached {
            StepPlan::Cached
        } else {
            StepPlan::RunPremortemAndSummary
        },
        8 => if cached {
            StepPlan::Cached
        } else {
            StepPlan::RunHarvest
        },
        _ => StepPlan::Invalid,
    }
}

/// The error of a request for a step that does not exist.
pub fn invalid_step_message(step: u8) -> (r: String)
    ensures
        r@ == "Invalid step: "@ + crate::text::decimal(step as nat),
{
    let mut m = owned("Invalid step: ");
    crate::text::push_decimal(&mut m, step as u64);
    m
}

/// The marker file written when a single advisor skips Step 5 or 6: its
/// name, content, and the message shown.
pub fn single_advisor_marker(step: u8) -> (r: (&'static str, &'static str, &'static str))
    requires
        step == 5 || step == 6,
    ensures
        step == 5 ==> r.0@ == "04-dimensions.md"@
            && r.1@ == "# 单一视角场景 — 维度拆分已跳过\n\n*当前只有一位幕僚在场，不存在正反分野，已跳过 Step 5 维度拆分。直接进入 Step 7 归纳。*\n"@
            && r.2@ == "单一视角场景，无需拆分维度。"@,
        step == 6 ==> r.0@ == "05-debate.md"@
            && r.1@ == "# 辩论已跳过\n\n*单一视角场景，无正反辩论。Step 7 归纳会直接采用 Step 4 的 opinion 作为素材。*\n"@
            && r.2@ == "单一视角场景，无需辩论。"@,
{
    if step == 5 {
        (
            "04-dimensions.md",
            "# 单一视角场景 — 维度拆分已跳过\n\n*当前只有一位幕僚在场，不存在正反分野，已跳过 Step 5 维度拆分。直接进入 Step 7 归纳。*\n",
            "单一视角场景，无需拆分维度。",
        )
    } else {
        (
            "05-debate.md",
            "# 辩论已跳过\n\n*单一视角场景，无正反辩论。Step 7 归纳会直接采用 Step 4 的 opinion 作为素材。*\n",
            "单一视角场景，无需辩论。",
        )
    }
}

// ---------------------------------------------------------------------------
// Step 3: fact questions
// ---------------------------------------------------------------------------

/// The instruction each advisor gets with its fact-gathering prompt.
pub fn facts_user_message(name: &str, angle: &str) -> (r: String)
    ensures
        r@ == "**你是 "@ + name@ + "**（不是其他幕僚——不要把别人的故事或角度安到自己头上）。你负责的角度是「"@ + angle@
            + "」。\n\n从这个角度出发，向案主提出 **1-2 个开放式的事实问题**。\n- 第一句必须是问题本身，不能是 \"我当年...\" 之类的故事开头\n- 不要二选一（包括 \"X 还是 Y\"、\"哪个更重\"、\"(A) 还是 (B)\"、\"是 X 推你 还是 Y 推你\" 这些伪装形式都禁止）\n- 不要主观感受 / 哲学题（\"你怕什么？\" / \"你真正想成为谁？\" 都是错的）\n- 历史锚点只能放最后 1 句，且必须直接照亮你刚问的那条事实；无关就完全不写\n- 总长 2-5 句中文"@,
{
    let mut s = owned("**你是 ");
    s.append(name);
    s.append("**（不是其他幕僚——不要把别人的故事或角度安到自己头上）。你负责的角度是「");
    s.append(angle);
    s.append("」。\n\n从这个角度出发，向案主提出 **1-2 个开放式的事实问题**。\n- 第一句必须是问题本身，不能是 \"我当年...\" 之类的故事开头\n- 不要二选一（包括 \"X 还是 Y\"、\"哪个更重\"、\"(A) 还是 (B)\"、\"是 X 推你 还是 Y 推你\" 这些伪装形式都禁止）\n- 不要主观感受 / 哲学题（\"你怕什么？\" / \"你真正想成为谁？\" 都是错的）\n- 历史锚点只能放最后 1 句，且必须直接照亮你刚问的那条事实；无关就完全不写\n- 总长 2-5 句中文");
    s
}

/// An advisor's question, trimmed, unless it is empty or "N/A" (in any
/// case; `uppercase` stands for `str::to_uppercase`).
pub open spec fn kept_question(text: Seq<char>) -> Option<Seq<char>> {
    let t = trim(text);
    if uppercase(t) == "N/A"@ || t.len() == 0 {
        None
    } else {
        Some(t)
    }
}

/// An advisor's question to keep (see `kept_question`).
pub fn keep_question(text: &str) -> (r: Option<String>)
    ensures
        match kept_question(text@) {
            Some(q) => r matches Some(x) && x@ == q,
            None => r is None,
        },
{
    let t = trim_vec(&chars_of(text));
    let up = crate::text::to_uppercase_vec(&t);
    if crate::text::seq_eq(&up, &chars_of("N/A")) || t.len() == 0 {
        None
    } else {
        Some(string_of(&t))
    }
}

/// The prompt for a simulated answer to one advisor question.
pub fn auto_answer_prompt(name: &str, question: &str, raw_input: &str, defined: &str) -> (r: String)
    ensures
        r@ == "As the client, answer this question from "@ + name@ + " about your situation:\n\nQuestion: "@
            + question@ + "\n\nContext:\n- Raw input: "@ + raw_input@ + "\n- Defined topic: "@ + defined@
            + "\n\nProvide a clear, direct answer in 2-3 sentences."@,
{
    let mut s = owned("As the client, answer this question from ");
    s.append(name);
    s.append(" about your situation:\n\nQuestion: ");
    s.append(question);
    s.append("\n\nContext:\n- Raw input: ");
    s.append(raw_input);
    s.append("\n- Defined topic: ");
    s.append(defined);
    s.append("\n\nProvide a clear, direct answer in 2-3 sentences.");
    s
}

/// One advisor's question with the simulated answer, as appended to the
/// answers file.
pub fn qa_block(name: &str, question: &str, answer: &str) -> (r: String)
    ensures
        r@ == "\n\n## "@ + name@ + " Questions\n"@ + question@ + "\n\n## Client's Answer\n"@ + trim(answer@)
            + "\n"@,
{
    let mut s = owned("\n\n## ");
    s.append(name);
    s.append(" Questions\n");
    s.append(question);
    s.append("\n\n## Client's Answer\n");
    crate::text::append_chars(&mut s, &trim_vec(&chars_of(answer)));
    s.append("\n");
    s
}

// ---------------------------------------------------------------------------
// Sections, follow-ups, freestyle, harvest
// ---------------------------------------------------------------------------

/// "## name\nbody" for each pair, bodies trimmed when asked, joined by a
/// blank line.
pub open spec fn sections_text(pairs: Seq<(String, String)>, trim_bodies: bool, n: int) -> Seq<char>
    decreases n,
{
    if n <= 0 || n > pairs.len() {
        Seq::empty()
    } else {
        let body = if trim_bodies {
            trim(pairs[n - 1].1@)
        } else {
            pairs[n - 1].1@
        };
        let block = "## "@ + pairs[n - 1].0@ + "\n"@ + body;
        if n == 1 {
            block
        } else {
            sections_text(pairs, trim_bodies, n - 1) + "\n\n"@ + block
        }
    }
}

/// Named texts as markdown sections (see `sections_text`): the opinions
/// given to a synthesis, or the advisors' actions.
pub fn sections_md(pairs: &Vec<(String, String)>, trim_bodies: bool) -> (r: String)
    ensures
        r@ == sections_text(pairs@, trim_bodies, pairs@.len() as int),
{
    let mut s = String::new();
    let mut i: usize = 0;
    while i < pairs.len()
        invariant
            i <= pairs@.len(),
            s@ == sections_text(pairs@, trim_bodies, i as int),
        decreases pairs.len() - i,
    {
        if i > 0 {
            s.append("\n\n");
        }
        s.append("## ");
        s.append(pairs[i].0.as_str());
        s.append("\n");
        if trim_bodies {
            crate::text::append_chars(&mut s, &trim_vec(&chars_of(pairs[i].1.as_str())));
        } else {
            s.append(pairs[i].1.as_str());
        }
        i = i + 1;
    }
    s
}

/// Whether a follow-up question is long enough (two characters after
/// trimming).
pub fn follow_up_ok(question: &str) -> (r: bool)
    ensures
        r == (trim(question@).len() >= 2),
{
    trim_vec(&chars_of(question)).len() >= 2
}

/// The file holding an advisor's opinion: its name with spaces as dashes.
pub open spec fn opinion_file_of(name: Seq<char>) -> Seq<char> {
    "03-opinions/"@ + name.map_values(|c: char| if c == ' ' {
        '-'
    } else {
        c
    }) + ".md"@
}

/// The file holding an advisor's opinion (see `opinion_file_of`).
pub fn opinion_filename(name: &str) -> (r: String)
    ensures
        r@ == opinion_file_of(name@),
{
    let cs = chars_of(name);
    let mut dashed: Vec<char> = Vec::new();
    let mut i: usize = 0;
    while i < cs.len()
        invariant
            i <= cs@.len(),
            cs@ == name@,
            dashed@ == name@.take(i as int).map_values(|c: char| if c == ' ' {
                '-'
            } else {
                c
            }),
        decreases cs.len() - i,
    {
        let c = cs[i];
        dashed.push(if c == ' ' {
            '-'
        } else {
            c
        });
        proof {
            assert(name@.take(i + 1) =~= name@.take(i as int).push(c));
        }
        i = i + 1;
        assert(dashed@ =~= name@.take(i as int).map_values(|c: char| if c == ' ' {
            '-'
        } else {
            c
        }));
    }
    assert(name@.take(cs@.len() as int) =~= name@);
    let mut s = owned("03-opinions/");
    crate::text::append_chars(&mut s, &dashed);
    s.append(".md");
    s
}

/// The opinion file after a follow-up: the opinion (trailing space
/// trimmed), the question with its time, and the cleaned answer.
pub fn appended_opinion(prior: &str, ts: &str, question: &str, answer: &str) -> (r: String)
    ensures
        r@ == crate::text::trim_end(prior@) + "\n\n### 用户追问 ("@ + ts@ + ")\n"@ + question@
            + "\n\n### 回应\n"@ + trim(crate::counsel::strip_think(answer@)) + "\n"@,
{
    let mut s = string_of(&crate::text::trim_end_vec(&chars_of(prior)));
    s.append("\n\n### 用户追问 (");
    s.append(ts);
    s.append(")\n");
    s.append(question);
    s.append("\n\n### 回应\n");
    s.append(crate::counsel::strip_think_tags(answer).as_str());
    s.append("\n");
    s
}

/// The note recorded for an advisor whose action call failed.
pub fn action_failure_note(name: &str) -> (r: String)
    ensures
        r@ == "_（"@ + name@ + " 此次未能给出行动建议——LLM 调用失败。）_"@,
{
    let mut s = owned("_（");
    s.append(name);
    s.append(" 此次未能给出行动建议——LLM 调用失败。）_");
    s
}

/// The note recorded for an advisor whose evaluation call failed.
pub fn eval_failure_note(name: &str, error: &str) -> (r: String)
    ensures
        r@ == "_（"@ + name@ + " 此次评价未能返回——LLM 调用失败："@ + error@ + "。可在 Settings 切换模型或重试。）_"@,
{
    let mut s = owned("_（");
    s.append(name);
    s.append(" 此次评价未能返回——LLM 调用失败：");
    s.append(error);
    s.append("。可在 Settings 切换模型或重试。）_");
    s
}

/// What the harvest reads as the session's outcome: the summary, else the
/// debate, else the opinions.
pub open spec fn harvest_source_of(summary: Seq<char>, debate: Seq<char>, opinions: Seq<char>) -> Seq<char> {
    if summary.len() > 0 {
        summary
    } else if debate.len() > 0 {
        debate
    } else {
        opinions
    }
}

/// What the harvest reads (see `harvest_source_of`).
pub fn harvest_source(summary: String, debate: String, opinions: String) -> (r: String)
    ensures
        r@ == harvest_source_of(summary@, debate@, opinions@),
{
    if !summary.as_str().is_empty() {
        summary
    } else if !debate.as_str().is_empty() {
        debate
    } else {
        opinions
    }
}

/// The project's belief system after a session: its latest posterior.
pub fn belief_system_content(session_id: &str, date: &str, posterior: &str) -> (r: String)
    ensures
        r@ == "# 信念体系（最新 Posterior）\n\n*本项目最近一次私董会更新的贝叶斯信念。Session "@ + session_id@ + " 于 "@
            + date@ + " 产出。新 session 开始时作为 Prior 注入 Step 2 主持人 prompt。*\n\n---\n\n"@ + posterior@
            + "\n"@,
{
    let mut s = owned("# 信念体系（最新 Posterior）\n\n*本项目最近一次私董会更新的贝叶斯信念。Session ");
    s.append(session_id);
    s.append(" 于 ");
    s.append(date);
    s.append(" 产出。新 session 开始时作为 Prior 注入 Step 2 主持人 prompt。*\n\n---\n\n");
    s.append(posterior);
    s.append("\n");
    s
}

pub open spec fn evals_text(pairs: Seq<(String, String)>, n: int) -> Seq<char>
    decreases n,
{
    if n <= 0 || n > pairs.len() {
        "# 幕僚对案主的观察与评价\n\n"@
    } else {
        evals_text(pairs, n - 1) + "## "@ + pairs[n - 1].0@ + "\n\n"@ + pairs[n - 1].1@ + "\n\n---\n\n"@
    }
}

/// The advisors' evaluations of the case owner, one section each, in the
/// order given (by name).
pub fn evals_markdown(pairs: &Vec<(String, String)>) -> (r: String)
    ensures
        r@ == evals_text(pairs@, pairs@.len() as int),
{
    let mut s = owned("# 幕僚对案主的观察与评价\n\n");
    let mut i: usize = 0;
    while i < pairs.len()
        invariant
            i <= pairs@.len(),
            s@ == evals_text(pairs@, i as int),
        decreases pairs.len() - i,
    {
        s.append("## ");
        s.append(pairs[i].0.as_str());
        s.append("\n\n");
        s.append(pairs[i].1.as_str());
        s.append("\n\n---\n\n");
        i = i + 1;
    }
    s
}

// ---------------------------------------------------------------------------
// Fact answers, opinions and the summary's source
// ---------------------------------------------------------------------------

/// Whether the case owner's answers are a JSON array (they start with `[`).
pub fn answers_look_like_json(text: &str) -> (r: bool)
    ensures
        r == crate::text::starts_with(crate::text::trim_start(text@), "["@),
{
    let t = crate::text::trim_start_vec(&chars_of(text));
    crate::text::starts_with_str(&t, "[")
}

/// The trimmed, non-blank pieces among the first `n` of `ps`.
pub open spec fn nonblank_trimmed(ps: Seq<Seq<char>>, n: int) -> Seq<Seq<char>>
    decreases n,
{
    if n <= 0 || n > ps.len() {
        Seq::empty()
    } else if trim(ps[n - 1]).len() > 0 {
        nonblank_trimmed(ps, n - 1).push(trim(ps[n - 1]))
    } else {
        nonblank_trimmed(ps, n - 1)
    }
}

/// Plain-text answers: the non-blank paragraphs when there is one for each
/// of the `n` questions, else the whole text as the answer to every one.
pub open spec fn plain_answers(s: Seq<char>, n: nat) -> Seq<Seq<char>> {
    let ps = split_on(s, "\n\n"@);
    let parts = nonblank_trimmed(ps, ps.len() as int);
    if parts.len() >= n {
        parts
    } else {
        Seq::new(n, |i: int| s)
    }
}

/// Splits plain-text answers among `n` questions (see `plain_answers`).
pub fn split_plain_answers(text: &str, n: usize) -> (r: Vec<String>)
    ensures
        string_views(r@) == plain_answers(text@, n as nat),
{
    let cs = chars_of(text);
    proof {
        reveal_strlit("\n\n");
    }
    let pieces = split_on_exec(&cs, "\n\n");
    let ghost ps = split_on(text@, "\n\n"@);
    let mut parts: Vec<String> = Vec::new();
    let mut i: usize = 0;
    while i < pieces.len()
        invariant
            i <= pieces@.len(),
            views(pieces@) == ps,
            string_views(parts@) == nonblank_trimmed(ps, i as int),
        decreases pieces.len() - i,
    {
        assert(ps[i as int] == pieces@[i as int]@);
        let t = trim_vec(&pieces[i]);
        if t.len() > 0 {
            parts.push(string_of(&t));
            assert(string_views(parts@) =~= nonblank_trimmed(ps, i as int).push(t@));
        }
        i = i + 1;
    }
    if parts.len() >= n {
        parts
    } else {
        let mut all: Vec<String> = Vec::new();
        let mut k: usize = 0;
        while k < n
            invariant
                k <= n,
                all@.len() == k,
                forall|j: int| 0 <= j < k ==> #[trigger] all@[j]@ == text@,
            decreases n - k,
        {
            all.push(owned(text));
            k = k + 1;
        }
        assert(string_views(all@) =~= Seq::new(n as nat, |j: int| text@));
        all
    }
}

/// The answers file: each advisor's question with the answer at the same
/// position, `（未回答）` where there is none.
pub open spec fn answers_text(qs: Seq<(String, String)>, ans: Seq<String>, n: int) -> Seq<char>
    decreases n,
{
    if n <= 0 || n > qs.len() {
        Seq::empty()
    } else {
        answers_text(qs, ans, n - 1) + "\n\n## "@ + qs[n - 1].0@ + " Questions\n"@ + qs[n
            - 1].1@ + "\n\n## Client's Answer\n"@ + (if n - 1 < ans.len() {
            ans[n - 1]@
        } else {
            "（未回答）"@
        }) + "\n"@
    }
}

/// Writes the answers file from `(advisor, question)` pairs and the answers.
pub fn facts_answers_md(questions: &Vec<(String, String)>, answers: &Vec<String>) -> (r: String)
    ensures
        r@ == answers_text(questions@, answers@, questions@.len() as int),
{
    let mut s = String::new();
    let mut i: usize = 0;
    while i < questions.len()
        invariant
            i <= questions@.len(),
            s@ == answers_text(questions@, answers@, i as int),
        decreases questions.len() - i,
    {
        s.append("\n\n## ");
        s.append(questions[i].0.as_str());
        s.append(" Questions\n");
        s.append(questions[i].1.as_str());
        s.append("\n\n## Client's Answer\n");
        if i < answers.len() {
            s.append(answers[i].as_str());
        } else {
            s.append("（未回答）");
        }
        s.append("\n");
        i = i + 1;
    }
    s
}

/// What an advisor's opinion file says when its call failed.
pub fn opinion_failure_note(name: &str, error: &str) -> (r: String)
    ensures
        r@ == "_（"@ + name@ + " 此次未能返回意见——LLM 调用失败："@ + error@
            + "。可在 Settings 切换模型或重试。）_"@,
{
    let mut s = owned("_（");
    s.append(name);
    s.append(" 此次未能返回意见——LLM 调用失败：");
    s.append(error);
    s.append("。可在 Settings 切换模型或重试。）_");
    s
}

/// Whether the debate file holds no debate: blank, or the skipped marker.
pub open spec fn debate_skipped(debate: Seq<char>) -> bool {
    trim(debate).len() == 0 || crate::text::contains(debate, "辩论已跳过"@)
}

/// Whether the debate file holds no debate (see `debate_skipped`).
pub fn debate_is_skipped(debate: &str) -> (r: bool)
    ensures
        r == debate_skipped(debate@),
{
    let d = chars_of(debate);
    trim_vec(&d).len() == 0 || crate::text::contains_str(&d, "辩论已跳过")
}

/// What the summary synthesizes from: the debate, or, when there was none
/// and opinions exist, the opinions under a header.
pub open spec fn summary_source_of(debate: Seq<char>, opinions: Seq<(String, String)>) -> Seq<char> {
    if debate_skipped(debate) && opinions.len() > 0 {
        "# 单一视角 / 意见一致场景 — 直接采用 Step 4 的 opinion\n\n"@ + sections_text(
            opinions,
            false,
            opinions.len() as int,
        )
    } else {
        debate
    }
}

/// The summary's source text (see `summary_source_of`).
pub fn summary_debate_source(debate: &str, opinions: &Vec<(String, String)>) -> (r: String)
    ensures
        r@ == summary_source_of(debate@, opinions@),
{
    if debate_is_skipped(debate) && opinions.len() > 0 {
        let mut s = owned("# 单一视角 / 意见一致场景 — 直接采用 Step 4 的 opinion\n\n");
        let body = sections_md(opinions, false);
        s.append(body.as_str());
        s
    } else {
        owned(debate)
    }
}

/// Whether a debate is long enough (over 8000 characters) to be compressed
/// before the summary.
pub fn debate_needs_compression(debate: &str) -> (r: bool)
    ensures
        r == (debate@.len() > 8000),
{
    chars_of(debate).len() > 8000
}

/// The request that compresses a long debate to about 2000 characters.
pub fn compress_prompt(debate: &str) -> (r: String)
    ensures
        r@ == "以下是一次多维度辩论的完整记录。请压缩到约 2000 字以内（中文字符），严格保留：\n- 每位幕僚的核心立场（正方/反方/中立）\n- 每个维度的关键冲突点与共同地带\n- 未解决的张力和遗留问题\n- 任何 Pre-Mortem 或事前警示（如有）\n\n压缩风格：连贯文本、不要无意义堆砌、保留幕僚原话的锐度片段。全程用中文。\n\n---\n\n"@ + debate@,
{
    let mut s = owned("以下是一次多维度辩论的完整记录。请压缩到约 2000 字以内（中文字符），严格保留：\n- 每位幕僚的核心立场（正方/反方/中立）\n- 每个维度的关键冲突点与共同地带\n- 未解决的张力和遗留问题\n- 任何 Pre-Mortem 或事前警示（如有）\n\n压缩风格：连贯文本、不要无意义堆砌、保留幕僚原话的锐度片段。全程用中文。\n\n---\n\n");
    s.append(debate);
    s
}


// ---------------------------------------------------------------------------
// Step 6: one dimension's debate
// ---------------------------------------------------------------------------

/// The (name, text) pairs of a list, as views.
pub open spec fn pair_views(ps: Seq<(String, String)>) -> Seq<(Seq<char>, Seq<char>)> {
    ps.map_values(|p: (String, String)| (p.0@, p.1@))
}

/// A round-1 reply is kept unless, trimmed and uppercased, it is `SKIP` or
/// nothing.
pub open spec fn debate_kept(position: Seq<char>) -> bool {
    let u = uppercase(trim(position));
    u != "SKIP"@ && u.len() > 0
}

/// A stance category that takes a side.
pub open spec fn is_pro_con(category: Seq<char>) -> bool {
    category == "pro"@ || category == "con"@
}

/// Of the first `n` round-1 results (name, reply, category), in order, the
/// kept ones that take a side (`sided`) or the other kept ones (`!sided`),
/// as (name, reply).
pub open spec fn round1_side(rs: Seq<(String, String, String)>, sided: bool, n: int) -> Seq<(Seq<char>, Seq<char>)>
    decreases n,
{
    if n <= 0 || n > rs.len() {
        Seq::empty()
    } else {
        let prev = round1_side(rs, sided, n - 1);
        let t = rs[n - 1];
        if debate_kept(t.1@) && is_pro_con(t.2@) == sided {
            prev.push((t.0@, t.1@))
        } else {
            prev
        }
    }
}

/// Splits the round-1 results (name, reply, category), in arrival order, into
/// the kept replies that take a side (pro or con) and the other kept replies
/// (the middle, where a failed advisor's notice falls too). Replies that trim
/// and uppercase to `SKIP` or to nothing are dropped.
pub fn debate_round1(results: &Vec<(String, String, String)>) -> (r: (Vec<(String, String)>, Vec<(String, String)>))
    ensures
        pair_views(r.0@) == round1_side(results@, true, results@.len() as int),
        pair_views(r.1@) == round1_side(results@, false, results@.len() as int),
{
    let mut sided: Vec<(String, String)> = Vec::new();
    let mut middle: Vec<(String, String)> = Vec::new();
    let skip = chars_of("SKIP");
    let mut i: usize = 0;
    while i < results.len()
        invariant
            i <= results@.len(),
            skip@ == "SKIP"@,
            pair_views(sided@) == round1_side(results@, true, i as int),
            pair_views(middle@) == round1_side(results@, false, i as int),
        decreases results.len() - i,
    {
        let name = &results[i].0;
        let position = &results[i].1;
        let category = &results[i].2;
        let u = crate::text::to_uppercase_vec(&trim_vec(&chars_of(position.as_str())));
        let kept = !crate::text::seq_eq(&u, &skip) && u.len() > 0;
        let side = crate::text::str_eq(category.as_str(), "pro") || crate::text::str_eq(category.as_str(), "con");
        if kept {
            let item = (name.clone(), position.clone());
            if side {
                let ghost before = sided@;
                sided.push(item);
                proof {
                    assert(pair_views(sided@) =~= pair_views(before).push((name@, position@)));
                }
            } else {
                let ghost before = middle@;
                middle.push(item);
                proof {
                    assert(pair_views(middle@) =~= pair_views(before).push((name@, position@)));
                }
            }
        }
        i = i + 1;
    }
    (sided, middle)
}

/// The first `n` pairs as `## name{suffix}` blocks, each followed by its
/// text and a blank line.
pub open spec fn headed_text(ps: Seq<(String, String)>, suffix: Seq<char>, n: int) -> Seq<char>
    decreases n,
{
    if n <= 0 || n > ps.len() {
        Seq::empty()
    } else {
        headed_text(ps, suffix, n - 1) + "## "@ + ps[n - 1].0@ + suffix + "\n"@ + ps[n - 1].1@ + "\n\n"@
    }
}

fn append_headed(s: &mut String, ps: &Vec<(String, String)>, suffix: &str)
    ensures
        final(s)@ == old(s)@ + headed_text(ps@, suffix@, ps@.len() as int),
{
    let ghost start = s@;
    let mut i: usize = 0;
    while i < ps.len()
        invariant
            i <= ps@.len(),
            s@ == start + headed_text(ps@, suffix@, i as int),
        decreases ps.len() - i,
    {
        s.append("## ");
        s.append(ps[i].0.as_str());
        s.append(suffix);
        s.append("\n");
        s.append(ps[i].1.as_str());
        s.append("\n\n");
        i = i + 1;
    }
}

/// The round-1 record of a dimension: each side-taking reply as `## name`,
/// then each middle reply as `## name (Middle)`; this also is the text the
/// middle advisors react to (with no middle replies).
pub fn debate_positions_md(pro_con: &Vec<(String, String)>, middle: &Vec<(String, String)>) -> (r: String)
    ensures
        r@ == headed_text(pro_con@, ""@, pro_con@.len() as int) + headed_text(
            middle@,
            " (Middle)"@,
            middle@.len() as int,
        ),
{
    let mut s = String::new();
    append_headed(&mut s, pro_con, "");
    append_headed(&mut s, middle, " (Middle)");
    s
}

/// The middle advisors' responses, each as `## name (Middle Response)`.
pub fn middle_responses_md(responses: &Vec<(String, String)>) -> (r: String)
    ensures
        r@ == headed_text(responses@, " (Middle Response)"@, responses@.len() as int),
{
    let mut s = String::new();
    append_headed(&mut s, responses, " (Middle Response)");
    s
}

/// The middle advisors answer the two sides only when both groups have
/// someone.
pub fn debate_needs_middle_round(pro_con: &Vec<(String, String)>, middle: &Vec<(String, String)>) -> (r: bool)
    ensures
        r == (pro_con@.len() > 0 && middle@.len() > 0),
{
    pro_con.len() > 0 && middle.len() > 0
}

/// `05-debate.md` after a dimension's debate: the earlier record, the
/// dimension's heading, its round-1 positions and, when there are any, the
/// middle responses; `<think>` blocks removed and the whole trimmed.
pub open spec fn debate_record_text(existing: Seq<char>, dim: Seq<char>, round1: Seq<char>, middle: Seq<char>) -> Seq<char> {
    trim(
        strip_think(
            existing + "\n\n## "@ + dim + "\n\n### 第一轮立场\n"@ + round1 + (if trim(middle).len() == 0 {
                Seq::<char>::empty()
            } else {
                "\n\n### 中立方回应\n"@ + middle
            }) + "\n\n---"@,
        ),
    )
}

/// The debate record with one more dimension (see `debate_record_text`).
pub fn debate_record(existing: &str, dim: &str, round1: &str, middle_responses: &str) -> (r: String)
    ensures
        r@ == debate_record_text(existing@, dim@, round1@, middle_responses@),
{
    let mut s = owned(existing);
    s.append("\n\n## ");
    s.append(dim);
    s.append("\n\n### 第一轮立场\n");
    s.append(round1);
    if !crate::text::is_blank(&chars_of(middle_responses)) {
        s.append("\n\n### 中立方回应\n");
        s.append(middle_responses);
    }
    s.append("\n\n---");
    proof {
        let mid = if trim(middle_responses@).len() == 0 {
            Seq::<char>::empty()
        } else {
            "\n\n### 中立方回应\n"@ + middle_responses@
        };
        assert(s@ =~= existing@ + "\n\n## "@ + dim@ + "\n\n### 第一轮立场\n"@ + round1@ + mid + "\n\n---"@);
    }
    strip_think_tags(s.as_str())
}

} // verus!
