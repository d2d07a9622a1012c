//! Decisions of the HTTP layer that do not depend on the network or the
//! disk: question categories, refinement and suggestion replies, step
//! timeouts and incident classification, model-key fallback, persona visual
//! identity, and incident records with their filters.

use std::collections::BTreeMap;
use vstd::prelude::*;
use vstd::string::StringSliceAdditionalSpecFns;
use vstd::utf8::encode_utf8;

use crate::markdown::str_views;
use crate::text::{
    chars_of, contains, contains_str, find, lowercase, owned, slice_vec, starts_with, string_of,
    take_chars, take_chars_vec, to_lowercase_vec, trim, trim_vec,
};

verus! {

// ---------------------------------------------------------------------------
// Question categories
// ---------------------------------------------------------------------------

/// The ten question categories, in priority order.
pub open spec fn categories() -> Seq<Seq<char>> {
    seq![
        "创业/产品决策"@,
        "人生转型/方向"@,
        "关系/婚恋/家庭"@,
        "组织/管理"@,
        "存在/身份/意义"@,
        "商业/谈判/博弈"@,
        "政治/宏观/公共"@,
        "学习/认知/方法论"@,
        "健康/身体/疾病"@,
        "其他"@,
    ]
}

/// Quote and period characters stripped around a classifier answer.
pub open spec fn is_wrapper_char(c: char) -> bool {
    c == '"' || c == '\'' || c == '`' || c == '。' || c == '.'
}

/// First index at or after `i` not holding a wrapper character.
pub open spec fn skip_wrappers(s: Seq<char>, i: int) -> int
    decreases s.len() - i,
{
    if i < 0 || i >= s.len() || !is_wrapper_char(s[i]) {
        i
    } else {
        skip_wrappers(s, i + 1)
    }
}

/// Last end index at or before `j` (and after `a`) not preceded by a
/// wrapper character.
pub open spec fn back_wrappers(s: Seq<char>, a: int, j: int) -> int
    decreases j - a,
{
    if j <= a || j > s.len() || !is_wrapper_char(s[j - 1]) {
        j
    } else {
        back_wrappers(s, a, j - 1)
    }
}

/// `s.trim_matches(wrapper characters)`.
pub open spec fn strip_wrappers(s: Seq<char>) -> Seq<char> {
    let a = skip_wrappers(s, 0);
    let b = back_wrappers(s, a, s.len() as int);
    s.subrange(a, b)
}

proof fn lemma_skip_wrappers(s: Seq<char>, i: int)
    requires
        0 <= i <= s.len(),
    ensures
        i <= skip_wrappers(s, i) <= s.len(),
    decreases s.len() - i,
{
    if i < s.len() && is_wrapper_char(s[i]) {
        lemma_skip_wrappers(s, i + 1);
    }
}

proof fn lemma_back_wrappers(s: Seq<char>, a: int, j: int)
    requires
        0 <= a <= j <= s.len(),
    ensures
        a <= back_wrappers(s, a, j) <= j,
    decreases j - a,
{
    if j > a && is_wrapper_char(s[j - 1]) {
        lemma_back_wrappers(s, a, j - 1);
    }
}

/// The first category (in order) that the answer contains.
pub open spec fn listed_category_from(s: Seq<char>, i: int) -> Option<Seq<char>>
    decreases 10 - i,
{
    if i < 0 || i >= 10 {
        None
    } else if contains(s, categories()[i]) {
        Some(categories()[i])
    } else {
        listed_category_from(s, i + 1)
    }
}

/// The category a keyword of the lowercased answer points to.
pub open spec fn keyword_category(lower: Seq<char>) -> Option<Seq<char>> {
    if contains(lower, "创业"@) || contains(lower, "产品"@) {
        Some("创业/产品决策"@)
    } else if contains(lower, "转型"@) || contains(lower, "方向"@) || contains(lower, "人生"@) {
        Some("人生转型/方向"@)
    } else if contains(lower, "家庭"@) || contains(lower, "婚"@) || contains(lower, "孩子"@) || contains(
        lower,
        "亲"@,
    ) {
        Some("关系/婚恋/家庭"@)
    } else if contains(lower, "组织"@) || contains(lower, "管理"@) || contains(lower, "团队"@) {
        Some("组织/管理"@)
    } else if contains(lower, "意义"@) || contains(lower, "身份"@) || contains(lower, "存在"@) {
        Some("存在/身份/意义"@)
    } else if contains(lower, "谈判"@) || contains(lower, "博弈"@) || contains(lower, "商业"@) {
        Some("商业/谈判/博弈"@)
    } else if contains(lower, "政治"@) || contains(lower, "公共"@) || contains(lower, "宏观"@) {
        Some("政治/宏观/公共"@)
    } else if contains(lower, "学习"@) || contains(lower, "认知"@) || contains(lower, "方法"@) {
        Some("学习/认知/方法论"@)
    } else if contains(lower, "健康"@) || contains(lower, "身体"@) || contains(lower, "疾病"@) {
        Some("健康/身体/疾病"@)
    } else {
        None
    }
}

/// The category of a classifier answer `s` (already trimmed and stripped of
/// quotes) whose lowercase is `lower`: a listed category it contains, else a
/// keyword match, else none.
pub open spec fn category_of(s: Seq<char>, lower: Seq<char>) -> Option<Seq<char>> {
    match listed_category_from(s, 0) {
        Some(c) => Some(c),
        None => keyword_category(lower),
    }
}

fn strip_wrappers_exec(s: &[char]) -> (r: Vec<char>)
    ensures
        r@ == strip_wrappers(s@),
{
    let mut a: usize = 0;
    while a < s.len() && (s[a] == '"' || s[a] == '\'' || s[a] == '`' || s[a] == '。' || s[a] == '.')
        invariant
            a <= s@.len(),
            skip_wrappers(s@, a as int) == skip_wrappers(s@, 0),
        decreases s.len() - a,
    {
        a = a + 1;
    }
    let mut b: usize = s.len();
    while b > a && (s[b - 1] == '"' || s[b - 1] == '\'' || s[b - 1] == '`' || s[b - 1] == '。'
        || s[b - 1] == '.')
        invariant
            a <= b <= s@.len(),
            a == skip_wrappers(s@, 0),
            back_wrappers(s@, a as int, b as int) == back_wrappers(s@, a as int, s@.len() as int),
        decreases b - a,
    {
        b = b - 1;
    }
    slice_vec(s, a, b)
}

/// The category of a stripped classifier answer and its lowercase (see
/// `category_of`).
pub fn category_of_answer(s: &[char], lower: &[char]) -> (r: Option<String>)
    ensures
        match category_of(s@, lower@) {
            Some(c) => r matches Some(x) && x@ == c,
            None => r is None,
        },
{
    let cats: Vec<&str> = vec![
        "创业/产品决策",
        "人生转型/方向",
        "关系/婚恋/家庭",
        "组织/管理",
        "存在/身份/意义",
        "商业/谈判/博弈",
        "政治/宏观/公共",
        "学习/认知/方法论",
        "健康/身体/疾病",
        "其他",
    ];
    assert(str_views(cats@) =~= categories());
    let mut i: usize = 0;
    while i < cats.len()
        invariant
            i <= 10,
            cats@.len() == 10,
            str_views(cats@) == categories(),
            listed_category_from(s@, i as int) == listed_category_from(s@, 0),
        decreases cats.len() - i,
    {
        assert(categories()[i as int] == cats@[i as int]@);
        if contains_str(s, cats[i]) {
            return Some(owned(cats[i]));
        }
        i = i + 1;
    }
    let l = lower;
    if contains_str(l, "创业") || contains_str(l, "产品") {
        Some(owned("创业/产品决策"))
    } else if contains_str(l, "转型") || contains_str(l, "方向") || contains_str(l, "人生") {
        Some(owned("人生转型/方向"))
    } else if contains_str(l, "家庭") || contains_str(l, "婚") || contains_str(l, "孩子") || contains_str(
        l,
        "亲",
    ) {
        Some(owned("关系/婚恋/家庭"))
    } else if contains_str(l, "组织") || contains_str(l, "管理") || contains_str(l, "团队") {
        Some(owned("组织/管理"))
    } else if contains_str(l, "意义") || contains_str(l, "身份") || contains_str(l, "存在") {
        Some(owned("存在/身份/意义"))
    } else if contains_str(l, "谈判") || contains_str(l, "博弈") || contains_str(l, "商业") {
        Some(owned("商业/谈判/博弈"))
    } else if contains_str(l, "政治") || contains_str(l, "公共") || contains_str(l, "宏观") {
        Some(owned("政治/宏观/公共"))
    } else if contains_str(l, "学习") || contains_str(l, "认知") || contains_str(l, "方法") {
        Some(owned("学习/认知/方法论"))
    } else if contains_str(l, "健康") || contains_str(l, "身体") || contains_str(l, "疾病") {
        Some(owned("健康/身体/疾病"))
    } else {
        None
    }
}

/// The category named by a classifier's raw answer: trimmed, stripped of
/// quotes and periods, then matched (see `category_of`, on the lowercase
/// that `str::to_lowercase` gives).
pub fn match_category(raw: &str) -> (r: Option<String>)
    ensures
        ({
            let s = strip_wrappers(trim(raw@));
            match category_of(s, lowercase(s)) {
                Some(c) => r matches Some(x) && x@ == c,
                None => r is None,
            }
        }),
{
    let s = strip_wrappers_exec(&trim_vec(&chars_of(raw)));
    let lower = to_lowercase_vec(&s);
    category_of_answer(&s, &lower)
}

/// What the classifier is asked about: the trimmed question, at most 400
/// characters.
pub fn classifier_question(question: &str) -> (r: String)
    ensures
        r@ == take_chars(trim(question@), 400),
{
    string_of(&take_chars_vec(&trim_vec(&chars_of(question)), 400))
}

/// Whether a question is long enough to be classified (three characters
/// after trimming).
pub fn classifiable(question: &str) -> (r: bool)
    ensures
        r == (trim(question@).len() >= 3),
{
    trim_vec(&chars_of(question)).len() >= 3
}

/// Request of the question classifier.
pub struct ClassifyRequest {
    pub question: String,
}

/// Reply of the question classifier.
pub struct ClassifyResponse {
    pub category: String,
}

// ---------------------------------------------------------------------------
// Loose JSON extraction
// ---------------------------------------------------------------------------

/// Text before the last occurrence of "```" (`rsplit_once`), if any.
pub open spec fn before_last_fence(s: Seq<char>) -> Option<Seq<char>> {
    match last_occurrence(s, "```"@, s.len() as int) {
        Some(k) => Some(s.take(k)),
        None => None,
    }
}

/// Last start index `k < end` of `p` in `s` with `p` fitting in `s`.
pub open spec fn last_occurrence(s: Seq<char>, p: Seq<char>, end: int) -> Option<int>
    decreases end,
{
    if end <= 0 {
        None
    } else if crate::text::occurs_at(s, p, end - 1) {
        Some(end - 1)
    } else {
        last_occurrence(s, p, end - 1)
    }
}

/// Index of the last `c` in `s`, if any.
pub open spec fn last_char(s: Seq<char>, c: char, end: int) -> Option<int>
    decreases end,
{
    if end <= 0 || end > s.len() {
        None
    } else if s[end - 1] == c {
        Some(end - 1)
    } else {
        last_char(s, c, end - 1)
    }
}

/// The body of a model reply after removing a ```json (or ```) fence.
pub open spec fn unfenced(raw: Seq<char>) -> Seq<char> {
    let t = trim(raw);
    let after = match crate::text::strip_prefix(t, "```json"@) {
        Some(r) => Some(r),
        None => crate::text::strip_prefix(t, "```"@),
    };
    let inner = match after {
        Some(r) => before_last_fence(r),
        None => None,
    };
    match inner {
        Some(b) => trim(b),
        None => trim(t),
    }
}

/// The JSON object of a model reply: the whole unfenced text when it starts
/// with `{`, else the span from its first `{` to its last `}`.
pub open spec fn json_object(raw: Seq<char>) -> Option<Seq<char>> {
    let s = unfenced(raw);
    if s.len() > 0 && s[0] == '{' {
        Some(s)
    } else {
        match find(s, "{"@) {
            None => None,
            Some(start) => match last_char(s, '}', s.len() as int) {
                None => None,
                Some(end) => if end <= start {
                    None
                } else {
                    Some(s.subrange(start, end + 1))
                },
            },
        }
    }
}

fn last_occurrence_exec(s: &[char], p: &str) -> (r: Option<usize>)
    ensures
        match last_occurrence(s@, p@, s@.len() as int) {
            Some(k) => r == Some(k as usize) && 0 <= k < s@.len(),
            None => r is None,
        },
{
    let pv = chars_of(p);
    let mut end: usize = s.len();
    while end > 0
        invariant
            end <= s@.len(),
            pv@ == p@,
            last_occurrence(s@, p@, end as int) == last_occurrence(s@, p@, s@.len() as int),
        decreases end,
    {
        if crate::text::occurs_at_exec(s, &pv, end - 1) {
            return Some(end - 1);
        }
        end = end - 1;
    }
    None
}

fn last_char_exec(s: &[char], c: char) -> (r: Option<usize>)
    ensures
        match last_char(s@, c, s@.len() as int) {
            Some(k) => r == Some(k as usize) && 0 <= k < s@.len(),
            None => r is None,
        },
{
    let mut end: usize = s.len();
    while end > 0
        invariant
            end <= s@.len(),
            last_char(s@, c, end as int) == last_char(s@, c, s@.len() as int),
        decreases end,
    {
        if s[end - 1] == c {
            return Some(end - 1);
        }
        end = end - 1;
    }
    None
}

/// The JSON object of a model reply (see `json_object`): tolerates
/// ```json fences and surrounding prose.
pub fn extract_json_object(raw: &str) -> (r: Option<String>)
    ensures
        match json_object(raw@) {
            Some(o) => r matches Some(x) && x@ == o,
            None => r is None,
        },
{
    let t = trim_vec(&chars_of(raw));
    let after = match crate::text::strip_prefix_str(&t, "```json") {
        Some(r) => Some(r),
        None => crate::text::strip_prefix_str(&t, "```"),
    };
    let inner: Option<Vec<char>> = match after {
        Some(r) => match last_occurrence_exec(&r, "```") {
            Some(k) => {
                assert(r@.subrange(0, k as int) == r@.take(k as int));
                Some(slice_vec(&r, 0, k))
            },
            None => None,
        },
        None => None,
    };
    proof {
        let tt = trim(raw@);
        let a2 = match crate::text::strip_prefix(tt, "```json"@) {
            Some(r) => Some(r),
            None => crate::text::strip_prefix(tt, "```"@),
        };
        assert(match after {
            Some(r) => a2 == Some(r@),
            None => a2 is None,
        });
        let i2 = match a2 {
            Some(r) => before_last_fence(r),
            None => None,
        };
        assert(match inner {
            Some(b) => i2 == Some(b@),
            None => i2 is None,
        });
    }
    let s = match inner {
        Some(b) => trim_vec(&b),
        None => trim_vec(&t),
    };
    assert(s@ == unfenced(raw@));
    if s.len() > 0 && s[0] == '{' {
        return Some(string_of(&s));
    }
    let open = chars_of("{");
    match crate::text::find_exec(&s, &open) {
        None => None,
        Some(start) => match last_char_exec(&s, '}') {
            None => None,
            Some(end) => {
                if end <= start {
                    None
                } else {
                    Some(string_of(&slice_vec(&s, start, end + 1)))
                }
            },
        },
    }
}

// ---------------------------------------------------------------------------
// Step 3 refinement
// ---------------------------------------------------------------------------

/// One earlier question and the case owner's answer.
pub struct PriorQA {
    pub persona: String,
    pub question: String,
    pub answer: String,
}

/// Request to refine one advisor's question.
pub struct RefineRequest {
    pub persona_slug: String,
    pub original_question: String,
    pub raw_input: String,
    pub defined: String,
    pub angle: String,
    pub prior_qa: Vec<PriorQA>,
}

/// Reply of a refinement: "ask" with a question, or "skip" with a reason.
pub struct RefineResponse {
    pub action: String,
    pub question: Option<String>,
    pub reason: Option<String>,
}

pub open spec fn prior_qa_entry(i: int, q: PriorQA) -> Seq<char> {
    "### "@ + crate::text::decimal((i + 1) as nat) + ". "@ + q.persona@ + " 问\nQ: "@ + trim(q.question@)
        + "\n案主答: "@ + (if trim(q.answer@).len() == 0 {
        "（跳过）"@
    } else {
        trim(q.answer@)
    }) + "\n\n"@
}

pub open spec fn prior_qa_block(items: Seq<PriorQA>, n: int) -> Seq<char>
    decreases n,
{
    if n <= 0 || n > items.len() {
        Seq::empty()
    } else {
        prior_qa_block(items, n - 1) + prior_qa_entry(n - 1, items[n - 1])
    }
}

/// The earlier questions and answers, numbered from 1; a blank answer shows
/// as skipped.
#[verifier::rlimit(40)]
#[verifier::spinoff_prover]
pub fn format_prior_qa(items: &[PriorQA]) -> (r: String)
    ensures
        r@ == prior_qa_block(items@, items@.len() as int),
{
    let mut buf = String::new();
    let mut i: usize = 0;
    while i < items.len()
        invariant
            i <= items@.len(),
            buf@ == prior_qa_block(items@, i as int),
        decreases items.len() - i,
    {
        let item = &items[i];
        buf.append("### ");
        crate::text::push_decimal(&mut buf, (i as u64) + 1);
        buf.append(". ");
        buf.append(item.persona.as_str());
        buf.append(" 问\nQ: ");
        crate::text::append_chars(&mut buf, &trim_vec(&chars_of(item.question.as_str())));
        buf.append("\n案主答: ");
        let ans = trim_vec(&chars_of(item.answer.as_str()));
        if ans.len() == 0 {
            buf.append("（跳过）");
        } else {
            crate::text::append_chars(&mut buf, &ans);
        }
        buf.append("\n\n");
        i = i + 1;
    }
    buf
}

/// The fields read from a refinement JSON object: action, question, reason.
pub struct RefineFields {
    pub action: String,
    pub question: Option<String>,
    pub reason: Option<String>,
}

/// The refinement reply for a cleaned model output, given the fields parsed
/// from its JSON object (if it parsed) and the lowercase of the parsed
/// action: "skip" keeps its trimmed reason (a default when blank); "ask"
/// keeps its trimmed question when not blank; anything else asks the first
/// 500 characters of the trimmed output (a notice when it is blank).
pub open spec fn refine_reply(
    cleaned: Seq<char>,
    parsed: Option<(Seq<char>, Option<Seq<char>>, Option<Seq<char>>)>,
    action_lower: Seq<char>,
) -> (Seq<char>, Option<Seq<char>>, Option<Seq<char>>) {
    let fallback = {
        let q = take_chars(trim(cleaned), 500);
        ("ask"@, Some(if q.len() == 0 {
            "（无法解析模型输出，跳过）"@
        } else {
            q
        }), None)
    };
    match parsed {
        Some(p) => if action_lower == "skip"@ {
            ("skip"@, None, Some(match p.2 {
                Some(r) => if trim(r).len() > 0 {
                    trim(r)
                } else {
                    "和已问问题重复"@
                },
                None => "和已问问题重复"@,
            }))
        } else if action_lower == "ask"@ {
            match p.1 {
                Some(q) => if trim(q).len() > 0 {
                    ("ask"@, Some(trim(q)), None)
                } else {
                    fallback
                },
                None => fallback,
            }
        } else {
            fallback
        },
        None => fallback,
    }
}

pub open spec fn opt_view(o: Option<String>) -> Option<Seq<char>> {
    match o {
        Some(s) => Some(s@),
        None => None,
    }
}

pub open spec fn fields_view(f: Option<RefineFields>) -> Option<(Seq<char>, Option<Seq<char>>, Option<Seq<char>>)> {
    match f {
        Some(x) => Some((x.action@, opt_view(x.question), opt_view(x.reason))),
        None => None,
    }
}

fn trimmed_nonblank(s: &Option<String>) -> (r: Option<String>)
    ensures
        match *s {
            Some(x) => if trim(x@).len() > 0 {
                r matches Some(y) && y@ == trim(x@)
            } else {
                r is None
            },
            None => r is None,
        },
{
    match s {
        Some(x) => {
            let t = trim_vec(&chars_of(x.as_str()));
            if t.len() > 0 {
                Some(string_of(&t))
            } else {
                None
            }
        },
        None => None,
    }
}

/// The refinement reply (see `refine_reply`); `action_lower` is the
/// lowercase of the parsed action.
pub fn refine_response_from(cleaned: &str, parsed: &Option<RefineFields>, action_lower: &str) -> (r: RefineResponse)
    ensures
        (r.action@, opt_view(r.question), opt_view(r.reason)) == refine_reply(
            cleaned@,
            fields_view(*parsed),
            action_lower@,
        ),
{
    match parsed {
        Some(p) => {
            if crate::text::str_eq(action_lower, "skip") {
                let reason = match trimmed_nonblank(&p.reason) {
                    Some(r) => r,
                    None => owned("和已问问题重复"),
                };
                return RefineResponse { action: owned("skip"), question: None, reason: Some(reason) };
            }
            if crate::text::str_eq(action_lower, "ask") {
                match trimmed_nonblank(&p.question) {
                    Some(q) => {
                        return RefineResponse { action: owned("ask"), question: Some(q), reason: None };
                    },
                    None => {},
                }
            }
        },
        None => {},
    }
    let q = take_chars_vec(&trim_vec(&chars_of(cleaned)), 500);
    let question = if q.len() == 0 {
        owned("（无法解析模型输出，跳过）")
    } else {
        string_of(&q)
    };
    RefineResponse { action: owned("ask"), question: Some(question), reason: None }
}

/// Lowercase of the parsed action (empty when nothing parsed); the name
/// `lowercase` stands for `str::to_lowercase`.
pub fn parsed_action_lower(parsed: &Option<RefineFields>) -> (r: String)
    ensures
        match *parsed {
            Some(p) => r@ == lowercase(p.action@),
            None => r@.len() == 0,
        },
{
    match parsed {
        Some(p) => string_of(&to_lowercase_vec(&chars_of(p.action.as_str()))),
        None => String::new(),
    }
}

/// The refinement reply for a model output whose JSON object (if any) was
/// parsed into `parsed`.
pub fn refine_response(cleaned: &str, parsed: &Option<RefineFields>) -> (r: RefineResponse)
    ensures
        (r.action@, opt_view(r.question), opt_view(r.reason)) == refine_reply(
            cleaned@,
            fields_view(*parsed),
            match *parsed {
                Some(p) => lowercase(p.action@),
                None => Seq::empty(),
            },
        ),
{
    let lower = parsed_action_lower(parsed);
    refine_response_from(cleaned, parsed, lower.as_str())
}

/// Whether a refinement request may go to the model: a non-blank original
/// question and a raw input of at least five characters after trimming.
pub open spec fn refine_request_ok(original_question: Seq<char>, raw_input: Seq<char>) -> bool {
    trim(original_question).len() > 0 && trim(raw_input).len() >= 5
}

/// The error a refinement request is refused with, if any.
pub fn refine_request_error(original_question: &str, raw_input: &str) -> (r: Option<String>)
    ensures
        r is None <==> refine_request_ok(original_question@, raw_input@),
        trim(original_question@).len() == 0 ==> (r matches Some(m) && m@ == "original_question is empty"@),
        trim(original_question@).len() > 0 && trim(raw_input@).len() < 5 ==> (r matches Some(m) && m@
            == "raw_input too short"@),
{
    if crate::text::is_blank(&chars_of(original_question)) {
        return Some(owned("original_question is empty"));
    }
    if trim_vec(&chars_of(raw_input)).len() < 5 {
        return Some(owned("raw_input too short"));
    }
    None
}

// ---------------------------------------------------------------------------
// Advisor suggestions
// ---------------------------------------------------------------------------

/// The facilitator's advisor recommendation.
pub struct SuggestPersonasResponse {
    pub recommended: Vec<String>,
    pub reasoning: String,
}

/// Request for an advisor recommendation.
pub struct SuggestPersonasRequest {
    pub raw_input: String,
}

/// Whether a slug is one of the available advisors.
pub open spec fn slug_available(slug: Seq<char>, available: Seq<(String, String, String)>) -> bool {
    exists|i: int| 0 <= i < available.len() && (#[trigger] available[i]).0@ == slug
}

/// The available slugs among the first `n` recommended, in order.
pub open spec fn kept_slugs(slugs: Seq<Seq<char>>, available: Seq<(String, String, String)>, n: int) -> Seq<Seq<char>>
    decreases n,
{
    if n <= 0 || n > slugs.len() {
        Seq::empty()
    } else {
        let prev = kept_slugs(slugs, available, n - 1);
        if slug_available(slugs[n - 1], available) {
            prev.push(slugs[n - 1])
        } else {
            prev
        }
    }
}

/// The recommendation kept from the parsed slugs and reasoning: available
/// slugs only, at most six, in order; none when no slug survives.
pub open spec fn suggestion(
    slugs: Seq<Seq<char>>,
    reasoning: Seq<char>,
    available: Seq<(String, String, String)>,
) -> Option<(Seq<Seq<char>>, Seq<char>)> {
    let kept = kept_slugs(slugs, available, slugs.len() as int);
    let top = if kept.len() <= 6 {
        kept
    } else {
        kept.take(6)
    };
    if top.len() == 0 {
        None
    } else {
        Some((top, trim(reasoning)))
    }
}

fn is_available(slug: &String, available: &[(String, String, String)]) -> (r: bool)
    ensures
        r == slug_available(slug@, available@),
{
    let mut i: usize = 0;
    while i < available.len()
        invariant
            i <= available@.len(),
            forall|j: int| 0 <= j < i ==> (#[trigger] available@[j]).0@ != slug@,
        decreases available.len() - i,
    {
        if available[i].0 == *slug {
            assert(available@[i as int].0@ == slug@);
            return true;
        }
        i = i + 1;
    }
    false
}

/// The recommendation kept from the parsed slugs and reasoning (see
/// `suggestion`).
pub fn suggestion_from(
    slugs: &Vec<String>,
    reasoning: &str,
    available: &[(String, String, String)],
) -> (r: Option<SuggestPersonasResponse>)
    ensures
        match suggestion(crate::markdown::string_views(slugs@), reasoning@, available@) {
            Some(s) => r matches Some(x) && crate::markdown::string_views(x.recommended@) == s.0
                && x.reasoning@ == s.1,
            None => r is None,
        },
{
    let ghost sv = crate::markdown::string_views(slugs@);
    let mut kept: Vec<String> = Vec::new();
    let mut i: usize = 0;
    while i < slugs.len()
        invariant
            i <= slugs@.len(),
            sv == crate::markdown::string_views(slugs@),
            crate::markdown::string_views(kept@) == kept_slugs(sv, available@, i as int),
        decreases slugs.len() - i,
    {
        assert(sv[i as int] == slugs@[i as int]@);
        if is_available(&slugs[i], available) {
            let ghost before = kept@;
            kept.push(slugs[i].clone());
            proof {
                assert(crate::markdown::string_views(kept@) =~= crate::markdown::string_views(before).push(
                    slugs@[i as int]@,
                ));
            }
        }
        i = i + 1;
    }
    let ghost all = kept@;
    if kept.len() > 6 {
        kept.truncate(6);
        proof {
            assert(crate::markdown::string_views(kept@) =~= crate::markdown::string_views(all).take(6));
        }
    }
    if kept.len() == 0 {
        return None;
    }
    Some(SuggestPersonasResponse {
        recommended: kept,
        reasoning: string_of(&trim_vec(&chars_of(reasoning))),
    })
}

/// Whether a case text is long enough for an advisor recommendation (ten
/// characters after trimming).
pub fn suggestion_input_ok(raw_input: &str) -> (r: bool)
    ensures
        r == (trim(raw_input@).len() >= 10),
{
    trim_vec(&chars_of(raw_input)).len() >= 10
}


// ---------------------------------------------------------------------------
// Step execution
// ---------------------------------------------------------------------------

/// Server-side time limit of a step, in seconds.
pub open spec fn step_timeout_secs(step: u8) -> u64 {
    if step == 2 || step == 3 || step == 5 || step == 7 {
        180
    } else if step == 4 || step == 6 {
        240
    } else if step == 8 {
        300
    } else {
        60
    }
}

/// Per-step hard time limit in seconds: generous for the long model steps,
/// bounded so a hung provider cannot hold the stream forever.
pub fn step_timeout(step: u8) -> (r: u64)
    ensures
        r == step_timeout_secs(step),
{
    match step {
        2 | 3 | 5 | 7 => 180,
        4 | 6 => 240,
        8 => 300,
        _ => 60,
    }
}

/// The error message of a step that ran out of time.
pub fn step_timeout_message(step: u8) -> (r: String)
    ensures
        r@ == "step "@ + crate::text::decimal(step as nat) + " 服务器侧超时（>"@ + crate::text::decimal(
            step_timeout_secs(step) as nat,
        ) + "s 未完成）"@,
{
    let mut m = owned("step ");
    crate::text::push_decimal(&mut m, step as u64);
    m.append(" 服务器侧超时（>");
    crate::text::push_decimal(&mut m, step_timeout(step));
    m.append("s 未完成）");
    m
}

/// The incident kind of a step error, read from its message.
pub open spec fn incident_kind(message: Seq<char>) -> Seq<char> {
    if contains(message, "Model returned empty response"@) || contains(message, "returned 0 chars"@) {
        "empty_response"@
    } else if contains(message, "Channel"@) || contains(message, "stream"@) {
        "stream_error"@
    } else {
        "core_error"@
    }
}

/// Classify a step error (by its message) into an incident kind.
pub fn incident_kind_for(message: &str) -> (r: &'static str)
    ensures
        r@ == incident_kind(message@),
{
    let m = chars_of(message);
    if contains_str(&m, "Model returned empty response") || contains_str(&m, "returned 0 chars") {
        "empty_response"
    } else if contains_str(&m, "Channel") || contains_str(&m, "stream") {
        "stream_error"
    } else {
        "core_error"
    }
}

/// Whether a failed step still needs an incident record: not when it is
/// the time-out already recorded.
pub fn incident_needed(kind: &str, message: &str) -> (r: bool)
    ensures
        r == !(kind@ == "core_error"@ && contains(message@, "服务器侧超时"@)),
{
    !(crate::text::str_eq(kind, "core_error") && contains_str(&chars_of(message), "服务器侧超时"))
}

/// The dimensions to debate: the first three selected, or the first two
/// when none are selected.
pub open spec fn debate_selection(selected: Option<Seq<usize>>) -> Seq<usize> {
    match selected {
        Some(s) => if s.len() > 0 {
            if s.len() <= 3 {
                s
            } else {
                s.take(3)
            }
        } else {
            seq![0usize, 1usize]
        },
        None => seq![0usize, 1usize],
    }
}

/// Which dimensions Step 6 debates (see `debate_selection`).
pub fn debate_indices(selected: &Option<Vec<usize>>) -> (r: Vec<usize>)
    ensures
        r@ == debate_selection(
            match *selected {
                Some(v) => Some(v@),
                None => None,
            },
        ),
{
    match selected {
        Some(v) => {
            if v.len() > 0 {
                let mut out: Vec<usize> = Vec::new();
                let mut i: usize = 0;
                while i < v.len() && i < 3
                    invariant
                        i <= v@.len(),
                        i <= 3,
                        out@ == v@.take(i as int),
                    decreases v.len() - i,
                {
                    out.push(v[i]);
                    i = i + 1;
                }
                assert(v@.len() <= 3 ==> v@.take(v@.len() as int) =~= v@);
                return out;
            }
            vec![0, 1]
        },
        None => vec![0, 1],
    }
}

/// How many of the selected dimensions exist among `n` parsed ones.
pub open spec fn debatable_count(idx: Seq<usize>, n: int, k: int) -> int
    decreases k,
{
    if k <= 0 || k > idx.len() {
        0
    } else {
        debatable_count(idx, n, k - 1) + if idx[k - 1] < n {
            1int
        } else {
            0int
        }
    }
}

/// The dimensions actually debated, in the selected order: the selected
/// indices that are in range.
pub open spec fn debate_plan_upto(idx: Seq<usize>, n: int, k: int) -> Seq<usize>
    decreases k,
{
    if k <= 0 || k > idx.len() {
        Seq::empty()
    } else if idx[k - 1] < n {
        debate_plan_upto(idx, n, k - 1).push(idx[k - 1])
    } else {
        debate_plan_upto(idx, n, k - 1)
    }
}

/// The in-range selected dimensions, in order; the count of them is the
/// `total` announced with each dimension.
pub fn debate_plan(indices: &Vec<usize>, n_dims: usize) -> (r: Vec<usize>)
    ensures
        r@ == debate_plan_upto(indices@, n_dims as int, indices@.len() as int),
        r@.len() == debatable_count(indices@, n_dims as int, indices@.len() as int),
{
    let mut out: Vec<usize> = Vec::new();
    let mut i: usize = 0;
    while i < indices.len()
        invariant
            i <= indices@.len(),
            out@ == debate_plan_upto(indices@, n_dims as int, i as int),
            out@.len() == debatable_count(indices@, n_dims as int, i as int),
        decreases indices.len() - i,
    {
        if indices[i] < n_dims {
            out.push(indices[i]);
        }
        i = i + 1;
    }
    out
}

/// Whether the development mirror is on: the variable is set to anything
/// but empty, "0", "false" or "FALSE".
pub open spec fn mirror_flag(value: Option<Seq<char>>) -> bool {
    match value {
        Some(v) => !(v.len() == 0 || v == "0"@ || v == "false"@ || v == "FALSE"@),
        None => false,
    }
}

/// Whether the development mirror is on (see `mirror_flag`).
pub fn dev_mirror_enabled(value: Option<&str>) -> (r: bool)
    ensures
        r == mirror_flag(
            match value {
                Some(v) => Some(v@),
                None => None,
            },
        ),
{
    match value {
        Some(v) => !(v.is_empty() || crate::text::str_eq(v, "0") || crate::text::str_eq(v, "false")
            || crate::text::str_eq(v, "FALSE")),
        None => false,
    }
}

/// A file key that could escape its directory: holds ".." or starts with "/".
pub open spec fn unsafe_key(key: Seq<char>) -> bool {
    contains(key, ".."@) || starts_with(key, "/"@)
}

/// Whether a mirrored file key could escape its directory.
pub fn is_unsafe_key(key: &str) -> (r: bool)
    ensures
        r == unsafe_key(key@),
{
    let k = chars_of(key);
    contains_str(&k, "..") || crate::text::starts_with_str(&k, "/")
}

/// Where the development mirror writes a user-level file.
pub enum MirrorTarget {
    /// Suspicious key: not written.
    Skip,
    /// Under the working directory, by its own name.
    WorkingDir(String),
    /// Under `./user-data/`, by the rest of the key.
    UserData(String),
    /// In the project's directory.
    Project(String),
    /// Directly under the mirror root.
    Root(String),
}

/// Where a user-level file with key `name` is mirrored.
pub open spec fn mirror_target(name: Seq<char>) -> (int, Seq<char>) {
    if unsafe_key(name) {
        (0, Seq::empty())
    } else if name == "user-wiki.md"@ || name == "execution-journal.md"@ {
        (1, name)
    } else if starts_with(name, "user-data/"@) {
        (2, name.skip(10))
    } else if name == "belief-system.md"@ {
        (3, name)
    } else if name.contains('/') {
        (0, Seq::empty())
    } else {
        (4, name)
    }
}

pub open spec fn target_view(t: MirrorTarget) -> (int, Seq<char>) {
    match t {
        MirrorTarget::Skip => (0, Seq::empty()),
        MirrorTarget::WorkingDir(s) => (1, s@),
        MirrorTarget::UserData(s) => (2, s@),
        MirrorTarget::Project(s) => (3, s@),
        MirrorTarget::Root(s) => (4, s@),
    }
}

/// Where a user-level file is mirrored (see `mirror_target`).
pub fn user_file_target(name: &str) -> (r: MirrorTarget)
    ensures
        target_view(r) == mirror_target(name@),
{
    if is_unsafe_key(name) {
        return MirrorTarget::Skip;
    }
    if crate::text::str_eq(name, "user-wiki.md") || crate::text::str_eq(name, "execution-journal.md") {
        return MirrorTarget::WorkingDir(owned(name));
    }
    let n = chars_of(name);
    match crate::text::strip_prefix_str(&n, "user-data/") {
        Some(rest) => {
            proof {
                reveal_strlit("user-data/");
            }
            return MirrorTarget::UserData(string_of(&rest));
        },
        None => {},
    }
    if crate::text::str_eq(name, "belief-system.md") {
        return MirrorTarget::Project(owned(name));
    }
    let mut i: usize = 0;
    while i < n.len()
        invariant
            i <= n@.len(),
            n@ == name@,
            forall|j: int| 0 <= j < i ==> n@[j] != '/',
            !unsafe_key(name@),
            !(name@ == "user-wiki.md"@ || name@ == "execution-journal.md"@),
            !starts_with(name@, "user-data/"@),
            !(name@ == "belief-system.md"@),
        decreases n.len() - i,
    {
        if n[i] == '/' {
            assert(name@[i as int] == '/');
            assert(name@.contains('/'));
            return MirrorTarget::Skip;
        }
        i = i + 1;
    }
    MirrorTarget::Root(owned(name))
}

/// Whether a per-session log key may be hydrated: not empty, no "/" and no
/// "..".
pub fn log_session_key_ok(sid: &str) -> (r: bool)
    ensures
        r == !(sid@.contains('/') || contains(sid@, ".."@) || sid@.len() == 0),
{
    let k = chars_of(sid);
    let mut i: usize = 0;
    while i < k.len()
        invariant
            i <= k@.len(),
            k@ == sid@,
            forall|j: int| 0 <= j < i ==> k@[j] != '/',
        decreases k.len() - i,
    {
        if k[i] == '/' {
            return false;
        }
        i = i + 1;
    }
    !(contains_str(&k, "..") || k.len() == 0)
}

// ---------------------------------------------------------------------------
// Model settings
// ---------------------------------------------------------------------------

/// The API key used: the trimmed request key when not blank, else the
/// environment's when set and not empty, else empty.
pub open spec fn coalesced_key(req_key: Option<Seq<char>>, env_value: Option<Seq<char>>) -> Seq<char> {
    match req_key {
        Some(k) if trim(k).len() > 0 => trim(k),
        _ => match env_value {
            Some(v) if v.len() > 0 => v,
            _ => Seq::empty(),
        },
    }
}

/// The API key used for a provider (see `coalesced_key`); `env_value` is
/// the provider's environment variable, read by the caller.
pub fn coalesce_key(req_key: &Option<String>, env_value: Option<String>) -> (r: String)
    ensures
        r@ == coalesced_key(opt_view(*req_key), opt_view(env_value)),
{
    match req_key {
        Some(k) => {
            let t = trim_vec(&chars_of(k.as_str()));
            if t.len() > 0 {
                return string_of(&t);
            }
        },
        None => {},
    }
    match env_value {
        Some(v) => {
            if v.as_str().is_empty() {
                String::new()
            } else {
                v
            }
        },
        None => String::new(),
    }
}

/// The model providers that can be switched to at run time.
pub enum ProviderKind {
    DeepSeek,
    Kimi,
    MiniMax,
    OpenAi,
    Dmx,
    Laozhang,
    Ollama,
}

/// The provider of a settings request, with the environment variable of its
/// key (none for the keyless local provider).
pub open spec fn provider_of(name: Seq<char>) -> Option<(ProviderKind, Seq<char>)> {
    if name == "deepseek"@ {
        Some((ProviderKind::DeepSeek, "DEEPSEEK_API_KEY"@))
    } else if name == "kimi"@ {
        Some((ProviderKind::Kimi, "KIMI_API_KEY"@))
    } else if name == "minimax"@ {
        Some((ProviderKind::MiniMax, "MINIMAX_API_KEY"@))
    } else if name == "openai"@ {
        Some((ProviderKind::OpenAi, "OPENAI_API_KEY"@))
    } else if name == "dmx"@ {
        Some((ProviderKind::Dmx, "DMX_API_KEY"@))
    } else if name == "laozhang"@ {
        Some((ProviderKind::Laozhang, "LAOZHANG_API_KEY"@))
    } else if name == "ollama"@ {
        Some((ProviderKind::Ollama, Seq::empty()))
    } else {
        None
    }
}

/// The provider named in a settings request and the environment variable
/// holding its key (empty for Ollama); none for an unknown provider.
pub fn provider_for(name: &str) -> (r: Option<(ProviderKind, &'static str)>)
    ensures
        match provider_of(name@) {
            Some(p) => r matches Some(x) && x.0 == p.0 && x.1@ == p.1,
            None => r is None,
        },
{
    if crate::text::str_eq(name, "deepseek") {
        Some((ProviderKind::DeepSeek, "DEEPSEEK_API_KEY"))
    } else if crate::text::str_eq(name, "kimi") {
        Some((ProviderKind::Kimi, "KIMI_API_KEY"))
    } else if crate::text::str_eq(name, "minimax") {
        Some((ProviderKind::MiniMax, "MINIMAX_API_KEY"))
    } else if crate::text::str_eq(name, "openai") {
        Some((ProviderKind::OpenAi, "OPENAI_API_KEY"))
    } else if crate::text::str_eq(name, "dmx") {
        Some((ProviderKind::Dmx, "DMX_API_KEY"))
    } else if crate::text::str_eq(name, "laozhang") {
        Some((ProviderKind::Laozhang, "LAOZHANG_API_KEY"))
    } else if crate::text::str_eq(name, "ollama") {
        proof {
            reveal_strlit("");
        }
        Some((ProviderKind::Ollama, ""))
    } else {
        None
    }
}

/// A model settings update.
pub struct ModelSettingsRequest {
    pub provider: String,
    pub api_key: Option<String>,
    pub custom_url: Option<String>,
    pub model: String,
    pub group_id: Option<String>,
}

// ---------------------------------------------------------------------------
// Persona visual identity
// ---------------------------------------------------------------------------

/// Colour and initial of the hand-tuned personas; other personas get no
/// colour and the first character of their name.
pub open spec fn visual_defaults(slug: Seq<char>, name: Seq<char>) -> (Option<Seq<char>>, Option<Seq<char>>) {
    if slug == "mao-zedong"@ || slug == "mao"@ {
        (Some("#FF3B3B"@), Some("毛"@))
    } else if slug == "paul-graham"@ || slug == "pg"@ {
        (Some("#FF8C42"@), Some("PG"@))
    } else if slug == "steve-jobs"@ || slug == "jobs"@ {
        (Some("#B0B0FF"@), Some("SJ"@))
    } else if slug == "bruce-lee"@ || slug == "brucelee"@ {
        (Some("#FFE066"@), Some("龙"@))
    } else if slug == "kevin-kelly"@ || slug == "kk"@ {
        (Some("#4ECDC4"@), Some("KK"@))
    } else if slug == "huineng"@ {
        (Some("#B39DDB"@), Some("禅"@))
    } else if slug == "laozi"@ {
        (Some("#69D99A"@), Some("道"@))
    } else if slug == "zhuangzi"@ {
        (Some("#D7B46A"@), Some("庄"@))
    } else {
        (None, if name.len() > 0 {
            Some(seq![name[0]])
        } else {
            None
        })
    }
}

/// Colour and initial of a persona's seat (see `visual_defaults`).
pub fn persona_visual_defaults(slug: &str, name: &str) -> (r: (Option<&'static str>, Option<String>))
    ensures
        (match r.0 {
            Some(c) => Some(c@),
            None => None,
        }, opt_view(r.1)) == visual_defaults(slug@, name@),
{
    let e = |a: &str| -> (b: bool)
        ensures
            b == (slug@ == a@),
        { crate::text::str_eq(slug, a) };
    if e("mao-zedong") || e("mao") {
        (Some("#FF3B3B"), Some(owned("毛")))
    } else if e("paul-graham") || e("pg") {
        (Some("#FF8C42"), Some(owned("PG")))
    } else if e("steve-jobs") || e("jobs") {
        (Some("#B0B0FF"), Some(owned("SJ")))
    } else if e("bruce-lee") || e("brucelee") {
        (Some("#FFE066"), Some(owned("龙")))
    } else if e("kevin-kelly") || e("kk") {
        (Some("#4ECDC4"), Some(owned("KK")))
    } else if e("huineng") {
        (Some("#B39DDB"), Some(owned("禅")))
    } else if e("laozi") {
        (Some("#69D99A"), Some(owned("道")))
    } else if e("zhuangzi") {
        (Some("#D7B46A"), Some(owned("庄")))
    } else {
        let n = chars_of(name);
        if n.len() > 0 {
            let mut s = String::new();
            crate::text::push_char(&mut s, n[0]);
            proof {
                assert(s@ =~= seq![name@[0]]);
            }
            (None, Some(s))
        } else {
            (None, None)
        }
    }
}

// ---------------------------------------------------------------------------
// Incidents
// ---------------------------------------------------------------------------

/// `chrono::Utc::now().to_rfc3339()`: the current time; nothing is stated
/// of it.
#[verifier::external_body]
fn rfc3339_now() -> String {
    chrono::Utc::now().to_rfc3339()
}

/// One step failure, stuck time-out or empty model reply.
pub struct IncidentRecord {
    /// RFC 3339 timestamp.
    pub ts: String,
    pub project_id: String,
    pub session_id: String,
    pub step: u8,
    /// One of `empty_response`, `stuck_timeout`, `core_error`, `stream_error`.
    pub kind: String,
    /// Short human-readable reason.
    pub reason: String,
    pub duration_ms: u64,
    /// `provider:model_name`, when known.
    pub model: String,
    /// Character counts of the step's inputs, by input name.
    pub ctx_sizes: BTreeMap<String, usize>,
}

impl IncidentRecord {
    /// A record stamped now, with no duration, model or sizes yet.
    pub fn new(project_id: &str, session_id: &str, step: u8, kind: &str, reason: &str) -> (r: Self)
        ensures
            r.project_id@ == project_id@,
            r.session_id@ == session_id@,
            r.step == step,
            r.kind@ == kind@,
            r.reason@ == reason@,
            r.duration_ms == 0,
            r.model@.len() == 0,
            r.ctx_sizes@ == Map::<String, usize>::empty(),
    {
        IncidentRecord {
            ts: rfc3339_now(),
            project_id: owned(project_id),
            session_id: owned(session_id),
            step,
            kind: owned(kind),
            reason: owned(reason),
            duration_ms: 0,
            model: String::new(),
            ctx_sizes: BTreeMap::new(),
        }
    }

    /// The record with its duration set.
    pub fn with_duration(self, ms: u64) -> (r: Self)
        ensures
            r.duration_ms == ms,
            r.ts == self.ts && r.project_id == self.project_id && r.session_id == self.session_id,
            r.step == self.step && r.kind == self.kind && r.reason == self.reason,
            r.model == self.model && r.ctx_sizes == self.ctx_sizes,
    {
        let mut s = self;
        s.duration_ms = ms;
        s
    }

    /// The record with its model label set.
    pub fn with_model(self, model: &str) -> (r: Self)
        ensures
            r.model@ == model@,
            r.ts == self.ts && r.project_id == self.project_id && r.session_id == self.session_id,
            r.step == self.step && r.kind == self.kind && r.reason == self.reason,
            r.duration_ms == self.duration_ms && r.ctx_sizes == self.ctx_sizes,
    {
        let mut s = self;
        s.model = owned(model);
        s
    }

    /// The record with its input sizes set.
    pub fn with_ctx_sizes(self, sizes: BTreeMap<String, usize>) -> (r: Self)
        ensures
            r.ctx_sizes == sizes,
            r.ts == self.ts && r.project_id == self.project_id && r.session_id == self.session_id,
            r.step == self.step && r.kind == self.kind && r.reason == self.reason,
            r.duration_ms == self.duration_ms && r.model == self.model,
    {
        let mut s = self;
        s.ctx_sizes = sizes;
        s
    }
}

/// Filters of the incident listing.
pub struct ListFilters {
    /// Days to look back (7 when absent, at most 30).
    pub days: Option<u32>,
    /// Only this kind, when given.
    pub kind: Option<String>,
    /// Only this step, when given.
    pub step: Option<u8>,
}

/// Days the incident listing looks back: 7 by default, at most 30.
pub fn lookback_days(filters: &ListFilters) -> (r: u32)
    ensures
        r == match filters.days {
            Some(d) => if d < 30 {
                d
            } else {
                30
            },
            None => 7,
        },
{
    match filters.days {
        Some(d) => if d < 30 {
            d
        } else {
            30
        },
        None => 7,
    }
}

/// Whether a record passes the kind and step filters.
pub fn incident_matches(r: &IncidentRecord, filters: &ListFilters) -> (b: bool)
    ensures
        b == ((match filters.kind {
            Some(k) => r.kind@ == k@,
            None => true,
        }) && (match filters.step {
            Some(s) => r.step == s,
            None => true,
        })),
{
    match &filters.kind {
        Some(k) => {
            if !(r.kind == *k) {
                return false;
            }
        },
        None => {},
    }
    match filters.step {
        Some(s) => r.step == s,
        None => true,
    }
}


// ---------------------------------------------------------------------------
// Request and reply records
// ---------------------------------------------------------------------------

/// A step request.
pub struct RunStepRequest {
    pub input: Option<String>,
    /// Step 6: which dimensions to debate (at most three).
    pub selected_dimensions: Option<Vec<usize>>,
    /// Simulate the case owner's replies.
    pub auto_simulate: Option<bool>,
    /// Run again even when output is stored.
    pub force_refresh: Option<bool>,
    pub provider: Option<String>,
    pub model: Option<String>,
    pub api_key: Option<String>,
    pub group_id: Option<String>,
    /// The client's stored session, when the server keeps none.
    pub prior_state: Option<PriorState>,
}

/// The client's stored session and user files, sent with a request.
pub struct PriorState {
    /// Session files by name.
    pub files: std::collections::HashMap<String, String>,
    /// The advisors picked for the session.
    pub personas: Option<Vec<String>>,
    pub user_wiki: Option<String>,
    pub execution_journal: Option<String>,
    pub belief_system: Option<String>,
    pub user_core: Option<String>,
    pub log_index: Option<String>,
    /// Per-session log entries by session id.
    pub log_sessions: std::collections::HashMap<String, String>,
}

/// The freestyle mode's request.
pub struct FreestyleRequest {
    pub prior_state: Option<PriorState>,
}

/// A follow-up question to one advisor.
pub struct FollowUpRequest {
    pub question: String,
    pub prior_state: Option<PriorState>,
}

/// An admin reply the case owner has not seen yet.
pub struct FeedbackReplyNotification {
    pub id: i64,
    pub feedback_id: i64,
    pub feedback_body: String,
    pub reply_body: String,
    pub created_at: String,
}

/// A wish for a new advisor.
pub struct WishIn {
    pub persona_name: String,
}

/// A fulfilled wish not yet shown.
pub struct UnreadWish {
    pub id: i64,
    pub persona_name: String,
    pub fulfilled_at: Option<String>,
}

/// A wish as the admin sees it.
pub struct AdminWishRow {
    pub id: i64,
    pub user_id: String,
    pub username: Option<String>,
    pub persona_name: String,
    pub status: String,
    pub created_at: String,
    pub fulfilled_at: Option<String>,
    pub notified_at: Option<String>,
}

/// A new project.
pub struct CreateProjectRequest {
    pub name: String,
    pub description: Option<String>,
}

/// Changes to a project.
pub struct UpdateProjectRequest {
    pub name: Option<String>,
    pub description: Option<String>,
}

/// Session logs to distil into the core identity facts.
pub struct BackfillIn {
    /// Session id to markdown body.
    pub log_sessions: std::collections::HashMap<String, String>,
}

/// The distilled core facts.
pub struct BackfillOut {
    pub core: String,
    pub fact_count: usize,
    pub processed_sessions: usize,
    pub failed_sessions: usize,
}

// ---------------------------------------------------------------------------
// Request metadata
// ---------------------------------------------------------------------------

/// The part of a header value before its first comma.
pub open spec fn first_field(s: Seq<char>) -> Seq<char> {
    match find(s, ","@) {
        Some(k) => s.subrange(0, k),
        None => s,
    }
}

/// Client address: the first entry of `X-Forwarded-For` when it is not
/// blank (proxies append, so the first is the client), else `X-Real-IP`.
pub open spec fn client_ip_of(forwarded_for: Option<Seq<char>>, real_ip: Option<Seq<char>>) -> Option<Seq<char>> {
    if forwarded_for is Some && trim(first_field(forwarded_for->0)).len() > 0 {
        Some(trim(first_field(forwarded_for->0)))
    } else {
        real_ip
    }
}

pub open spec fn opt_str_view(o: Option<&str>) -> Option<Seq<char>> {
    match o {
        Some(s) => Some(s@),
        None => None,
    }
}

/// Best-effort client address from the two proxy headers (each given when
/// present and readable as text).
pub fn client_ip(forwarded_for: Option<&str>, real_ip: Option<&str>) -> (r: Option<String>)
    ensures
        match client_ip_of(opt_str_view(forwarded_for), opt_str_view(real_ip)) {
            Some(a) => r matches Some(s) && s@ == a,
            None => r is None,
        },
{
    match forwarded_for {
        Some(x) => {
            let xc = chars_of(x);
            let comma = chars_of(",");
            let first = match crate::text::find_exec(&xc, &comma) {
                Some(k) => {
                    proof {
                        crate::text::lemma_find_from(xc@, ","@, 0);
                    }
                    slice_vec(&xc, 0, k)
                },
                None => xc,
            };
            let t = trim_vec(&first);
            if t.len() > 0 {
                return Some(string_of(&t));
            }
        },
        None => {},
    }
    match real_ip {
        Some(r) => Some(owned(r)),
        None => None,
    }
}

/// The user agent as recorded: its first 512 characters.
pub fn user_agent(header: &str) -> (r: String)
    ensures
        r@ == take_chars(header@, 512),
{
    let c = chars_of(header);
    let t = take_chars_vec(&c, 512);
    string_of(&t)
}

// ---------------------------------------------------------------------------
// Telemetry batches, feedback and advisor wishes
// ---------------------------------------------------------------------------

/// What becomes of a telemetry batch before its events are looked at.
pub enum BatchVerdict {
    /// No events: nothing to store.
    Empty,
    /// More than 50 events: refused.
    TooLarge,
    /// Its events are stored one by one.
    Accept,
}

/// The verdict on a batch of `n` events.
pub fn batch_verdict(n: usize) -> (r: BatchVerdict)
    ensures
        n == 0 ==> r is Empty,
        n > 50 ==> r is TooLarge,
        0 < n <= 50 ==> r is Accept,
{
    if n == 0 {
        BatchVerdict::Empty
    } else if n > 50 {
        BatchVerdict::TooLarge
    } else {
        BatchVerdict::Accept
    }
}

/// Whether one telemetry event is stored: its type is 1 to 64 bytes, its
/// serialized payload at most 4096 bytes, and a chat event's payload keeps
/// to that event's whitelist.
pub fn event_accepted(event_type: &str, data_json: &str, payload: &crate::chat::EventPayload) -> (r: bool)
    ensures
        r == (event_type@.len() > 0 && event_type.len() <= 64 && data_json.len() <= 4096
            && crate::chat::payload_allowed(
            event_type@,
            *payload,
        )),
{
    if event_type.is_empty() || event_type.len() > 64 {
        return false;
    }
    if data_json.len() > 4096 {
        return false;
    }
    crate::chat::chat_event_payload_allowed(event_type, payload)
}

/// Why a feedback submission, or an admin's reply to one, is refused.
pub enum FeedbackRejection {
    /// Blank after trimming.
    Empty,
    /// Over 4096 bytes after trimming.
    TooLong,
}

impl FeedbackRejection {
    /// The error the client is shown.
    pub fn message(&self) -> (r: &'static str)
        ensures
            self is Empty ==> r@ == "feedback body is empty"@,
            self is TooLong ==> r@ == "feedback too long (max 4KB)"@,
    {
        match self {
            FeedbackRejection::Empty => "feedback body is empty",
            FeedbackRejection::TooLong => "feedback too long (max 4KB)",
        }
    }

    /// The error an admin is shown for a refused reply.
    pub fn reply_message(&self) -> (r: &'static str)
        ensures
            self is Empty ==> r@ == "reply body is empty"@,
            self is TooLong ==> r@ == "reply too long (max 4KB)"@,
    {
        match self {
            FeedbackRejection::Empty => "reply body is empty",
            FeedbackRejection::TooLong => "reply too long (max 4KB)",
        }
    }
}

/// The feedback text that is stored: the trimmed body, refused when blank
/// or over 4096 bytes.
pub fn feedback_body(body: &str) -> (r: Result<String, FeedbackRejection>)
    ensures
        trim(body@).len() == 0 ==> r matches Err(FeedbackRejection::Empty),
        trim(body@).len() > 0 && encode_utf8(trim(body@)).len() as usize > 4096 ==> r matches Err(
            FeedbackRejection::TooLong,
        ),
        trim(body@).len() > 0 && encode_utf8(trim(body@)).len() as usize <= 4096 ==> (r matches Ok(s) && s@
            == trim(body@)),
{
    let t = string_of(&trim_vec(&chars_of(body)));
    if t.as_str().is_empty() {
        Err(FeedbackRejection::Empty)
    } else if t.as_str().len() > 4096 {
        Err(FeedbackRejection::TooLong)
    } else {
        Ok(t)
    }
}

/// Whether the serialized feedback context is kept (at most 2048 bytes).
pub fn feedback_context_kept(context_json: &str) -> (r: bool)
    ensures
        r == (context_json.len() <= 2048),
{
    context_json.len() <= 2048
}

/// Why an advisor wish is refused.
pub enum WishRejection {
    /// Blank after trimming.
    Empty,
    /// Over 30 characters after trimming.
    TooLong,
}

impl WishRejection {
    /// The error the client is shown.
    pub fn message(&self) -> (r: &'static str)
        ensures
            self is Empty ==> r@ == "许愿不能为空"@,
            self is TooLong ==> r@ == "幕僚名字 ≤ 30 字"@,
    {
        match self {
            WishRejection::Empty => "许愿不能为空",
            WishRejection::TooLong => "幕僚名字 ≤ 30 字",
        }
    }
}

/// The advisor name that is wished for: trimmed, refused when blank or over
/// 30 characters.
pub fn wish_name(name: &str) -> (r: Result<String, WishRejection>)
    ensures
        trim(name@).len() == 0 ==> r matches Err(WishRejection::Empty),
        trim(name@).len() > 30 ==> r matches Err(WishRejection::TooLong),
        0 < trim(name@).len() <= 30 ==> (r matches Ok(s) && s@ == trim(name@)),
{
    let t = trim_vec(&chars_of(name));
    if t.len() == 0 {
        Err(WishRejection::Empty)
    } else if t.len() > 30 {
        Err(WishRejection::TooLong)
    } else {
        Ok(string_of(&t))
    }
}

// ---------------------------------------------------------------------------
// Newest first
// ---------------------------------------------------------------------------

/// `order` lists each index of `stamps` once, newest stamp first (no stamp
/// is older than one after it; stamps compare as strings).
pub open spec fn is_newest_first_order(order: Seq<usize>, stamps: Seq<String>) -> bool {
    &&& order.len() == stamps.len()
    &&& forall|p: int| 0 <= p < order.len() ==> order[p] < stamps.len()
    &&& forall|p: int, q: int| 0 <= p < q < order.len() ==> order[p] != order[q]
    &&& forall|p: int, q: int|
        0 <= p < q < order.len() ==> !crate::admin::text_less(
            stamps[order[p] as int]@,
            stamps[order[q] as int]@,
        )
}

/// The order in which records with these timestamps are listed, newest
/// first; records stamped alike keep their order.
pub fn newest_first_order(stamps: &Vec<String>) -> (r: Vec<usize>)
    ensures
        is_newest_first_order(r@, stamps@),
{
    let mut out: Vec<usize> = Vec::new();
    let mut i: usize = 0;
    while i < stamps.len()
        invariant
            i <= stamps@.len(),
            out@.len() == i,
            forall|p: int| 0 <= p < out@.len() ==> out@[p] < i,
            forall|p: int, q: int| 0 <= p < q < out@.len() ==> out@[p] != out@[q],
            forall|p: int, q: int|
                0 <= p < q < out@.len() ==> !crate::admin::text_less(
                    stamps@[out@[p] as int]@,
                    stamps@[out@[q] as int]@,
                ),
        decreases stamps.len() - i,
    {
        let mut pos: usize = 0;
        while pos < out.len() && !crate::admin::text_less_exec(
            stamps[out[pos]].as_str(),
            stamps[i].as_str(),
        )
            invariant
                pos <= out@.len(),
                i < stamps@.len(),
                forall|p: int| 0 <= p < out@.len() ==> out@[p] < i,
                forall|q: int|
                    0 <= q < pos ==> !crate::admin::text_less(
                        stamps@[out@[q] as int]@,
                        stamps@[i as int]@,
                    ),
            decreases out.len() - pos,
        {
            pos = pos + 1;
        }
        let ghost before = out@;
        let ghost e = stamps@[i as int]@;
        out.insert(pos, i);
        proof {
            before.insert_ensures(pos as int, i);
            let now = out@;
            assert forall|p: int| 0 <= p < now.len() implies now[p] < i + 1 by {
                if p < pos {
                    assert(now[p] == before[p]);
                } else if p > pos {
                    assert(now[p] == before[p - 1]);
                }
            }
            assert forall|p: int, q: int| 0 <= p < q < now.len() implies now[p] != now[q] by {
                if p < pos && q < pos {
                    assert(now[p] == before[p] && now[q] == before[q]);
                } else if p < pos && q == pos {
                    assert(now[p] == before[p]);
                } else if p < pos {
                    assert(now[p] == before[p] && now[q] == before[q - 1]);
                } else if p == pos {
                    assert(now[q] == before[q - 1]);
                } else {
                    assert(now[p] == before[p - 1] && now[q] == before[q - 1]);
                }
            }
            assert forall|p: int, q: int| 0 <= p < q < now.len() implies !crate::admin::text_less(
                stamps@[now[p] as int]@,
                stamps@[now[q] as int]@,
            ) by {
                if p < pos && q < pos {
                    assert(now[p] == before[p] && now[q] == before[q]);
                } else if p < pos && q == pos {
                    assert(now[p] == before[p]);
                } else if p < pos {
                    assert(now[p] == before[p] && now[q] == before[q - 1]);
                } else if p == pos {
                    assert(now[q] == before[q - 1]);
                    let head = stamps@[before[pos as int] as int]@;
                    let tail = stamps@[before[q - 1] as int]@;
                    assert(crate::admin::text_less(head, e));
                    if crate::admin::text_less(e, tail) {
                        if q - 1 > pos {
                            crate::admin::lemma_text_less_transitive(head, e, tail);
                        } else {
                            crate::admin::lemma_text_less_transitive(head, e, head);
                            crate::admin::lemma_text_less_irreflexive(head);
                        }
                    }
                } else {
                    assert(now[p] == before[p - 1] && now[q] == before[q - 1]);
                }
            }
        }
        i = i + 1;
    }
    out
}

/// Whether a file of the incident directory is a day log (`YYYY-MM-DD.jsonl`
/// or a rotated `YYYY-MM-DD.jsonl.N`): it ends with `.jsonl` or holds
/// `.jsonl.`, and is at least 10 bytes long.
pub fn is_incident_log_name(name: &str) -> (r: bool)
    ensures
        r == ((crate::text::ends_with(name@, ".jsonl"@) || contains(name@, ".jsonl."@))
            && name.len() >= 10),
{
    let cs = chars_of(name);
    (crate::text::ends_with_str(&cs, ".jsonl") || contains_str(&cs, ".jsonl.")) && name.len() >= 10
}

/// The error for a provider whose key is neither in the request nor in its
/// environment variable `key_var`.
pub fn missing_key_message(key_var: &str) -> (r: String)
    ensures
        key_var@ == "DEEPSEEK_API_KEY"@ ==> r@ == "DEEPSEEK_API_KEY not set in env and no key provided in request"@,
        key_var@ != "DEEPSEEK_API_KEY"@ ==> r@ == key_var@ + " missing"@,
{
    if crate::text::str_eq(key_var, "DEEPSEEK_API_KEY") {
        owned("DEEPSEEK_API_KEY not set in env and no key provided in request")
    } else {
        let mut s = owned(key_var);
        s.append(" missing");
        s
    }
}

/// The error for a settings request naming no known provider.
pub fn unknown_provider_message(name: &str) -> (r: String)
    ensures
        r@ == "Unknown provider: "@ + name@,
{
    let mut s = owned("Unknown provider: ");
    s.append(name);
    s
}

} // verus!
