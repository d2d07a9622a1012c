//! Parsers and decisions of the eight-step flow: confirmation words, debate
//! stances, debate dimensions, harvest to-dos and insights, and the case
//! owner's resonance signals.

use vstd::prelude::*;

use crate::counsel::Dimension;

use crate::text::{
    chars_of, contains, contains_str, find, find_exec, lines, lines_vec, lowercase, owned,
    slice_vec, starts_with, starts_with_str, strip_prefix, strip_prefix_str, string_of,
    take_chars, take_chars_vec, to_lowercase_vec, to_uppercase_vec, trim, trim_start_matches,
    trim_start_matches_str, trim_vec, uppercase, views,
};

verus! {

// ---------------------------------------------------------------------------
// Confirmation words
// ---------------------------------------------------------------------------

/// A (lowercased, trimmed) reply that confirms.
pub open spec fn is_confirmation_word(t: Seq<char>) -> bool {
    t == "对"@ || t == "ok"@ || t == "好"@ || t == "确认"@ || t == "是"@ || t == "yes"@ || t == "y"@
        || t == "确定"@ || t == "没问题"@ || t == "可以"@ || t == "行"@ || t == "嗯"@ || t == "对的"@
}

/// Whether a lowercased, trimmed reply is one of the confirmation words.
pub fn confirmation_word(t: &[char]) -> (r: bool)
    ensures
        r == is_confirmation_word(t@),
{
    let s = string_of(t);
    let w: Vec<&str> = vec!["对", "ok", "好", "确认", "是", "yes", "y", "确定", "没问题", "可以", "行", "嗯", "对的"];
    let mut i: usize = 0;
    while i < w.len()
        invariant
            i <= w@.len(),
            s@ == t@,
            w@ == seq!["对", "ok", "好", "确认", "是", "yes", "y", "确定", "没问题", "可以", "行", "嗯", "对的"],
            forall|j: int| 0 <= j < i ==> t@ != (#[trigger] w@[j])@,
        decreases w.len() - i,
    {
        if crate::text::str_eq(s.as_str(), w[i]) {
            return true;
        }
        i = i + 1;
    }
    assert(!is_confirmation_word(t@)) by {
        assert(t@ != w@[0]@);
        assert(t@ != w@[1]@);
        assert(t@ != w@[2]@);
        assert(t@ != w@[3]@);
        assert(t@ != w@[4]@);
        assert(t@ != w@[5]@);
        assert(t@ != w@[6]@);
        assert(t@ != w@[7]@);
        assert(t@ != w@[8]@);
        assert(t@ != w@[9]@);
        assert(t@ != w@[10]@);
        assert(t@ != w@[11]@);
        assert(t@ != w@[12]@);
    }
    false
}

/// Whether the case owner's input confirms (Chinese or English), after
/// trimming and lowercasing.
pub fn is_confirmation(input: &str) -> (r: bool)
    ensures
        r == is_confirmation_word(lowercase(trim(input@))),
{
    let t = to_lowercase_vec(&trim_vec(&chars_of(input)));
    confirmation_word(&t)
}

// ---------------------------------------------------------------------------
// Harvest: to-dos and insights
// ---------------------------------------------------------------------------

pub open spec fn is_todo_heading(low: Seq<char>) -> bool {
    contains(low, "## to-do"@) || contains(low, "## todo"@)
}

pub open spec fn is_insight_heading(low: Seq<char>) -> bool {
    contains(low, "## key insights"@) || contains(low, "## insights"@)
}

/// `(in_todos, in_insights, todos, insights)` after the first `n` lines;
/// `low` holds the lowercased lines.
pub open spec fn harvest_fold(ls: Seq<Seq<char>>, low: Seq<Seq<char>>, n: int) -> (bool, bool, Seq<char>, Seq<char>)
    decreases n,
{
    if n <= 0 || n > ls.len() {
        (false, false, Seq::empty(), Seq::empty())
    } else {
        let st = harvest_fold(ls, low, n - 1);
        let line = ls[n - 1];
        if is_todo_heading(low[n - 1]) {
            (true, false, st.2, st.3)
        } else if is_insight_heading(low[n - 1]) {
            (false, true, st.2, st.3)
        } else if st.0 {
            (st.0, st.1, st.2 + line + "\n"@, st.3)
        } else if st.1 {
            (st.0, st.1, st.2, st.3 + line + "\n"@)
        } else {
            st
        }
    }
}

/// The lowercased lines of a text.
pub open spec fn lowered(ls: Seq<Seq<char>>) -> Seq<Seq<char>> {
    ls.map_values(|l: Seq<char>| lowercase(l))
}

/// The to-do block and the insights block of a harvest response, each
/// trimmed.
pub open spec fn todos_insights(response: Seq<char>) -> (Seq<char>, Seq<char>) {
    let ls = lines(response);
    let st = harvest_fold(ls, lowered(ls), ls.len() as int);
    (trim(st.2), trim(st.3))
}

/// Split a harvest response into its to-do list and its insights: the
/// lines under a "## To-Do" heading and those under a "## Key Insights"
/// heading (case-insensitive).
pub fn parse_todos_insights(response: &str) -> (r: (String, String))
    ensures
        (r.0@, r.1@) == todos_insights(response@),
{
    let ls = lines_vec(&chars_of(response));
    let ghost lv = views(ls@);
    let mut in_todos = false;
    let mut in_insights = false;
    let mut todos: Vec<char> = Vec::new();
    let mut insights: Vec<char> = Vec::new();
    let mut i: usize = 0;
    while i < ls.len()
        invariant
            i <= ls@.len(),
            lv == views(ls@),
            lv == lines(response@),
            (in_todos, in_insights, todos@, insights@) == harvest_fold(lv, lowered(lv), i as int),
        decreases ls.len() - i,
    {
        assert(lv[i as int] == ls@[i as int]@);
        assert(lowered(lv)[i as int] == lowercase(lv[i as int]));
        let low = to_lowercase_vec(&ls[i]);
        if contains_str(&low, "## to-do") || contains_str(&low, "## todo") {
            in_todos = true;
            in_insights = false;
        } else if contains_str(&low, "## key insights") || contains_str(&low, "## insights") {
            in_insights = true;
            in_todos = false;
        } else if in_todos {
            todos = crate::text::concat_vec(&todos, &ls[i]);
            todos = crate::text::concat_vec(&todos, &chars_of("\n"));
        } else if in_insights {
            insights = crate::text::concat_vec(&insights, &ls[i]);
            insights = crate::text::concat_vec(&insights, &chars_of("\n"));
        }
        i = i + 1;
    }
    (string_of(&trim_vec(&todos)), string_of(&trim_vec(&insights)))
}

// ---------------------------------------------------------------------------
// Debate stance
// ---------------------------------------------------------------------------

/// The text after a "position:" / "立场：" label (ASCII or full-width colon).
pub open spec fn after_position_label(t: Seq<char>) -> Option<Seq<char>> {
    match strip_prefix(t, "position:"@) {
        Some(r) => Some(r),
        None => match strip_prefix(t, "position："@) {
            Some(r) => Some(r),
            None => match strip_prefix(t, "立场:"@) {
                Some(r) => Some(r),
                None => strip_prefix(t, "立场："@),
            },
        },
    }
}

/// The stance a labelled position names, if it names one.
pub open spec fn named_stance(rest: Seq<char>) -> Option<Seq<char>> {
    if starts_with(rest, "for"@) || starts_with(rest, "support"@) || starts_with(rest, "pro"@)
        || starts_with(rest, "正方"@) || starts_with(rest, "支持"@) || starts_with(rest, "赞成"@) {
        Some("pro"@)
    } else if starts_with(rest, "against"@) || starts_with(rest, "oppose"@) || starts_with(
        rest,
        "con"@,
    ) || starts_with(rest, "反方"@) || starts_with(rest, "反对"@) {
        Some("con"@)
    } else if starts_with(rest, "middle"@) || starts_with(rest, "neutral"@) || starts_with(
        rest,
        "中立"@,
    ) || starts_with(rest, "中间"@) {
        Some("middle"@)
    } else {
        None
    }
}

/// The stance of a lowercased, trimmed line, if it is a labelled position
/// naming one.
pub open spec fn line_stance(t: Seq<char>) -> Option<Seq<char>> {
    match after_position_label(t) {
        Some(rest) => named_stance(trim(rest)),
        None => None,
    }
}

/// The first stance named by a labelled line among lines `i..n`; `low`
/// holds the lowercased trimmed lines.
pub open spec fn header_stance(low: Seq<Seq<char>>, i: int, n: int) -> Option<Seq<char>>
    decreases n - i,
{
    if i < 0 || i >= n || i >= low.len() {
        None
    } else {
        match line_stance(low[i]) {
            Some(s) => Some(s),
            None => header_stance(low, i + 1, n),
        }
    }
}

/// Non-overlapping occurrences of `p` in `s` from position `i` on.
pub open spec fn count_from(s: Seq<char>, p: Seq<char>, i: int) -> nat
    decreases s.len() - i,
{
    if p.len() == 0 || i < 0 || i + p.len() > s.len() {
        0
    } else {
        match crate::text::find_from(s, p, i) {
            Some(k) => if k >= i && k + p.len() <= s.len() {
                1 + count_from(s, p, k + p.len())
            } else {
                0
            },
            None => 0,
        }
    }
}

/// `s.matches(p).count()`.
pub open spec fn count_matches(s: Seq<char>, p: Seq<char>) -> nat {
    count_from(s, p, 0)
}

/// Fallback stance of a response without a labelled position: explicit
/// stance phrases in its first 300 characters (matched on the uppercased
/// text for English), then a keyword tally.
pub open spec fn fallback_stance(sample: Seq<char>, raw: Seq<char>) -> Seq<char> {
    if contains(sample, "I'M FOR"@) || contains(sample, "I SUPPORT"@) || contains(
        sample,
        "MY STANCE IS FOR"@,
    ) || contains(raw, "我支持"@) || contains(raw, "我赞成"@) || contains(raw, "我的立场是正方"@) {
        "pro"@
    } else if contains(sample, "I'M AGAINST"@) || contains(sample, "I OPPOSE"@) || contains(
        sample,
        "MY STANCE IS AGAINST"@,
    ) || contains(raw, "我反对"@) || contains(raw, "我的立场是反方"@) || contains(
        raw,
        "我的立场是 AGAINST"@,
    ) || contains(raw, "立场是against"@) {
        "con"@
    } else if contains(sample, "I'M IN THE MIDDLE"@) || contains(sample, "BOTH SIDES"@) || contains(
        raw,
        "我中立"@,
    ) || contains(raw, "我的立场是中立"@) {
        "middle"@
    } else {
        let pro = count_matches(sample, "SUPPORT"@) + count_matches(sample, "AGREE"@)
            + count_matches(raw, "支持"@) + count_matches(raw, "赞成"@) + count_matches(raw, "正方"@);
        let con = count_matches(sample, "AGAINST"@) + count_matches(sample, "OPPOSE"@)
            + count_matches(sample, "DISAGREE"@) + count_matches(raw, "反对"@) + count_matches(
            raw,
            "反方"@,
        );
        if pro > con {
            "pro"@
        } else if con > pro {
            "con"@
        } else {
            "middle"@
        }
    }
}

/// The lines of a response, trimmed and lowercased, as the stance reader
/// sees them.
pub open spec fn stance_lines(response: Seq<char>) -> Seq<Seq<char>> {
    lowered(lines(response).map_values(|l: Seq<char>| trim(l)))
}

/// Words that open a side-taking stance: for it.
pub open spec fn pro_words() -> Seq<Seq<char>> {
    seq!["for"@, "support"@, "pro"@, "正方"@, "支持"@, "赞成"@]
}

/// Words that open a side-taking stance: against it.
pub open spec fn con_words() -> Seq<Seq<char>> {
    seq!["against"@, "oppose"@, "con"@, "反方"@, "反对"@]
}

/// Words that open a middle stance.
pub open spec fn middle_words() -> Seq<Seq<char>> {
    seq!["middle"@, "neutral"@, "中立"@, "中间"@]
}

/// `s` starts with one of the words `ws`.
pub open spec fn opens_with_one_of(s: Seq<char>, ws: Seq<Seq<char>>) -> bool {
    exists|i: int| 0 <= i < ws.len() && #[trigger] starts_with(s, ws[i])
}

proof fn lemma_first_char(s: Seq<char>, p: Seq<char>)
    ensures
        starts_with(s, p) && p.len() > 0 ==> s.len() > 0 && s[0] == p[0],
{
    if starts_with(s, p) && p.len() > 0 {
        assert(s.subrange(0, p.len() as int)[0] == s[0]);
    }
}

proof fn lemma_first_chars_of_words(s: Seq<char>)
    ensures
        opens_with_one_of(s, pro_words()) ==> s.len() > 0 && (s[0] == 'f' || s[0] == 's' || s[0] == 'p'
            || s[0] == '正' || s[0] == '支' || s[0] == '赞'),
        opens_with_one_of(s, con_words()) ==> s.len() > 0 && (s[0] == 'a' || s[0] == 'o' || s[0] == 'c'
            || s[0] == '反'),
        opens_with_one_of(s, middle_words()) ==> s.len() > 0 && (s[0] == 'm' || s[0] == 'n' || s[0] == '中'),
{
    reveal_strlit("for");
    reveal_strlit("support");
    reveal_strlit("pro");
    reveal_strlit("正方");
    reveal_strlit("支持");
    reveal_strlit("赞成");
    reveal_strlit("against");
    reveal_strlit("oppose");
    reveal_strlit("con");
    reveal_strlit("反方");
    reveal_strlit("反对");
    reveal_strlit("middle");
    reveal_strlit("neutral");
    reveal_strlit("中立");
    reveal_strlit("中间");
    if opens_with_one_of(s, pro_words()) {
        let i = choose|i: int| 0 <= i < pro_words().len() && #[trigger] starts_with(s, pro_words()[i]);
        lemma_first_char(s, pro_words()[i]);
    }
    if opens_with_one_of(s, con_words()) {
        let i = choose|i: int| 0 <= i < con_words().len() && #[trigger] starts_with(s, con_words()[i]);
        lemma_first_char(s, con_words()[i]);
    }
    if opens_with_one_of(s, middle_words()) {
        let i = choose|i: int| 0 <= i < middle_words().len() && #[trigger] starts_with(s, middle_words()[i]);
        lemma_first_char(s, middle_words()[i]);
    }
}

/// A labelled stance is read by its first word: a text opening with a word
/// for the motion (for, support, pro, 正方, 支持, 赞成) names "pro", one
/// opening with a word against it (against, oppose, con, 反方, 反对) names
/// "con", and one opening with a middle word (middle, neutral, 中立, 中间)
/// names "middle". So a stance naming 正方 never reads as "con".
pub proof fn lemma_named_stance_by_first_word(rest: Seq<char>)
    ensures
        opens_with_one_of(rest, pro_words()) ==> named_stance(rest) == Some("pro"@),
        opens_with_one_of(rest, con_words()) ==> named_stance(rest) == Some("con"@),
        opens_with_one_of(rest, middle_words()) ==> named_stance(rest) == Some("middle"@),
{
    lemma_first_chars_of_words(rest);
    reveal_strlit("for");
    reveal_strlit("support");
    reveal_strlit("pro");
    reveal_strlit("正方");
    reveal_strlit("支持");
    reveal_strlit("赞成");
    reveal_strlit("against");
    reveal_strlit("oppose");
    reveal_strlit("con");
    reveal_strlit("反方");
    reveal_strlit("反对");
    lemma_first_char(rest, "for"@);
    lemma_first_char(rest, "support"@);
    lemma_first_char(rest, "pro"@);
    lemma_first_char(rest, "正方"@);
    lemma_first_char(rest, "支持"@);
    lemma_first_char(rest, "赞成"@);
    lemma_first_char(rest, "against"@);
    lemma_first_char(rest, "oppose"@);
    lemma_first_char(rest, "con"@);
    lemma_first_char(rest, "反方"@);
    lemma_first_char(rest, "反对"@);
    if opens_with_one_of(rest, pro_words()) {
        let i = choose|i: int| 0 <= i < pro_words().len() && #[trigger] starts_with(rest, pro_words()[i]);
        assert(i == 0 || i == 1 || i == 2 || i == 3 || i == 4 || i == 5);
    }
    if opens_with_one_of(rest, con_words()) {
        let i = choose|i: int| 0 <= i < con_words().len() && #[trigger] starts_with(rest, con_words()[i]);
        assert(i == 0 || i == 1 || i == 2 || i == 3 || i == 4);
    }
    if opens_with_one_of(rest, middle_words()) {
        let i = choose|i: int| 0 <= i < middle_words().len() && #[trigger] starts_with(rest, middle_words()[i]);
        assert(i == 0 || i == 1 || i == 2 || i == 3);
    }
}

/// A response whose first line is a labelled stance (立场：, position:)
/// opening with a word for the motion is categorized "pro"; one opening
/// with a word against it, "con" — whatever the rest of the response says.
pub proof fn lemma_labelled_first_line_decides(response: Seq<char>)
    requires
        stance_lines(response).len() > 0,
        after_position_label(stance_lines(response)[0]) is Some,
    ensures
        opens_with_one_of(trim(after_position_label(stance_lines(response)[0])->0), pro_words())
            ==> position_of(response) == "pro"@,
        opens_with_one_of(trim(after_position_label(stance_lines(response)[0])->0), con_words())
            ==> position_of(response) == "con"@,
{
    lemma_named_stance_by_first_word(trim(after_position_label(stance_lines(response)[0])->0));
}

/// The stance of a debate response, "pro", "con" or "middle": the first
/// labelled position among its first five lines, else the fallback on its
/// first 300 characters.
pub open spec fn position_of(response: Seq<char>) -> Seq<char> {
    match header_stance(stance_lines(response), 0, 5) {
        Some(s) => s,
        None => fallback_stance(take_chars(uppercase(response), 300), take_chars(response, 300)),
    }
}

fn count_matches_exec(s: &[char], p: &str) -> (r: usize)
    requires
        p@.len() > 0,
    ensures
        r == count_matches(s@, p@),
{
    let pv = chars_of(p);
    let mut n: usize = 0;
    let mut i: usize = 0;
    while i <= s.len() && pv.len() <= s.len() - i
        invariant
            pv@ == p@,
            pv@.len() > 0,
            i <= s@.len(),
            n <= i,
            n + count_from(s@, p@, i as int) == count_matches(s@, p@),
        decreases s.len() - i,
    {
        match crate::text::find_from_exec(s, &pv, i) {
            Some(k) => {
                proof {
                    crate::text::lemma_find_from(s@, p@, i as int);
                }
                n = n + 1;
                i = k + pv.len();
            },
            None => {
                return n;
            },
        }
    }
    n
}

fn named_stance_exec(rest: &[char]) -> (r: Option<String>)
    ensures
        match named_stance(rest@) {
            Some(s) => r matches Some(x) && x@ == s,
            None => r is None,
        },
{
    if starts_with_str(rest, "for") || starts_with_str(rest, "support") || starts_with_str(rest, "pro")
        || starts_with_str(rest, "正方") || starts_with_str(rest, "支持") || starts_with_str(rest, "赞成") {
        Some(owned("pro"))
    } else if starts_with_str(rest, "against") || starts_with_str(rest, "oppose") || starts_with_str(
        rest,
        "con",
    ) || starts_with_str(rest, "反方") || starts_with_str(rest, "反对") {
        Some(owned("con"))
    } else if starts_with_str(rest, "middle") || starts_with_str(rest, "neutral") || starts_with_str(
        rest,
        "中立",
    ) || starts_with_str(rest, "中间") {
        Some(owned("middle"))
    } else {
        None
    }
}

fn line_stance_exec(t: &[char]) -> (r: Option<String>)
    ensures
        match line_stance(t@) {
            Some(s) => r matches Some(x) && x@ == s,
            None => r is None,
        },
{
    let rest = match strip_prefix_str(t, "position:") {
        Some(r) => Some(r),
        None => match strip_prefix_str(t, "position：") {
            Some(r) => Some(r),
            None => match strip_prefix_str(t, "立场:") {
                Some(r) => Some(r),
                None => strip_prefix_str(t, "立场："),
            },
        },
    };
    match rest {
        Some(r) => named_stance_exec(&trim_vec(&r)),
        None => None,
    }
}

fn fallback_stance_exec(sample: &[char], raw: &[char]) -> (r: String)
    ensures
        r@ == fallback_stance(sample@, raw@),
{
    if contains_str(sample, "I'M FOR") || contains_str(sample, "I SUPPORT") || contains_str(
        sample,
        "MY STANCE IS FOR",
    ) || contains_str(raw, "我支持") || contains_str(raw, "我赞成") || contains_str(raw, "我的立场是正方") {
        return owned("pro");
    }
    if contains_str(sample, "I'M AGAINST") || contains_str(sample, "I OPPOSE") || contains_str(
        sample,
        "MY STANCE IS AGAINST",
    ) || contains_str(raw, "我反对") || contains_str(raw, "我的立场是反方") || contains_str(
        raw,
        "我的立场是 AGAINST",
    ) || contains_str(raw, "立场是against") {
        return owned("con");
    }
    if contains_str(sample, "I'M IN THE MIDDLE") || contains_str(sample, "BOTH SIDES") || contains_str(
        raw,
        "我中立",
    ) || contains_str(raw, "我的立场是中立") {
        return owned("middle");
    }
    proof {
        reveal_strlit("SUPPORT");
        reveal_strlit("AGREE");
        reveal_strlit("支持");
        reveal_strlit("赞成");
        reveal_strlit("正方");
        reveal_strlit("AGAINST");
        reveal_strlit("OPPOSE");
        reveal_strlit("DISAGREE");
        reveal_strlit("反对");
        reveal_strlit("反方");
    }
    let p1 = count_matches_exec(sample, "SUPPORT");
    let p2 = count_matches_exec(sample, "AGREE");
    let p3 = count_matches_exec(raw, "支持");
    let p4 = count_matches_exec(raw, "赞成");
    let p5 = count_matches_exec(raw, "正方");
    let c1 = count_matches_exec(sample, "AGAINST");
    let c2 = count_matches_exec(sample, "OPPOSE");
    let c3 = count_matches_exec(sample, "DISAGREE");
    let c4 = count_matches_exec(raw, "反对");
    let c5 = count_matches_exec(raw, "反方");
    let pro: u128 = p1 as u128 + p2 as u128 + p3 as u128 + p4 as u128 + p5 as u128;
    let con: u128 = c1 as u128 + c2 as u128 + c3 as u128 + c4 as u128 + c5 as u128;
    if pro > con {
        owned("pro")
    } else if con > pro {
        owned("con")
    } else {
        owned("middle")
    }
}

/// The stance of a lowercased, trimmed early line, and of a whole
/// response: see `position_of`.
pub fn categorize_position(response: &str) -> (r: String)
    ensures
        r@ == position_of(response@),
{
    let cs = chars_of(response);
    let ls = lines_vec(&cs);
    let ghost lv = views(ls@);
    let ghost low = lowered(lv.map_values(|l: Seq<char>| trim(l)));
    let mut i: usize = 0;
    while i < ls.len() && i < 5
        invariant
            lv == views(ls@),
            lv == lines(response@),
            low == lowered(lv.map_values(|l: Seq<char>| trim(l))),
            i <= ls@.len(),
            i <= 5,
            header_stance(low, i as int, 5) == header_stance(low, 0, 5),
        decreases ls.len() - i,
    {
        assert(lv[i as int] == ls@[i as int]@);
        assert(low[i as int] == lowercase(trim(lv[i as int])));
        let t = to_lowercase_vec(&trim_vec(&ls[i]));
        match line_stance_exec(&t) {
            Some(s) => {
                return s;
            },
            None => {},
        }
        i = i + 1;
    }
    assert(header_stance(low, i as int, 5) is None);
    let sample = take_chars_vec(&to_uppercase_vec(&cs), 300);
    let raw = take_chars_vec(&cs, 300);
    fallback_stance_exec(&sample, &raw)
}


// ---------------------------------------------------------------------------
// Debate dimensions
// ---------------------------------------------------------------------------

/// A dimension as four texts: name, core conflict, pro and con arguments.
pub open spec fn dim_view(d: Dimension) -> (Seq<char>, Seq<char>, Seq<char>, Seq<char>) {
    (d.name@, d.core_conflict@, d.pro_argument@, d.con_argument@)
}

pub open spec fn dim_views(ds: Seq<Dimension>) -> Seq<(Seq<char>, Seq<char>, Seq<char>, Seq<char>)> {
    ds.map_values(|d: Dimension| dim_view(d))
}

/// The second `:`-separated field of a line (`split(':').nth(1)`), or empty.
pub open spec fn second_field(line: Seq<char>) -> Seq<char> {
    match find(line, ":"@) {
        Some(k) => {
            let rest = line.skip(k + 1);
            match find(rest, ":"@) {
                Some(j) => rest.take(j),
                None => rest,
            }
        },
        None => Seq::empty(),
    }
}

/// The con side of a "Points of Contention" line from its separator on:
/// the first matching phrase stripped, trimmed.
pub open spec fn con_side(part: Seq<char>, p1: Seq<char>, p2: Seq<char>, p3: Seq<char>) -> Seq<char> {
    match strip_prefix(part, p1) {
        Some(r) => trim(r),
        None => match strip_prefix(part, p2) {
            Some(r) => trim(r),
            None => match strip_prefix(part, p3) {
                Some(r) => trim(r),
                None => trim(part),
            },
        },
    }
}

/// Pro and con sides of a contention text split at `sep`, when it occurs.
pub open spec fn split_contention(
    content: Seq<char>,
    sep: Seq<char>,
    p1: Seq<char>,
    p2: Seq<char>,
    p3: Seq<char>,
) -> Option<(Seq<char>, Seq<char>)> {
    match find(content, sep) {
        Some(k) => Some((trim(content.take(k)), con_side(content.skip(k), p1, p2, p3))),
        None => None,
    }
}

/// Pro and con sides of a "Points of Contention:" text.
pub open spec fn contention_sides(content: Seq<char>) -> Option<(Seq<char>, Seq<char>)> {
    match split_contention(
        content,
        " while the other side "@,
        " while the other side argues that "@,
        " while the other side argues "@,
        " while the other side "@,
    ) {
        Some(pc) => Some(pc),
        None => split_contention(
            content,
            " The other side "@,
            " The other side argues that "@,
            " The other side sees "@,
            " The other side "@,
        ),
    }
}

/// Parser state: finished dimensions, then the current name, core
/// conflict, pro and con texts, and whether a dimension is open.
pub type DimAcc = (
    Seq<(Seq<char>, Seq<char>, Seq<char>, Seq<char>)>,
    Seq<char>,
    Seq<char>,
    Seq<char>,
    Seq<char>,
    bool,
);

/// The finished dimensions with the open one closed, when it has a name.
pub open spec fn close_dim(st: DimAcc) -> Seq<(Seq<char>, Seq<char>, Seq<char>, Seq<char>)> {
    if st.5 && st.1.len() > 0 {
        st.0.push((trim(st.1), trim(st.2), trim(st.3), trim(st.4)))
    } else {
        st.0
    }
}

/// One trimmed line (and its lowercase) applied to the parser state.
pub open spec fn dim_step(st: DimAcc, line: Seq<char>, low: Seq<char>) -> DimAcc {
    if starts_with(line, "## "@) && !contains(low, "unanimous"@) {
        (close_dim(st), trim_start_matches(line, "## "@), Seq::empty(), Seq::empty(), Seq::empty(), true)
    } else if !st.5 {
        st
    } else if starts_with(line, "核心冲突："@) || starts_with(line, "核心冲突:"@) {
        (st.0, st.1, trim(trim_start_matches(trim_start_matches(line, "核心冲突："@), "核心冲突:"@)), st.3, st.4, st.5)
    } else if starts_with(line, "分歧要点："@) || starts_with(line, "分歧要点:"@) {
        (st.0, st.1, st.2, trim(trim_start_matches(trim_start_matches(line, "分歧要点："@), "分歧要点:"@)), st.4, st.5)
    } else if starts_with(low, "core conflict:"@) {
        (st.0, st.1, trim_start_matches(trim_start_matches(line, "Core Conflict:"@), "core conflict:"@), st.3, st.4, st.5)
    } else if starts_with(low, "pro"@) || contains(low, "pro argument"@) {
        (st.0, st.1, st.2, trim(second_field(line)), st.4, st.5)
    } else if starts_with(low, "con"@) || contains(low, "con argument"@) {
        (st.0, st.1, st.2, st.3, trim(second_field(line)), st.5)
    } else if starts_with(low, "points of contention:"@) {
        let content = trim(trim_start_matches(trim_start_matches(line, "Points of Contention:"@), "points of contention:"@));
        match contention_sides(content) {
            Some(pc) => (st.0, st.1, st.2, pc.0, pc.1, st.5),
            None => st,
        }
    } else {
        st
    }
}

/// The parser state after the first `n` lines; `ls` are the trimmed lines
/// and `low` their lowercase.
pub open spec fn dim_fold(ls: Seq<Seq<char>>, low: Seq<Seq<char>>, n: int) -> DimAcc
    decreases n,
{
    if n <= 0 || n > ls.len() {
        (Seq::empty(), Seq::empty(), Seq::empty(), Seq::empty(), Seq::empty(), false)
    } else {
        dim_step(dim_fold(ls, low, n - 1), ls[n - 1], low[n - 1])
    }
}

/// The lines of a response, each trimmed.
pub open spec fn trimmed_lines(response: Seq<char>) -> Seq<Seq<char>> {
    lines(response).map_values(|l: Seq<char>| trim(l))
}

/// The dimension name a trimmed line opens, if it is a `## ` heading other
/// than a unanimous-consensus one and names something.
pub open spec fn heading_name(line: Seq<char>, low: Seq<char>) -> Option<Seq<char>> {
    if starts_with(line, "## "@) && !contains(low, "unanimous"@) && trim_start_matches(line, "## "@).len() > 0 {
        Some(trim(trim_start_matches(line, "## "@)))
    } else {
        None
    }
}

/// The names the headings among the first `n` lines open, in order.
pub open spec fn heading_names(ls: Seq<Seq<char>>, low: Seq<Seq<char>>, n: int) -> Seq<Seq<char>>
    decreases n,
{
    if n <= 0 || n > ls.len() {
        Seq::empty()
    } else {
        match heading_name(ls[n - 1], low[n - 1]) {
            Some(x) => heading_names(ls, low, n - 1).push(x),
            None => heading_names(ls, low, n - 1),
        }
    }
}

/// The names of a list of dimensions, in order.
pub open spec fn dim_names(ds: Seq<(Seq<char>, Seq<char>, Seq<char>, Seq<char>)>) -> Seq<Seq<char>> {
    ds.map_values(|d: (Seq<char>, Seq<char>, Seq<char>, Seq<char>)| d.0)
}

/// Every heading that names a dimension yields one dimension, in order:
/// after any number of lines, the dimensions read so far (the open one
/// included) are named by those headings, none dropped and none added.
pub proof fn lemma_one_dimension_per_heading(ls: Seq<Seq<char>>, low: Seq<Seq<char>>, n: int)
    requires
        0 <= n <= ls.len(),
    ensures
        dim_names(close_dim(dim_fold(ls, low, n))) == heading_names(ls, low, n),
    decreases n,
{
    if n == 0 {
        assert(dim_names(close_dim(dim_fold(ls, low, 0))) =~= Seq::<Seq<char>>::empty());
    } else {
        lemma_one_dimension_per_heading(ls, low, n - 1);
        let st = dim_fold(ls, low, n - 1);
        let line = ls[n - 1];
        let lw = low[n - 1];
        let next = dim_step(st, line, lw);
        assert(dim_fold(ls, low, n) == next);
        if starts_with(line, "## "@) && !contains(lw, "unanimous"@) {
            let name = trim_start_matches(line, "## "@);
            assert(next.0 == close_dim(st) && next.1 == name && next.5);
            if name.len() > 0 {
                let d = (trim(name), trim(next.2), trim(next.3), trim(next.4));
                assert(close_dim(next) == close_dim(st).push(d));
                assert(dim_names(close_dim(st).push(d)) =~= dim_names(close_dim(st)).push(trim(name)));
            } else {
                assert(close_dim(next) == close_dim(st));
            }
        } else {
            assert(next.0 == st.0 && next.1 == st.1 && next.5 == st.5);
            if st.5 && st.1.len() > 0 {
                let a = (trim(st.1), trim(st.2), trim(st.3), trim(st.4));
                let b = (trim(next.1), trim(next.2), trim(next.3), trim(next.4));
                assert(dim_names(st.0.push(a)) =~= dim_names(st.0).push(trim(st.1)));
                assert(dim_names(next.0.push(b)) =~= dim_names(next.0).push(trim(st.1)));
            }
        }
    }
}

/// A response with at least one dimension heading yields exactly one
/// dimension per such heading, named by it, in order: the number of
/// dimensions is the number of headings, with no cap.
pub proof fn lemma_dimensions_follow_headings(response: Seq<char>)
    requires
        heading_names(trimmed_lines(response), lowered(trimmed_lines(response)), trimmed_lines(response).len() as int).len() > 0,
    ensures
        dim_names(dimensions_of(response)) == heading_names(
            trimmed_lines(response),
            lowered(trimmed_lines(response)),
            trimmed_lines(response).len() as int,
        ),
        dimensions_of(response).len() == heading_names(
            trimmed_lines(response),
            lowered(trimmed_lines(response)),
            trimmed_lines(response).len() as int,
        ).len(),
{
    let ls = trimmed_lines(response);
    lemma_one_dimension_per_heading(ls, lowered(ls), ls.len() as int);
}

/// The dimensions of a model response: one per "## " heading (except a
/// unanimous-consensus heading), with the core conflict and the pro and con
/// arguments read from the labelled lines below it; a single "General"
/// dimension holding the whole response when none is found.
pub open spec fn dimensions_of(response: Seq<char>) -> Seq<(Seq<char>, Seq<char>, Seq<char>, Seq<char>)> {
    let ls = trimmed_lines(response);
    let dims = close_dim(dim_fold(ls, lowered(ls), ls.len() as int));
    if dims.len() == 0 && trim(response).len() > 0 {
        seq![("General"@, response, "See full response"@, "See full response"@)]
    } else {
        dims
    }
}

fn second_field_exec(line: &[char]) -> (r: Vec<char>)
    ensures
        r@ == second_field(line@),
{
    let colon = chars_of(":");
    assert(colon@.len() == 1) by {
        reveal_strlit(":");
    }
    match find_exec(line, &colon) {
        Some(k) => {
            proof {
                crate::text::lemma_find_from(line@, ":"@, 0);
            }
            assert(k + colon.len() <= line.len());
            let rest = slice_vec(line, k + 1, line.len());
            assert(rest@ == line@.skip(k + 1));
            match find_exec(&rest, &colon) {
                Some(j) => {
                    proof {
                        crate::text::lemma_find_from(rest@, ":"@, 0);
                    }
                    assert(rest@.subrange(0, j as int) == rest@.take(j as int));
                    slice_vec(&rest, 0, j)
                },
                None => rest,
            }
        },
        None => Vec::new(),
    }
}

fn con_side_exec(part: &[char], p1: &str, p2: &str, p3: &str) -> (r: Vec<char>)
    ensures
        r@ == con_side(part@, p1@, p2@, p3@),
{
    match strip_prefix_str(part, p1) {
        Some(r) => trim_vec(&r),
        None => match strip_prefix_str(part, p2) {
            Some(r) => trim_vec(&r),
            None => match strip_prefix_str(part, p3) {
                Some(r) => trim_vec(&r),
                None => trim_vec(part),
            },
        },
    }
}

fn split_contention_exec(content: &[char], sep: &str, p1: &str, p2: &str, p3: &str) -> (r: Option<(Vec<char>, Vec<char>)>)
    ensures
        match split_contention(content@, sep@, p1@, p2@, p3@) {
            Some(pc) => r matches Some(x) && x.0@ == pc.0 && x.1@ == pc.1,
            None => r is None,
        },
{
    let sv = chars_of(sep);
    match find_exec(content, &sv) {
        Some(k) => {
            proof {
                crate::text::lemma_find_from(content@, sep@, 0);
            }
            let head = slice_vec(content, 0, k);
            assert(head@ == content@.take(k as int));
            let part = slice_vec(content, k, content.len());
            assert(part@ == content@.skip(k as int));
            Some((trim_vec(&head), con_side_exec(&part, p1, p2, p3)))
        },
        None => None,
    }
}

fn contention_sides_exec(content: &[char]) -> (r: Option<(Vec<char>, Vec<char>)>)
    ensures
        match contention_sides(content@) {
            Some(pc) => r matches Some(x) && x.0@ == pc.0 && x.1@ == pc.1,
            None => r is None,
        },
{
    match split_contention_exec(
        content,
        " while the other side ",
        " while the other side argues that ",
        " while the other side argues ",
        " while the other side ",
    ) {
        Some(pc) => Some(pc),
        None => split_contention_exec(
            content,
            " The other side ",
            " The other side argues that ",
            " The other side sees ",
            " The other side ",
        ),
    }
}

/// Executable parser state (see `DimAcc`).
struct DimParser {
    dims: Vec<Dimension>,
    name: Vec<char>,
    conflict: Vec<char>,
    pro: Vec<char>,
    con: Vec<char>,
    in_dim: bool,
}

impl DimParser {
    spec fn acc(&self) -> DimAcc {
        (dim_views(self.dims@), self.name@, self.conflict@, self.pro@, self.con@, self.in_dim)
    }

    fn close(&mut self)
        ensures
            dim_views(final(self).dims@) == close_dim(old(self).acc()),
            final(self).name == old(self).name,
            final(self).conflict == old(self).conflict,
            final(self).pro == old(self).pro,
            final(self).con == old(self).con,
            final(self).in_dim == old(self).in_dim,
    {
        if self.in_dim && self.name.len() > 0 {
            let d = Dimension {
                name: string_of(&trim_vec(&self.name)),
                core_conflict: string_of(&trim_vec(&self.conflict)),
                pro_argument: string_of(&trim_vec(&self.pro)),
                con_argument: string_of(&trim_vec(&self.con)),
            };
            let ghost before = self.dims@;
            self.dims.push(d);
            proof {
                assert(dim_views(self.dims@) =~= dim_views(before).push(dim_view(d)));
            }
        }
    }

    fn step(&mut self, line: &[char], low: &[char])
        ensures
            final(self).acc() == dim_step(old(self).acc(), line@, low@),
    {
        if starts_with_str(line, "## ") && !contains_str(low, "unanimous") {
            self.close();
            self.name = trim_start_matches_str(line, "## ");
            self.conflict = Vec::new();
            self.pro = Vec::new();
            self.con = Vec::new();
            self.in_dim = true;
        } else if !self.in_dim {
        } else if starts_with_str(line, "核心冲突：") || starts_with_str(line, "核心冲突:") {
            let a = trim_start_matches_str(line, "核心冲突：");
            let b = trim_start_matches_str(&a, "核心冲突:");
            self.conflict = trim_vec(&b);
        } else if starts_with_str(line, "分歧要点：") || starts_with_str(line, "分歧要点:") {
            let a = trim_start_matches_str(line, "分歧要点：");
            let b = trim_start_matches_str(&a, "分歧要点:");
            self.pro = trim_vec(&b);
        } else if starts_with_str(low, "core conflict:") {
            let a = trim_start_matches_str(line, "Core Conflict:");
            self.conflict = trim_start_matches_str(&a, "core conflict:");
        } else if starts_with_str(low, "pro") || contains_str(low, "pro argument") {
            self.pro = trim_vec(&second_field_exec(line));
        } else if starts_with_str(low, "con") || contains_str(low, "con argument") {
            self.con = trim_vec(&second_field_exec(line));
        } else if starts_with_str(low, "points of contention:") {
            let a = trim_start_matches_str(line, "Points of Contention:");
            let b = trim_start_matches_str(&a, "points of contention:");
            let content = trim_vec(&b);
            match contention_sides_exec(&content) {
                Some(pc) => {
                    self.pro = pc.0;
                    self.con = pc.1;
                },
                None => {},
            }
        }
    }
}

/// Parse the debate dimensions of a model response (see `dimensions_of`).
pub fn parse_dimensions(response: &str) -> (r: Vec<Dimension>)
    ensures
        dim_views(r@) == dimensions_of(response@),
{
    let ls = lines_vec(&chars_of(response));
    let ghost tl = lines(response@).map_values(|l: Seq<char>| trim(l));
    let mut p = DimParser {
        dims: Vec::new(),
        name: Vec::new(),
        conflict: Vec::new(),
        pro: Vec::new(),
        con: Vec::new(),
        in_dim: false,
    };
    proof {
        assert(dim_views(p.dims@) =~= Seq::empty());
    }
    let mut i: usize = 0;
    while i < ls.len()
        invariant
            i <= ls@.len(),
            views(ls@) == lines(response@),
            tl == lines(response@).map_values(|l: Seq<char>| trim(l)),
            p.acc() == dim_fold(tl, lowered(tl), i as int),
        decreases ls.len() - i,
    {
        assert(views(ls@)[i as int] == ls@[i as int]@);
        let line = trim_vec(&ls[i]);
        assert(tl[i as int] == line@);
        let low = to_lowercase_vec(&line);
        assert(lowered(tl)[i as int] == low@);
        p.step(&line, &low);
        i = i + 1;
    }
    p.close();
    let mut dims = p.dims;
    if dims.len() == 0 && !crate::text::is_blank(&chars_of(response)) {
        let d = Dimension {
            name: owned("General"),
            core_conflict: owned(response),
            pro_argument: owned("See full response"),
            con_argument: owned("See full response"),
        };
        dims.push(d);
        proof {
            assert(dim_views(dims@) =~= seq![dim_view(d)]);
        }
    }
    dims
}


// ---------------------------------------------------------------------------
// Resonance signals
// ---------------------------------------------------------------------------

/// `s.split(sep)` from position `i` on (`sep` not empty).
pub open spec fn split_from(s: Seq<char>, sep: Seq<char>, i: int) -> Seq<Seq<char>>
    decreases s.len() - i,
{
    if sep.len() == 0 || i < 0 || i > s.len() {
        Seq::empty()
    } else {
        match crate::text::find_from(s, sep, i) {
            Some(k) => if i <= k && k + sep.len() <= s.len() {
                seq![s.subrange(i, k)] + split_from(s, sep, k + sep.len())
            } else {
                Seq::empty()
            },
            None => seq![s.subrange(i, s.len() as int)],
        }
    }
}

/// `s.split(sep)`.
pub open spec fn split_on(s: Seq<char>, sep: Seq<char>) -> Seq<Seq<char>> {
    split_from(s, sep, 0)
}

/// A reaction entry: step, advisor, reaction mark, snippet, note.
pub type Reaction = (Seq<char>, Seq<char>, Seq<char>, Seq<char>, Seq<char>);

/// Entries bucketed by weight: noted, critical, important.
pub type Tiers = (Seq<Seq<char>>, Seq<Seq<char>>, Seq<Seq<char>>);

/// The line an entry is rendered as.
pub open spec fn reaction_line(r: Reaction) -> Seq<char> {
    "- [Step "@ + r.0 + " · "@ + r.1 + "]"@ + (if r.3.len() == 0 {
        Seq::empty()
    } else {
        "\n> "@ + r.3
    }) + (if r.4.len() == 0 {
        Seq::empty()
    } else {
        "\n  案主笔记（verbatim）: "@ + r.4
    })
}

/// The open entry, if any, filed into its tier: a typed note (or 📝) is
/// tier 1, ❗ tier 2, anything else tier 3.
pub open spec fn flush(cur: Option<Reaction>, t: Tiers) -> Tiers {
    match cur {
        Some(r) => if r.2.contains('📝') || r.4.len() > 0 {
            (t.0.push(reaction_line(r)), t.1, t.2)
        } else if r.2.contains('❗') {
            (t.0, t.1.push(reaction_line(r)), t.2)
        } else {
            (t.0, t.1, t.2.push(reaction_line(r)))
        },
        None => t,
    }
}

/// The entry a "## {time} — Step {n} — {advisor} — {reaction}" header opens.
pub open spec fn header_entry(header: Seq<char>) -> Option<Reaction> {
    let parts = split_on(header, " — "@);
    if parts.len() >= 4 {
        Some((trim(trim_start_matches(parts[1], "Step "@)), trim(parts[2]), trim(parts[3]), Seq::empty(), Seq::empty()))
    } else {
        None
    }
}

/// One line of the reactions file applied to `(open entry, tiers)`.
pub open spec fn reaction_step(st: (Option<Reaction>, Tiers), line: Seq<char>) -> (Option<Reaction>, Tiers) {
    match strip_prefix(line, "## "@) {
        Some(h) => (header_entry(h), flush(st.0, st.1)),
        None => match strip_prefix(line, "**Snippet**: "@) {
            Some(rest) => match st.0 {
                Some(r) => (Some((r.0, r.1, r.2, trim(rest), r.4)), st.1),
                None => st,
            },
            None => match strip_prefix(line, "**Note**: "@) {
                Some(rest) => match st.0 {
                    Some(r) => (Some((r.0, r.1, r.2, r.3, trim(rest))), st.1),
                    None => st,
                },
                None => st,
            },
        },
    }
}

pub open spec fn reaction_fold(ls: Seq<Seq<char>>, n: int) -> (Option<Reaction>, Tiers)
    decreases n,
{
    if n <= 0 || n > ls.len() {
        (None, (Seq::empty(), Seq::empty(), Seq::empty()))
    } else {
        reaction_step(reaction_fold(ls, n - 1), ls[n - 1])
    }
}

/// A tier block: heading, entries joined by `sep`; nothing when empty.
pub open spec fn tier_block(heading: Seq<char>, entries: Seq<Seq<char>>, sep: Seq<char>) -> Seq<char> {
    if entries.len() == 0 {
        Seq::empty()
    } else {
        heading + crate::wisdom::join(entries, sep) + "\n\n"@
    }
}

pub open spec fn resonance_intro() -> Seq<char> {
    "## 案主共振信号（案主在前面步骤中亲自标记的重点）\n\n*按权重分级：带文字笔记 > 关键标记 > 重要标记。带笔记的 verbatim 引用，代表案主实际在想什么。*\n\n"@
}

pub open spec fn resonance_outro() -> Seq<char> {
    "请在生成下面内容时，优先照顾这些标记——特别是带文字笔记的，那是案主自己打字留下的反应，比任何通用分析都更能反映「这次对话真正撬动了什么」。\n\n---\n\n"@
}

/// The prompt with the case owner's resonance signals in front: entries of
/// the reactions file grouped into three weighted tiers (the raw text when
/// no entry parses); the prompt alone when there are no reactions.
pub open spec fn with_reactions(reactions_md: Seq<char>, prompt: Seq<char>) -> Seq<char> {
    let body = trim(reactions_md);
    if body.len() == 0 {
        prompt
    } else {
        let ls = lines(body);
        let st = reaction_fold(ls, ls.len() as int);
        let t = flush(st.0, st.1);
        let sections = if t.0.len() == 0 && t.1.len() == 0 && t.2.len() == 0 {
            body + "\n"@
        } else {
            tier_block("### Tier-1 · 📝 带文字笔记（案主主动打字，最高权重信号）\n\n"@, t.0, "\n\n"@)
                + tier_block("### Tier-2 · ❗ 标记为关键\n\n"@, t.1, "\n"@) + tier_block(
                "### Tier-3 · ⭐ 标记为重要\n\n"@,
                t.2,
                "\n"@,
            )
        };
        resonance_intro() + sections + resonance_outro() + prompt
    }
}

pub fn split_on_exec(s: &[char], sep: &str) -> (r: Vec<Vec<char>>)
    requires
        sep@.len() > 0,
    ensures
        views(r@) == split_on(s@, sep@),
{
    let sv = chars_of(sep);
    let mut out: Vec<Vec<char>> = Vec::new();
    let mut i: usize = 0;
    loop
        invariant
            sv@ == sep@,
            sv@.len() > 0,
            i <= s@.len(),
            views(out@) + split_from(s@, sep@, i as int) == split_on(s@, sep@),
        decreases s@.len() - i,
    {
        match crate::text::find_from_exec(s, &sv, i) {
            Some(k) => {
                proof {
                    crate::text::lemma_find_from(s@, sep@, i as int);
                }
                assert(k + sv.len() <= s.len());
                let piece = slice_vec(s, i, k);
                let ghost before = out@;
                out.push(piece);
                proof {
                    assert(views(out@) =~= views(before).push(piece@));
                    assert(split_from(s@, sep@, i as int) == seq![s@.subrange(i as int, k as int)]
                        + split_from(s@, sep@, k + sep@.len()));
                    assert(views(out@) + split_from(s@, sep@, k + sep@.len()) =~= views(before)
                        + split_from(s@, sep@, i as int));
                }
                i = k + sv.len();
            },
            None => {
                let piece = slice_vec(s, i, s.len());
                let ghost before = out@;
                out.push(piece);
                proof {
                    assert(views(out@) =~= views(before).push(piece@));
                    assert(views(out@) =~= views(before) + split_from(s@, sep@, i as int));
                }
                return out;
            },
        }
    }
}

fn has_char(s: &[char], c: char) -> (r: bool)
    ensures
        r == s@.contains(c),
{
    let mut i: usize = 0;
    while i < s.len()
        invariant
            i <= s@.len(),
            forall|j: int| 0 <= j < i ==> s@[j] != c,
        decreases s.len() - i,
    {
        if s[i] == c {
            return true;
        }
        i = i + 1;
    }
    false
}

/// Executable reaction entry (see `Reaction`).
struct Entry {
    step: Vec<char>,
    persona: Vec<char>,
    reaction: Vec<char>,
    snippet: Vec<char>,
    note: Vec<char>,
}

spec fn entry_view(e: Option<Entry>) -> Option<Reaction> {
    match e {
        Some(x) => Some((x.step@, x.persona@, x.reaction@, x.snippet@, x.note@)),
        None => None,
    }
}

fn entry_line(e: &Entry) -> (r: String)
    ensures
        r@ == reaction_line((e.step@, e.persona@, e.reaction@, e.snippet@, e.note@)),
{
    let mut l = owned("- [Step ");
    crate::text::append_chars(&mut l, &e.step);
    l.append(" · ");
    crate::text::append_chars(&mut l, &e.persona);
    l.append("]");
    if e.snippet.len() > 0 {
        l.append("\n> ");
        crate::text::append_chars(&mut l, &e.snippet);
    }
    if e.note.len() > 0 {
        l.append("\n  案主笔记（verbatim）: ");
        crate::text::append_chars(&mut l, &e.note);
    }
    l
}

fn flush_exec(cur: Option<Entry>, t1: &mut Vec<String>, t2: &mut Vec<String>, t3: &mut Vec<String>)
    ensures
        (crate::markdown::string_views(final(t1)@), crate::markdown::string_views(final(t2)@), crate::markdown::string_views(final(t3)@))
            == flush(
            entry_view(cur),
            (crate::markdown::string_views(old(t1)@), crate::markdown::string_views(old(t2)@), crate::markdown::string_views(old(t3)@)),
        ),
{
    match cur {
        Some(e) => {
            let line = entry_line(&e);
            if has_char(&e.reaction, '📝') || e.note.len() > 0 {
                t1.push(line);
                proof {
                    assert(crate::markdown::string_views(t1@) =~= crate::markdown::string_views(old(t1)@).push(line@));
                }
            } else if has_char(&e.reaction, '❗') {
                t2.push(line);
                proof {
                    assert(crate::markdown::string_views(t2@) =~= crate::markdown::string_views(old(t2)@).push(line@));
                }
            } else {
                t3.push(line);
                proof {
                    assert(crate::markdown::string_views(t3@) =~= crate::markdown::string_views(old(t3)@).push(line@));
                }
            }
        },
        None => {},
    }
}

fn header_entry_exec(header: &[char]) -> (r: Option<Entry>)
    ensures
        entry_view(r) == header_entry(header@),
{
    proof {
        reveal_strlit(" — ");
    }
    let parts = split_on_exec(header, " — ");
    if parts.len() >= 4 {
        assert(views(parts@)[1] == parts@[1]@);
        assert(views(parts@)[2] == parts@[2]@);
        assert(views(parts@)[3] == parts@[3]@);
        Some(Entry {
            step: trim_vec(&trim_start_matches_str(&parts[1], "Step ")),
            persona: trim_vec(&parts[2]),
            reaction: trim_vec(&parts[3]),
            snippet: Vec::new(),
            note: Vec::new(),
        })
    } else {
        None
    }
}

fn append_tier(out: &mut String, heading: &str, entries: &Vec<String>, sep: &str)
    ensures
        final(out)@ == old(out)@ + tier_block(heading@, crate::markdown::string_views(entries@), sep@),
{
    if entries.len() == 0 {
        return;
    }
    out.append(heading);
    crate::wisdom::append_joined(out, entries, sep);
    out.append("\n\n");
}

/// Put the case owner's in-session reactions in front of a step prompt (see
/// `with_reactions`).
pub fn prepend_user_reactions(reactions_md: &str, prompt: String) -> (r: String)
    ensures
        r@ == with_reactions(reactions_md@, prompt@),
{
    let body = trim_vec(&chars_of(reactions_md));
    if body.len() == 0 {
        return prompt;
    }
    let ls = lines_vec(&body);
    let ghost lv = views(ls@);
    let mut cur: Option<Entry> = None;
    let mut t1: Vec<String> = Vec::new();
    let mut t2: Vec<String> = Vec::new();
    let mut t3: Vec<String> = Vec::new();
    proof {
        assert(crate::markdown::string_views(t1@) =~= Seq::<Seq<char>>::empty());
        assert(crate::markdown::string_views(t2@) =~= Seq::<Seq<char>>::empty());
        assert(crate::markdown::string_views(t3@) =~= Seq::<Seq<char>>::empty());
    }
    let mut i: usize = 0;
    while i < ls.len()
        invariant
            i <= ls@.len(),
            lv == views(ls@),
            lv == lines(body@),
            (entry_view(cur), (crate::markdown::string_views(t1@), crate::markdown::string_views(t2@), crate::markdown::string_views(t3@)))
                == reaction_fold(lv, i as int),
        decreases ls.len() - i,
    {
        assert(lv[i as int] == ls@[i as int]@);
        let line = &ls[i];
        match strip_prefix_str(line, "## ") {
            Some(h) => {
                let old_cur = cur;
                flush_exec(old_cur, &mut t1, &mut t2, &mut t3);
                cur = header_entry_exec(&h);
            },
            None => match strip_prefix_str(line, "**Snippet**: ") {
                Some(rest) => {
                    match cur {
                        Some(mut e) => {
                            e.snippet = trim_vec(&rest);
                            cur = Some(e);
                        },
                        None => {
                            cur = None;
                        },
                    }
                },
                None => match strip_prefix_str(line, "**Note**: ") {
                    Some(rest) => {
                        match cur {
                            Some(mut e) => {
                                e.note = trim_vec(&rest);
                                cur = Some(e);
                            },
                            None => {
                                cur = None;
                            },
                        }
                    },
                    None => {},
                },
            },
        }
        i = i + 1;
    }
    flush_exec(cur, &mut t1, &mut t2, &mut t3);
    let mut out = owned("## 案主共振信号（案主在前面步骤中亲自标记的重点）\n\n*按权重分级：带文字笔记 > 关键标记 > 重要标记。带笔记的 verbatim 引用，代表案主实际在想什么。*\n\n");
    if t1.len() == 0 && t2.len() == 0 && t3.len() == 0 {
        crate::text::append_chars(&mut out, &body);
        out.append("\n");
    } else {
        append_tier(&mut out, "### Tier-1 · 📝 带文字笔记（案主主动打字，最高权重信号）\n\n", &t1, "\n\n");
        append_tier(&mut out, "### Tier-2 · ❗ 标记为关键\n\n", &t2, "\n");
        append_tier(&mut out, "### Tier-3 · ⭐ 标记为重要\n\n", &t3, "\n");
    }
    out.append("请在生成下面内容时，优先照顾这些标记——特别是带文字笔记的，那是案主自己打字留下的反应，比任何通用分析都更能反映「这次对话真正撬动了什么」。\n\n---\n\n");
    out.append(prompt.as_str());
    out
}

} // verus!
