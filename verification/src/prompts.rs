//! Prompt templates for every step of a counsel session: fact gathering,
//! opinions, dimensions, debate, summary, pre-mortem, harvest, belief update,
//! facilitation, persona introductions and the freestyle mode.
//!
//! Each template is stated as a spec function over the argument texts; the
//! executable builders are proved to produce exactly that text.

use vstd::prelude::*;

use crate::text::{
    chars_of, contains, contains_str, decimal, find, find_exec, is_blank, lines, lines_vec, owned,
    push_decimal, slice_vec, starts_with, starts_with_str, string_of, take_chars, take_chars_vec,
    trim, trim_start_matches, trim_start_matches_str, trim_vec, views,
};
use crate::wisdom::{append_joined, join};
use crate::markdown::string_views;

verus! {

// ---------------------------------------------------------------------------
// Text helpers
// ---------------------------------------------------------------------------

/// `s.chars().take(n).collect::<String>()`.
fn take_str(s: &str, n: usize) -> (r: String)
    ensures
        r@ == take_chars(s@, n as int),
{
    string_of(&take_chars_vec(&chars_of(s), n))
}

/// `s.trim()` as an owned string.
fn trim_str(s: &str) -> (r: String)
    ensures
        r@ == trim(s@),
{
    string_of(&trim_vec(&chars_of(s)))
}

/// Whether `s.trim()` is empty.
fn blank(s: &str) -> (r: bool)
    ensures
        r == (trim(s@).len() == 0),
{
    is_blank(&chars_of(s))
}

// ---------------------------------------------------------------------------
// Persona name and summary
// ---------------------------------------------------------------------------

/// A line that can carry the persona's name: not a heading, not a rule, not
/// blank.
pub open spec fn is_name_line(l: Seq<char>) -> bool {
    !starts_with(l, "#"@) && !starts_with(l, "---"@) && trim(l).len() > 0
}

/// First line at or after `i` that can carry the persona's name.
pub open spec fn name_line_from(ls: Seq<Seq<char>>, i: int) -> Option<Seq<char>>
    decreases ls.len() - i,
{
    if i < 0 || i >= ls.len() {
        None
    } else if is_name_line(ls[i]) {
        Some(ls[i])
    } else {
        name_line_from(ls, i + 1)
    }
}

/// The persona name read from a rich prompt: its first plain line, trimmed,
/// without a leading "You are "; "Persona" when there is none.
pub open spec fn persona_name_in(rich_prompt: Seq<char>) -> Seq<char> {
    match name_line_from(lines(rich_prompt), 0) {
        Some(l) => trim(trim_start_matches(trim(l), "You are "@)),
        None => "Persona"@,
    }
}

fn is_name_line_exec(l: &[char]) -> (r: bool)
    ensures
        r == is_name_line(l@),
{
    !starts_with_str(l, "#") && !starts_with_str(l, "---") && !is_blank(l)
}

/// The persona name of a rich prompt (see `persona_name_in`).
pub fn persona_name_of(rich_prompt: &str) -> (r: String)
    ensures
        r@ == persona_name_in(rich_prompt@),
{
    let ls = lines_vec(&chars_of(rich_prompt));
    let ghost lv = views(ls@);
    let mut i: usize = 0;
    while i < ls.len()
        invariant
            i <= ls@.len(),
            lv == views(ls@),
            lv == lines(rich_prompt@),
            name_line_from(lv, i as int) == name_line_from(lv, 0),
        decreases ls.len() - i,
    {
        assert(lv[i as int] == ls@[i as int]@);
        if is_name_line_exec(&ls[i]) {
            let t = trim_vec(&ls[i]);
            let u = trim_start_matches_str(&t, "You are ");
            return string_of(&trim_vec(&u));
        }
        i = i + 1;
    }
    owned("Persona")
}

/// A line that can name the speaker of a follow-up: not empty, not a heading.
pub open spec fn is_speaker_line(l: Seq<char>) -> bool {
    l.len() > 0 && !starts_with(l, "#"@)
}

/// First line at or after `i` that can name the speaker of a follow-up.
pub open spec fn speaker_line_from(ls: Seq<Seq<char>>, i: int) -> Option<Seq<char>>
    decreases ls.len() - i,
{
    if i < 0 || i >= ls.len() {
        None
    } else if is_speaker_line(ls[i]) {
        Some(ls[i])
    } else {
        speaker_line_from(ls, i + 1)
    }
}

/// The speaker line of a follow-up prompt, or "某位幕僚".
pub open spec fn speaker_in(rich_prompt: Seq<char>) -> Seq<char> {
    match speaker_line_from(lines(rich_prompt), 0) {
        Some(l) => l,
        None => "某位幕僚"@,
    }
}

fn speaker_of(rich_prompt: &str) -> (r: String)
    ensures
        r@ == speaker_in(rich_prompt@),
{
    let ls = lines_vec(&chars_of(rich_prompt));
    let ghost lv = views(ls@);
    let mut i: usize = 0;
    while i < ls.len()
        invariant
            i <= ls@.len(),
            lv == views(ls@),
            lv == lines(rich_prompt@),
            speaker_line_from(lv, i as int) == speaker_line_from(lv, 0),
        decreases ls.len() - i,
    {
        assert(lv[i as int] == ls@[i as int]@);
        if ls[i].len() > 0 && !starts_with_str(&ls[i], "#") {
            return string_of(&ls[i]);
        }
        i = i + 1;
    }
    owned("某位幕僚")
}

/// The short persona summary placed at the end of persona prompts: the
/// name, then the first 300 characters of the rich prompt ("..." when cut).
pub open spec fn short_summary(rich_prompt: Seq<char>, persona_name: Seq<char>) -> Seq<char> {
    let essence = if rich_prompt.len() > 300 {
        rich_prompt.take(300) + "..."@
    } else {
        rich_prompt
    };
    "**Persona Essence**: "@ + persona_name + "\n\n"@ + essence
}

/// Short summary of a persona prompt (at most 300 characters of it).
pub fn extract_short_summary(rich_prompt: &str, persona_name: &str) -> (r: String)
    ensures
        r@ == short_summary(rich_prompt@, persona_name@),
{
    let cs = chars_of(rich_prompt);
    let mut r = owned("**Persona Essence**: ");
    r.append(persona_name);
    r.append("\n\n");
    if cs.len() > 300 {
        crate::text::append_chars(&mut r, &slice_vec(&cs, 0, 300));
        r.append("...");
    } else {
        r.append(rich_prompt);
    }
    r
}

// ---------------------------------------------------------------------------
// Terminology discipline
// ---------------------------------------------------------------------------

/// Which terminology discipline a persona gets, by its display name:
/// Chinese-native voices, the martial-arts voice, or (default) the
/// English-native startup voices.
pub open spec fn glossary_for(persona_name: Seq<char>) -> Seq<char> {
    if contains(persona_name, "毛泽东"@) || contains(persona_name, "慧能"@) || contains(
        persona_name,
        "Mao"@,
    ) || contains(persona_name, "Huineng"@) {
        chinese_native_glossary()
    } else if contains(persona_name, "李小龙"@) || contains(persona_name, "Bruce Lee"@) {
        martial_arts_glossary()
    } else {
        english_native_glossary()
    }
}

fn translation_glossary(persona_name: &str) -> (r: &'static str)
    ensures
        r@ == glossary_for(persona_name@),
{
    let p = chars_of(persona_name);
    if contains_str(&p, "毛泽东") || contains_str(&p, "慧能") || contains_str(&p, "Mao")
        || contains_str(&p, "Huineng") {
        "\n**语言纪律（严格遵守）**：\n- 你全程用中文。**不要使用任何英文创业术语**，包括但不限于：runway、default dead、default alive、schlep、PMF、MVP、YC、burn rate、traction、cap table、term sheet、product-market fit、ramen profitability。这些词从来不是你的语汇。\n- 如果案主的问题里出现这类英文术语，你要**用你自己的中式表达重新说一遍**。比如：\"runway\" 就说\"现金流能撑多久\"或\"家底还剩几个月\"；\"default dead\" 就说\"这条路注定走不通\"或\"不改法子就是死路一条\"；\"schlep\" 就说\"硬骨头活\"或\"没人愿意干的脏活\"；\"主动权\" 就说\"主动权\"，不要翻成 agency。\n- 保留你自己的术语原词：实事求是、根据地、持久战、矛盾论、矛盾的主要方面、统一战线、群众路线、调查研究、整风、从群众中来到群众中去。这些词是你的，别译成英文化表达。\n- 历史人物/地点：保留中文原名（蒋介石、博古、李德、井冈山、遵义、延安、赤水、长征）。\n- 西方人名/书名如果出现在案主的文字里：翻译成中文（比如 Paul Graham → 保罗·格雷厄姆、Y Combinator → Y 创业营）或直接避开不提——你是土生土长的中国人，没必要用英文字母。\n- 不要用反引号 ` 包裹任何词。所有术语以普通文本形式出现。\n"
    } else if contains_str(&p, "李小龙") || contains_str(&p, "Bruce Lee") {
        "\n**术语纪律（严格遵守）**：\n- 中文为主。武术术语保留原形：Jeet Kune Do / 截拳道、kung fu / 功夫、chi / 气。这些是你的语言。\n- **不要使用英文创业术语**（runway、default dead、PMF、MVP 等）。你不是商业顾问，你是武者/哲人——这些词不属于你。\n- 如果案主的问题里出现创业术语，用你自己的中式或武术语汇替换（比如 \"runway\" → \"还能撑几招\"；\"schlep\" → \"基本功的苦功\"）。\n- 人名：Bruce Lee / 李小龙、Ip Man / 叶问——沿用习惯写法即可。\n- 不要用反引号 ` 包裹任何词。\n"
    } else {
        "\n**术语翻译纪律（中文输出时严格遵守）**：\n- 比喻/金融/创业术语：当原词的字面直译会丢失比喻含义时，要么保留英文原词，要么用带解释的意译。禁止字面直译到\"跑道\"\"护城河\"这种让读者一头雾水的字面义。\n- 可以保留英文原词（夹在中文里，不要加反引号、不要加任何 markdown 代码标记）：runway、default alive、default dead、schlep、schlep blindness、ramen profitability、product-market fit、PMF、MVP、YC、burn rate、traction、cap table、term sheet。\n- 首次出现可加简短中文注解，如：runway（现金余额能撑的时间）。注解之外不要再给术语加特殊格式。\n- 已有通用中文翻译的保留中文：护城河（moat）、打样/打磨（prototyping）、飞轮（flywheel）。\n- 人名/书名：保留原文（Paul Graham、Y Combinator、Apple）。\n- 除非原文天然是代码/命令行/变量名，否则不要用反引号 ` 包裹任何词。所有术语以普通文本形式出现。\n"
    }
}

// ---------------------------------------------------------------------------
// Session context (Step 2)
// ---------------------------------------------------------------------------

/// Keep the last `n` characters, with a note saying so.
pub open spec fn cap_tail(s: Seq<char>, n: nat) -> Seq<char> {
    if s.len() <= n {
        s
    } else {
        "[上下文已截取，仅保留最近 "@ + decimal(n) + " 字]\n"@ + s.subrange(s.len() - n, s.len() as int)
    }
}

/// Keep the first `n` characters, with a note saying so.
pub open spec fn cap_head(s: Seq<char>, n: nat) -> Seq<char> {
    if s.len() <= n {
        s
    } else {
        s.take(n as int) + "\n[上下文已截取；完整版在文件中]"@
    }
}

/// The identity header of a user wiki (before the first "\n---"), capped.
pub open spec fn cap_wiki(s: Seq<char>, n: nat) -> Seq<char> {
    let head = match find(s, "\n---"@) {
        Some(k) => s.take(k),
        None => s,
    };
    cap_head(head, n)
}

fn cap_tail_chars(s: &str, n: u64) -> (r: String)
    ensures
        r@ == cap_tail(s@, n as nat),
{
    let cs = chars_of(s);
    if cs.len() as u64 <= n {
        return owned(s);
    }
    let skip = cs.len() - n as usize;
    let mut r = owned("[上下文已截取，仅保留最近 ");
    push_decimal(&mut r, n);
    r.append(" 字]\n");
    crate::text::append_chars(&mut r, &slice_vec(&cs, skip, cs.len()));
    r
}

fn cap_head_chars(s: &str, n: usize) -> (r: String)
    ensures
        r@ == cap_head(s@, n as nat),
{
    let cs = chars_of(s);
    if cs.len() <= n {
        return owned(s);
    }
    let mut r = string_of(&slice_vec(&cs, 0, n));
    r.append("\n[上下文已截取；完整版在文件中]");
    proof {
        assert(cs@.subrange(0, n as int) == cs@.take(n as int));
    }
    r
}

fn cap_user_wiki(s: &str, n: usize) -> (r: String)
    ensures
        r@ == cap_wiki(s@, n as nat),
{
    let cs = chars_of(s);
    let sep = chars_of("\n---");
    let head = match find_exec(&cs, &sep) {
        Some(k) => {
            proof {
                crate::text::lemma_find_from(cs@, sep@, 0);
            }
            assert(cs@.subrange(0, k as int) == cs@.take(k as int));
            slice_vec(&cs, 0, k)
        },
        None => {
            assert(cs@.subrange(0, cs@.len() as int) == cs@);
            slice_vec(&cs, 0, cs.len())
        },
    };
    cap_head_chars(string_of(&head).as_str(), n)
}

/// One optional context layer: nothing for a blank text, else its header
/// and the capped, trimmed text.
pub open spec fn context_layer(header: Seq<char>, text: Seq<char>, capped: Seq<char>) -> Seq<char> {
    if trim(text).len() == 0 {
        Seq::empty()
    } else {
        header + capped
    }
}

pub open spec fn beliefs_header() -> Seq<char> {
    "\n\n## 本项目的当前信念 Posterior（仅作连续性参考）\n*上次私董会在本项目更新的信念。不是今天要回答的问题，只是识别议题是否相关。*\n\n"@
}

pub open spec fn last_session_header() -> Seq<char> {
    "\n\n## 上一次 Session（仅作连续性参考）\n*如果今天的问题和上次话题无关，直接忽略这一段。*\n\n"@
}

pub open spec fn journal_header() -> Seq<char> {
    "\n\n## 行动执行日志（仅作承诺履行参考）\n*案主过去承诺后实际做了什么。今天的议题如果和哪条承诺相关，可以识别出来；不相关就忽略。*\n\n"@
}

pub open spec fn wiki_header() -> Seq<char> {
    "\n\n## 案主画像（仅作身份参考）\n*这是案主的长期身份/信念片段，不是今天要解决的问题。*\n\n"@
}

/// The "previous context" section of Step 2: beliefs (last 2000
/// characters), last session (first 3000), execution journal (last 2000)
/// and the user wiki's identity header (first 3000), each only when present.
pub open spec fn session_context(
    user_wiki: Seq<char>,
    last_session: Seq<char>,
    prior_beliefs: Seq<char>,
    execution_journal: Seq<char>,
) -> Seq<char> {
    context_layer(beliefs_header(), prior_beliefs, cap_tail(trim(prior_beliefs), 2000))
        + context_layer(last_session_header(), last_session, cap_head(trim(last_session), 3000))
        + context_layer(journal_header(), execution_journal, cap_tail(trim(execution_journal), 2000))
        + context_layer(wiki_header(), user_wiki, cap_wiki(trim(user_wiki), 3000))
}

fn build_session_context_section(
    user_wiki: &str,
    last_session: &str,
    prior_beliefs: &str,
    execution_journal: &str,
) -> (r: String)
    ensures
        r@ == session_context(user_wiki@, last_session@, prior_beliefs@, execution_journal@),
{
    let mut out = String::new();
    if !blank(prior_beliefs) {
        out.append("\n\n## 本项目的当前信念 Posterior（仅作连续性参考）\n*上次私董会在本项目更新的信念。不是今天要回答的问题，只是识别议题是否相关。*\n\n");
        out.append(cap_tail_chars(trim_str(prior_beliefs).as_str(), 2000).as_str());
    }
    let ghost o1 = out@;
    if !blank(last_session) {
        out.append("\n\n## 上一次 Session（仅作连续性参考）\n*如果今天的问题和上次话题无关，直接忽略这一段。*\n\n");
        out.append(cap_head_chars(trim_str(last_session).as_str(), 3000).as_str());
    }
    let ghost o2 = out@;
    if !blank(execution_journal) {
        out.append("\n\n## 行动执行日志（仅作承诺履行参考）\n*案主过去承诺后实际做了什么。今天的议题如果和哪条承诺相关，可以识别出来；不相关就忽略。*\n\n");
        out.append(cap_tail_chars(trim_str(execution_journal).as_str(), 2000).as_str());
    }
    let ghost o3 = out@;
    if !blank(user_wiki) {
        out.append("\n\n## 案主画像（仅作身份参考）\n*这是案主的长期身份/信念片段，不是今天要解决的问题。*\n\n");
        out.append(cap_user_wiki(trim_str(user_wiki).as_str(), 3000).as_str());
    }
    proof {
        assert(Seq::<char>::empty() + context_layer(
            beliefs_header(),
            prior_beliefs@,
            cap_tail(trim(prior_beliefs@), 2000),
        ) == o1);
    }
    out
}

// ---------------------------------------------------------------------------
// Fact-gathering angles
// ---------------------------------------------------------------------------

/// The twelve breadth-first angles handed out to fact-gathering advisors,
/// highest-value first.
pub open spec fn facts_angles() -> Seq<Seq<char>> {
    seq![
        "时间与紧迫性：这件事现在做、延后、还是错过窗口的代价差多少"@,
        "资源与能力：你手上有什么、需要什么、差距在哪"@,
        "利益相关方：谁会受影响、支持你、反对你、你欠谁交代"@,
        "身份与价值观：这件事跟你是谁、想成为谁的关系"@,
        "代价与可逆性：如果错了，撤回的成本有多大、多快"@,
        "相似经历：你过去有没有站在类似的岔口，当时怎么选的、结果如何"@,
        "信息完整性：你还没搞清楚、但决定非知道不可的关键事实是什么"@,
        "情绪与动力：真正推你前进的、真正拽你后腿的，分别是什么"@,
        "对手与竞争：市场上别人在做什么、领先/落后你多少"@,
        "下一步具体动作：假设明天就要走一步，你会走哪一步"@,
        "假设验证：你这个判断里最关键的假设是什么，怎么最小成本地验证"@,
        "长周期回看：3 年后你希望这是一个什么样的故事、最怕它变成什么样的故事"@,
    ]
}

/// The angle of the `i`-th advisor: the pool in order, wrapping after twelve.
pub fn angle_for_slot(i: usize) -> (r: &'static str)
    ensures
        r@ == facts_angles()[(i % 12) as int],
{
    let k = i % 12;
    if k == 0 {
        "时间与紧迫性：这件事现在做、延后、还是错过窗口的代价差多少"
    } else if k == 1 {
        "资源与能力：你手上有什么、需要什么、差距在哪"
    } else if k == 2 {
        "利益相关方：谁会受影响、支持你、反对你、你欠谁交代"
    } else if k == 3 {
        "身份与价值观：这件事跟你是谁、想成为谁的关系"
    } else if k == 4 {
        "代价与可逆性：如果错了，撤回的成本有多大、多快"
    } else if k == 5 {
        "相似经历：你过去有没有站在类似的岔口，当时怎么选的、结果如何"
    } else if k == 6 {
        "信息完整性：你还没搞清楚、但决定非知道不可的关键事实是什么"
    } else if k == 7 {
        "情绪与动力：真正推你前进的、真正拽你后腿的，分别是什么"
    } else if k == 8 {
        "对手与竞争：市场上别人在做什么、领先/落后你多少"
    } else if k == 9 {
        "下一步具体动作：假设明天就要走一步，你会走哪一步"
    } else if k == 10 {
        "假设验证：你这个判断里最关键的假设是什么，怎么最小成本地验证"
    } else {
        "长周期回看：3 年后你希望这是一个什么样的故事、最怕它变成什么样的故事"
    }
}

/// Up to twelve advisors each get their own angle: the angles of two
/// different slots below twelve differ.
pub proof fn lemma_angles_distinct(i: int, j: int)
    requires
        0 <= i < 12,
        0 <= j < 12,
        i != j,
    ensures
        facts_angles()[i] != facts_angles()[j],
{
    let a = facts_angles();
    reveal_strlit("时间与紧迫性：这件事现在做、延后、还是错过窗口的代价差多少");
    reveal_strlit("资源与能力：你手上有什么、需要什么、差距在哪");
    reveal_strlit("利益相关方：谁会受影响、支持你、反对你、你欠谁交代");
    reveal_strlit("身份与价值观：这件事跟你是谁、想成为谁的关系");
    reveal_strlit("代价与可逆性：如果错了，撤回的成本有多大、多快");
    reveal_strlit("相似经历：你过去有没有站在类似的岔口，当时怎么选的、结果如何");
    reveal_strlit("信息完整性：你还没搞清楚、但决定非知道不可的关键事实是什么");
    reveal_strlit("情绪与动力：真正推你前进的、真正拽你后腿的，分别是什么");
    reveal_strlit("对手与竞争：市场上别人在做什么、领先/落后你多少");
    reveal_strlit("下一步具体动作：假设明天就要走一步，你会走哪一步");
    reveal_strlit("假设验证：你这个判断里最关键的假设是什么，怎么最小成本地验证");
    reveal_strlit("长周期回看：3 年后你希望这是一个什么样的故事、最怕它变成什么样的故事");
    assert(a[i][0] != a[j][0]);
}

// ---------------------------------------------------------------------------
// Advisor roster for persona suggestions
// ---------------------------------------------------------------------------

pub open spec fn triple_views(v: Seq<(String, String, String)>) -> Seq<(Seq<char>, Seq<char>, Seq<char>)> {
    v.map_values(|t: (String, String, String)| (t.0@, t.1@, t.2@))
}

/// One roster line: slug, name, and the first 80 characters of the tagline.
pub open spec fn roster_line(t: (Seq<char>, Seq<char>, Seq<char>)) -> Seq<char> {
    "- slug=`"@ + t.0 + "` · "@ + t.1 + " — "@ + take_chars(t.2, 80)
}

/// The roster: one line per available advisor.
pub open spec fn roster(av: Seq<(Seq<char>, Seq<char>, Seq<char>)>) -> Seq<char> {
    join(Seq::new(av.len(), |i: int| roster_line(av[i])), "\n"@)
}

fn build_roster(available: &[(String, String, String)]) -> (r: String)
    ensures
        r@ == roster(triple_views(available@)),
{
    let ghost av = triple_views(available@);
    let mut parts: Vec<String> = Vec::new();
    let mut i: usize = 0;
    while i < available.len()
        invariant
            i <= available@.len(),
            av == triple_views(available@),
            parts@.len() == i,
            forall|j: int| 0 <= j < i ==> (#[trigger] parts@[j])@ == roster_line(av[j]),
        decreases available.len() - i,
    {
        let t = &available[i];
        assert(av[i as int] == (t.0@, t.1@, t.2@));
        let mut line = owned("- slug=`");
        line.append(t.0.as_str());
        line.append("` · ");
        line.append(t.1.as_str());
        line.append(" — ");
        line.append(take_str(t.2.as_str(), 80).as_str());
        parts.push(line);
        i = i + 1;
    }
    let mut r = String::new();
    append_joined(&mut r, &parts, "\n");
    proof {
        assert(string_views(parts@) =~= Seq::new(av.len(), |i: int| roster_line(av[i])));
        assert(Seq::<char>::empty() + roster(av) == roster(av));
    }
    r
}

pub open spec fn english_native_glossary() -> Seq<char> {
    "\n**术语翻译纪律（中文输出时严格遵守）**：\n- 比喻/金融/创业术语：当原词的字面直译会丢失比喻含义时，要么保留英文原词，要么用带解释的意译。禁止字面直译到\"跑道\"\"护城河\"这种让读者一头雾水的字面义。\n- 可以保留英文原词（夹在中文里，不要加反引号、不要加任何 markdown 代码标记）：runway、default alive、default dead、schlep、schlep blindness、ramen profitability、product-market fit、PMF、MVP、YC、burn rate、traction、cap table、term sheet。\n- 首次出现可加简短中文注解，如：runway（现金余额能撑的时间）。注解之外不要再给术语加特殊格式。\n- 已有通用中文翻译的保留中文：护城河（moat）、打样/打磨（prototyping）、飞轮（flywheel）。\n- 人名/书名：保留原文（Paul Graham、Y Combinator、Apple）。\n- 除非原文天然是代码/命令行/变量名，否则不要用反引号 ` 包裹任何词。所有术语以普通文本形式出现。\n"@
}

pub open spec fn chinese_native_glossary() -> Seq<char> {
    "\n**语言纪律（严格遵守）**：\n- 你全程用中文。**不要使用任何英文创业术语**，包括但不限于：runway、default dead、default alive、schlep、PMF、MVP、YC、burn rate、traction、cap table、term sheet、product-market fit、ramen profitability。这些词从来不是你的语汇。\n- 如果案主的问题里出现这类英文术语，你要**用你自己的中式表达重新说一遍**。比如：\"runway\" 就说\"现金流能撑多久\"或\"家底还剩几个月\"；\"default dead\" 就说\"这条路注定走不通\"或\"不改法子就是死路一条\"；\"schlep\" 就说\"硬骨头活\"或\"没人愿意干的脏活\"；\"主动权\" 就说\"主动权\"，不要翻成 agency。\n- 保留你自己的术语原词：实事求是、根据地、持久战、矛盾论、矛盾的主要方面、统一战线、群众路线、调查研究、整风、从群众中来到群众中去。这些词是你的，别译成英文化表达。\n- 历史人物/地点：保留中文原名（蒋介石、博古、李德、井冈山、遵义、延安、赤水、长征）。\n- 西方人名/书名如果出现在案主的文字里：翻译成中文（比如 Paul Graham → 保罗·格雷厄姆、Y Combinator → Y 创业营）或直接避开不提——你是土生土长的中国人，没必要用英文字母。\n- 不要用反引号 ` 包裹任何词。所有术语以普通文本形式出现。\n"@
}

pub open spec fn martial_arts_glossary() -> Seq<char> {
    "\n**术语纪律（严格遵守）**：\n- 中文为主。武术术语保留原形：Jeet Kune Do / 截拳道、kung fu / 功夫、chi / 气。这些是你的语言。\n- **不要使用英文创业术语**（runway、default dead、PMF、MVP 等）。你不是商业顾问，你是武者/哲人——这些词不属于你。\n- 如果案主的问题里出现创业术语，用你自己的中式或武术语汇替换（比如 \"runway\" → \"还能撑几招\"；\"schlep\" → \"基本功的苦功\"）。\n- 人名：Bruce Lee / 李小龙、Ip Man / 叶问——沿用习惯写法即可。\n- 不要用反引号 ` 包裹任何词。\n"@
}

/// The label an advisor is given in the plain opinions prompt.
pub open spec fn persona_label() -> Seq<char> {
    "a domain expert analyzing this topic from your unique perspective"@
}

/// Text of `facts_user_prompt`.
pub open spec fn facts_user_text(raw_input: Seq<char>, defined: Seq<char>, history_section: Seq<char>) -> Seq<char> {
    "## Your Situation\n"@ + raw_input + "\n\n## Locked Topic\n"@ + defined + history_section + "\n\n---\nYour only job: dig for facts.\n\nRules:\n- Ask only factual questions (verifiable data, timelines, people, actions, outcomes)\n- No commentary, no advice, no lecturing\n- 0–2 questions max — don't overdo it\n- Each question on its own line, start directly with \"你...\" or \"有没有...\" or \"是什么...\" (use natural Chinese question forms)\n- If the existing information is sufficient, output exactly \"N/A\" and nothing else\n\n**语言要求（重要）**：全程用中文提问，不要用英文。保留你的思维框架和人物特质，但用母语中文发问。"@
}

/// Prompt for an advisor to ask factual questions.
pub fn facts_user_prompt(raw_input: &str, defined: &str, history_section: &str) -> (r: String)
    ensures
        r@ == facts_user_text(raw_input@, defined@, history_section@),
{
    let mut r = owned("## Your Situation\n");
    r.append(raw_input);
    r.append("\n\n## Locked Topic\n");
    r.append(defined);
    r.append(history_section);
    r.append("\n\n---\nYour only job: dig for facts.\n\nRules:\n- Ask only factual questions (verifiable data, timelines, people, actions, outcomes)\n- No commentary, no advice, no lecturing\n- 0–2 questions max — don't overdo it\n- Each question on its own line, start directly with \"你...\" or \"有没有...\" or \"是什么...\" (use natural Chinese question forms)\n- If the existing information is sufficient, output exactly \"N/A\" and nothing else\n\n**语言要求（重要）**：全程用中文提问，不要用英文。保留你的思维框架和人物特质，但用母语中文发问。");
    r
}

/// Text of `facts_answer_prompt`.
pub open spec fn facts_answer_text(raw_input: Seq<char>, defined: Seq<char>, questions: Seq<char>) -> Seq<char> {
    "## Your Situation\n"@ + raw_input + "\n\n## Core Topic\n"@ + defined + "\n\n## Questions from Advisors\n"@ + questions + "\n\n---\nYou are being asked factual questions about your situation and plans. Answer each question based on what you know or have considered. If you don't have an answer, say \"I don't know\" or explain what you're uncertain about.\n\nAnswer each question directly and concisely (1-3 sentences each):"@
}

/// Prompt for the simulated case owner to answer factual questions.
pub fn facts_answer_prompt(raw_input: &str, defined: &str, questions: &str) -> (r: String)
    ensures
        r@ == facts_answer_text(raw_input@, defined@, questions@),
{
    let mut r = owned("## Your Situation\n");
    r.append(raw_input);
    r.append("\n\n## Core Topic\n");
    r.append(defined);
    r.append("\n\n## Questions from Advisors\n");
    r.append(questions);
    r.append("\n\n---\nYou are being asked factual questions about your situation and plans. Answer each question based on what you know or have considered. If you don't have an answer, say \"I don't know\" or explain what you're uncertain about.\n\nAnswer each question directly and concisely (1-3 sentences each):");
    r
}

/// Text of `opinions_prompt`.
pub open spec fn opinions_text(raw_input: Seq<char>, defined: Seq<char>, facts: Seq<char>) -> Seq<char> {
    "## The Situation\n"@ + raw_input + "\n\n## Core Topic\n"@ + defined + "\n\n## Facts Gathered\n"@ + facts + "\n\n---\nYou are "@ + persona_label() + ".\n\nFrom YOUR unique perspective and mental models, analyze this situation. Focus on:\n1. What you observe about the situation (analysis, not advice)\n2. How your experience/framework applies to understanding this\n3. What patterns, risks, or opportunities you see that others might miss\n\nDO NOT give advice or recommendations. Instead, share your distinct analytical perspective—what you SEE that others might not. Stay in character.\n\n**输出长度（铁律，不可违反）**：\n- **硬上限 300 个汉字**。这不是上限是目标 —— 你应该力求 200-280 字之间。\n- **不准说废话**。禁止：开场寒暄、回顾问题、感性铺垫、举多个例子、总结收尾段。\n- **不准列分支**：禁止「一方面...另一方面」「首先...其次...最后」这种 3-bullet 结构。**只给一个最锋利的判断**。\n- **不准引用自己**：禁止「我作为 X」「以我的经验」开头 —— 直接说观点。\n- 一句完整中文句子结尾。临近 270 字时立刻收尾，剩下的不写。\n- 案主只想看**你最锐的那一刀**。多一个字都是噪音。\n\n**语言要求**：全程中文。保留你的视角和比喻，但**不给冗长的论证**。"@
}

/// An advisor's analytical perspective on the situation (analysis, not advice).
pub fn opinions_prompt(raw_input: &str, defined: &str, facts: &str) -> (r: String)
    ensures
        r@ == opinions_text(raw_input@, defined@, facts@),
{
    let mut r = owned("## The Situation\n");
    r.append(raw_input);
    r.append("\n\n## Core Topic\n");
    r.append(defined);
    r.append("\n\n## Facts Gathered\n");
    r.append(facts);
    r.append("\n\n---\nYou are ");
    r.append("a domain expert analyzing this topic from your unique perspective");
    r.append(".\n\nFrom YOUR unique perspective and mental models, analyze this situation. Focus on:\n1. What you observe about the situation (analysis, not advice)\n2. How your experience/framework applies to understanding this\n3. What patterns, risks, or opportunities you see that others might miss\n\nDO NOT give advice or recommendations. Instead, share your distinct analytical perspective—what you SEE that others might not. Stay in character.\n\n**输出长度（铁律，不可违反）**：\n- **硬上限 300 个汉字**。这不是上限是目标 —— 你应该力求 200-280 字之间。\n- **不准说废话**。禁止：开场寒暄、回顾问题、感性铺垫、举多个例子、总结收尾段。\n- **不准列分支**：禁止「一方面...另一方面」「首先...其次...最后」这种 3-bullet 结构。**只给一个最锋利的判断**。\n- **不准引用自己**：禁止「我作为 X」「以我的经验」开头 —— 直接说观点。\n- 一句完整中文句子结尾。临近 270 字时立刻收尾，剩下的不写。\n- 案主只想看**你最锐的那一刀**。多一个字都是噪音。\n\n**语言要求**：全程中文。保留你的视角和比喻，但**不给冗长的论证**。");
    r
}

/// Text of `rich_persona_opinion_prompt`.
pub open spec fn rich_persona_opinion_text(rich_prompt: Seq<char>, raw_input: Seq<char>, defined: Seq<char>, facts: Seq<char>) -> Seq<char> {
    let persona_name = persona_name_in(rich_prompt);
    "## The Situation\n"@ + raw_input + "\n\n## Core Topic\n"@ + defined + "\n\n## Facts Gathered\n"@ + facts + "\n\n---\nFULL PERSONA DETAILS:\n\n"@ + rich_prompt + "\n\n---\nFrom YOUR unique perspective above, analyze this situation. Focus on:\n1. What you observe about the situation (analysis, not advice)\n2. How your experience/framework applies to understanding this\n3. What patterns, risks, or opportunities you see that others might miss\n\nDO NOT give advice or recommendations. Instead, share your distinct analytical perspective—what you SEE that others might not. Stay in character.\n\n**Quick Persona Summary ("@ + persona_name + "):**\n"@ + short_summary(rich_prompt, persona_name) + "\n\n**锚点纪律（与 Step 3 一致）**：\n- 引用自己的历史 / 经历 anchor 必须 **load-bearing**——直接照亮你正在分析的当前议题\n- 找不到能照亮当前议题的 anchor 就**直接抽象分析**——硬塞故事比不写更糟\n- **严禁用故事开头铺垫**（\"我当年...\" / \"我先讲一件事...\" 作为 opener）\n- 如果用 anchor，1 句即可（具体年份/地名/人物 + 一句关联），**不要长篇展开**\n\n**输出长度（铁律，不可违反）**：\n- **硬上限 300 个汉字**。目标 200-280 字。多一个字都是噪音。\n- **禁止**：开场寒暄、回顾问题、感性铺垫、多例堆砌、总结收尾段。\n- **禁止 3-bullet 分支**：不要「一方面...另一方面」「首先...其次...最后」。只给一个最锋利的判断。\n- **禁止自我介绍**：不要「我作为 X」「以我的经验」开头 —— 直接说观点。\n- 一句完整中文句子结尾。临近 270 字立刻收尾。\n- 案主只想看**你最锐的那一刀**。\n\n**语言要求**：全程中文。不夹英文段落（专有名词除外）。\n"@ + glossary_for(persona_name)
}

/// An advisor's analytical perspective, from its full rich prompt.
pub fn rich_persona_opinion_prompt(rich_prompt: &str, raw_input: &str, defined: &str, facts: &str) -> (r: String)
    ensures
        r@ == rich_persona_opinion_text(rich_prompt@, raw_input@, defined@, facts@),
{
    let persona_name = persona_name_of(rich_prompt);
    let summary = extract_short_summary(rich_prompt, persona_name.as_str());
    let glossary = translation_glossary(persona_name.as_str());
    let mut r = owned("## The Situation\n");
    r.append(raw_input);
    r.append("\n\n## Core Topic\n");
    r.append(defined);
    r.append("\n\n## Facts Gathered\n");
    r.append(facts);
    r.append("\n\n---\nFULL PERSONA DETAILS:\n\n");
    r.append(rich_prompt);
    r.append("\n\n---\nFrom YOUR unique perspective above, analyze this situation. Focus on:\n1. What you observe about the situation (analysis, not advice)\n2. How your experience/framework applies to understanding this\n3. What patterns, risks, or opportunities you see that others might miss\n\nDO NOT give advice or recommendations. Instead, share your distinct analytical perspective—what you SEE that others might not. Stay in character.\n\n**Quick Persona Summary (");
    r.append(persona_name.as_str());
    r.append("):**\n");
    r.append(summary.as_str());
    r.append("\n\n**锚点纪律（与 Step 3 一致）**：\n- 引用自己的历史 / 经历 anchor 必须 **load-bearing**——直接照亮你正在分析的当前议题\n- 找不到能照亮当前议题的 anchor 就**直接抽象分析**——硬塞故事比不写更糟\n- **严禁用故事开头铺垫**（\"我当年...\" / \"我先讲一件事...\" 作为 opener）\n- 如果用 anchor，1 句即可（具体年份/地名/人物 + 一句关联），**不要长篇展开**\n\n**输出长度（铁律，不可违反）**：\n- **硬上限 300 个汉字**。目标 200-280 字。多一个字都是噪音。\n- **禁止**：开场寒暄、回顾问题、感性铺垫、多例堆砌、总结收尾段。\n- **禁止 3-bullet 分支**：不要「一方面...另一方面」「首先...其次...最后」。只给一个最锋利的判断。\n- **禁止自我介绍**：不要「我作为 X」「以我的经验」开头 —— 直接说观点。\n- 一句完整中文句子结尾。临近 270 字立刻收尾。\n- 案主只想看**你最锐的那一刀**。\n\n**语言要求**：全程中文。不夹英文段落（专有名词除外）。\n");
    r.append(glossary);
    r
}

/// Text of `rich_persona_debate_prompt`.
pub open spec fn rich_persona_debate_text(rich_prompt: Seq<char>, defined: Seq<char>, facts: Seq<char>, dim: Seq<char>) -> Seq<char> {
    let persona_name = persona_name_in(rich_prompt);
    "## Topic\n"@ + defined + "\n\n## Facts Gathered\n"@ + facts + "\n\n## Current Debate Dimension\n"@ + dim + "\n\n---\nFULL PERSONA DETAILS:\n\n"@ + rich_prompt + "\n\n---\n**Quick Persona Summary ("@ + persona_name + "):**\n"@ + short_summary(rich_prompt, persona_name) + "\n\n---\n在 \""@ + dim + "\" 这个维度上，选一个清晰立场并为其辩护。150 字以内，直接、保持你的人物特性。\n\n**锚点纪律（与 Step 3 一致）**：\n- 引用自己的历史 / 经历 anchor 必须 **load-bearing**——直接照亮你这一立场的逻辑\n- 找不到能照亮的 anchor 就**直接论证**——硬塞故事比不写更糟\n- **严禁用故事开头铺垫**——立场必须先出，故事最多在最后 1 句作支撑\n- 如果用 anchor，1 句即可（具体年份/地名/人物 + 一句关联），不要长篇展开\n\n**输出格式（严格遵守）** — 第一行必须且仅能是下列之一（这一行上不要加任何其他内容）：\n\n立场：正方\n立场：反方\n立场：中立\n\n然后空一行，接着是你 150 字的论述。\"正方\"= 支持正在辩论的主张；\"反方\"= 反对；\"中立\"= 你真正看到两边都有道理。不要为了圆滑而选中立——真正的私董会需要锐利的立场。\n\nIMPORTANT: 如果这个维度确实超出你的专长，只输出 \"SKIP\" 一个词，什么都不要加。\n\n**语言要求（重要）**：全程用中文输出（包括首行的\"立场：...\"）。保留你的思维框架和比喻节奏，但用中文表达。\n"@ + glossary_for(persona_name)
}

/// Debate position on one dimension, from the advisor's full rich prompt.
pub fn rich_persona_debate_prompt(rich_prompt: &str, defined: &str, facts: &str, dim: &str) -> (r: String)
    ensures
        r@ == rich_persona_debate_text(rich_prompt@, defined@, facts@, dim@),
{
    let persona_name = persona_name_of(rich_prompt);
    let summary = extract_short_summary(rich_prompt, persona_name.as_str());
    let glossary = translation_glossary(persona_name.as_str());
    let mut r = owned("## Topic\n");
    r.append(defined);
    r.append("\n\n## Facts Gathered\n");
    r.append(facts);
    r.append("\n\n## Current Debate Dimension\n");
    r.append(dim);
    r.append("\n\n---\nFULL PERSONA DETAILS:\n\n");
    r.append(rich_prompt);
    r.append("\n\n---\n**Quick Persona Summary (");
    r.append(persona_name.as_str());
    r.append("):**\n");
    r.append(summary.as_str());
    r.append("\n\n---\n在 \"");
    r.append(dim);
    r.append("\" 这个维度上，选一个清晰立场并为其辩护。150 字以内，直接、保持你的人物特性。\n\n**锚点纪律（与 Step 3 一致）**：\n- 引用自己的历史 / 经历 anchor 必须 **load-bearing**——直接照亮你这一立场的逻辑\n- 找不到能照亮的 anchor 就**直接论证**——硬塞故事比不写更糟\n- **严禁用故事开头铺垫**——立场必须先出，故事最多在最后 1 句作支撑\n- 如果用 anchor，1 句即可（具体年份/地名/人物 + 一句关联），不要长篇展开\n\n**输出格式（严格遵守）** — 第一行必须且仅能是下列之一（这一行上不要加任何其他内容）：\n\n立场：正方\n立场：反方\n立场：中立\n\n然后空一行，接着是你 150 字的论述。\"正方\"= 支持正在辩论的主张；\"反方\"= 反对；\"中立\"= 你真正看到两边都有道理。不要为了圆滑而选中立——真正的私董会需要锐利的立场。\n\nIMPORTANT: 如果这个维度确实超出你的专长，只输出 \"SKIP\" 一个词，什么都不要加。\n\n**语言要求（重要）**：全程用中文输出（包括首行的\"立场：...\"）。保留你的思维框架和比喻节奏，但用中文表达。\n");
    r.append(glossary);
    r
}

/// Text of `dimensions_prompt`.
pub open spec fn dimensions_text(opinions_text: Seq<char>) -> Seq<char> {
    "以下是幕僚们对案主议题的独立发言：\n\n"@ + opinions_text + "\n\n---\n请从这些发言中提炼 2–4 个**真正不可调和的冲突维度**。\n\n**什么是真正的冲突**：不是语气差异，而是对核心判断的实质性分歧——比如对时机、外部资源的信任度、短期生存 vs 长期愿景、风险承受度的根本不同看法。即使幕僚们大方向一致，他们也可能在**怎么做**、**取舍什么**、**优先什么**上真正分歧——这些也算。\n\n**输出格式**（每个维度）：\n## 维度名称\n核心冲突：（一句话描述该维度上的根本分歧）\n分歧要点：（各方的核心立场是什么）\n\n要求：\n- 必须输出 2–4 个维度，不少于 2 个\n- 每个维度是所有幕僚共同探索的主题——不要事先给幕僚分正反阵营\n- 维度之间不能重叠\n- 只输出维度列表，不要额外评论\n- 如果幕僚们高度一致、没有真正冲突，输出单一区块：## 一致共识\n（解释共同观点）\n- **全程用中文输出**"@
}

/// Prompt to distil 2–4 irreconcilable conflict dimensions from the opinions.
pub fn dimensions_prompt(opinions_text: &str) -> (r: String)
    ensures
        r@ == dimensions_text(opinions_text@),
{
    let mut r = owned("以下是幕僚们对案主议题的独立发言：\n\n");
    r.append(opinions_text);
    r.append("\n\n---\n请从这些发言中提炼 2–4 个**真正不可调和的冲突维度**。\n\n**什么是真正的冲突**：不是语气差异，而是对核心判断的实质性分歧——比如对时机、外部资源的信任度、短期生存 vs 长期愿景、风险承受度的根本不同看法。即使幕僚们大方向一致，他们也可能在**怎么做**、**取舍什么**、**优先什么**上真正分歧——这些也算。\n\n**输出格式**（每个维度）：\n## 维度名称\n核心冲突：（一句话描述该维度上的根本分歧）\n分歧要点：（各方的核心立场是什么）\n\n要求：\n- 必须输出 2–4 个维度，不少于 2 个\n- 每个维度是所有幕僚共同探索的主题——不要事先给幕僚分正反阵营\n- 维度之间不能重叠\n- 只输出维度列表，不要额外评论\n- 如果幕僚们高度一致、没有真正冲突，输出单一区块：## 一致共识\n（解释共同观点）\n- **全程用中文输出**");
    r
}

/// Text of `debate_persona_prompt`.
pub open spec fn debate_persona_text(defined: Seq<char>, facts: Seq<char>, dim: Seq<char>) -> Seq<char> {
    "## Topic\n"@ + defined + "\n\n## Facts Gathered\n"@ + facts + "\n\n## Current Debate Dimension\n"@ + dim + "\n\n---\n在 \""@ + dim + "\" 这个维度上，选一个清晰立场并为其辩护。150 字以内，直接、保持你的人物特性。\n\n**锚点纪律（与 Step 3 一致）**：\n- 引用自己的历史 / 经历 anchor 必须 **load-bearing**——直接照亮你这一立场的逻辑\n- 找不到能照亮的 anchor 就**直接论证**——硬塞故事比不写更糟\n- **严禁用故事开头铺垫**——立场必须先出，故事最多在最后 1 句作支撑\n- 如果用 anchor，1 句即可（具体年份/地名/人物 + 一句关联），不要长篇展开\n\n**输出格式（严格遵守）** — 第一行必须且仅能是下列之一（这一行上不要加任何其他内容）：\n\n立场：正方\n立场：反方\n立场：中立\n\n然后空一行，接着是你 150 字的论述。\"正方\"= 支持正在辩论的主张；\"反方\"= 反对；\"中立\"= 你真正看到两边都有道理。不要为了圆滑而选中立——真正的私董会需要锐利的立场。\n\nIMPORTANT: 如果这个维度确实超出你的专长，只输出 \"SKIP\" 一个词，什么都不要加。\n\n**语言要求（重要）**：全程用中文输出（包括首行的\"立场：...\"）。"@
}

/// Round 1 of a debate: take and defend a position on one dimension.
pub fn debate_persona_prompt(defined: &str, facts: &str, dim: &str) -> (r: String)
    ensures
        r@ == debate_persona_text(defined@, facts@, dim@),
{
    let mut r = owned("## Topic\n");
    r.append(defined);
    r.append("\n\n## Facts Gathered\n");
    r.append(facts);
    r.append("\n\n## Current Debate Dimension\n");
    r.append(dim);
    r.append("\n\n---\n在 \"");
    r.append(dim);
    r.append("\" 这个维度上，选一个清晰立场并为其辩护。150 字以内，直接、保持你的人物特性。\n\n**锚点纪律（与 Step 3 一致）**：\n- 引用自己的历史 / 经历 anchor 必须 **load-bearing**——直接照亮你这一立场的逻辑\n- 找不到能照亮的 anchor 就**直接论证**——硬塞故事比不写更糟\n- **严禁用故事开头铺垫**——立场必须先出，故事最多在最后 1 句作支撑\n- 如果用 anchor，1 句即可（具体年份/地名/人物 + 一句关联），不要长篇展开\n\n**输出格式（严格遵守）** — 第一行必须且仅能是下列之一（这一行上不要加任何其他内容）：\n\n立场：正方\n立场：反方\n立场：中立\n\n然后空一行，接着是你 150 字的论述。\"正方\"= 支持正在辩论的主张；\"反方\"= 反对；\"中立\"= 你真正看到两边都有道理。不要为了圆滑而选中立——真正的私董会需要锐利的立场。\n\nIMPORTANT: 如果这个维度确实超出你的专长，只输出 \"SKIP\" 一个词，什么都不要加。\n\n**语言要求（重要）**：全程用中文输出（包括首行的\"立场：...\"）。");
    r
}

/// Text of `debate_middle_react_prompt`.
pub open spec fn debate_middle_react_text(defined: Seq<char>, facts: Seq<char>, dim: Seq<char>, pro_con_positions: Seq<char>) -> Seq<char> {
    "## Topic\n"@ + defined + "\n\n## Facts Gathered\n"@ + facts + "\n\n## Debate Dimension\n"@ + dim + "\n\n## 其他幕僚的正方与反方立场\n"@ + pro_con_positions + "\n\n---\n\n作为立场居中的幕僚，你已经看到上面的正反方观点。现在分享你的视角：\n\n1. 你观察到这些观点之间的核心张力是什么？\n2. 你能提供什么能衔接正反方的 nuance 或视角？\n3. 双方可能遗漏了什么，或过度强调了什么？\n\n你不是在选边——你是在提供一种综合或第三条路。\n\nIMPORTANT: 如果这个维度确实超出你的专长，只输出 \"SKIP\" 一个词，什么都不要加。\n\n150 字以内，分析性、给出衔接性视角。\n\n**语言要求（重要）**：全程用中文输出。术语统一——幕僚（不用\"顾问\"）、案主（不用\"用户\"/\"客户\"）。保留你的分析视角和思维节奏，但用中文表达。"@
}

/// Middle-ground advisors react to the pro and con positions.
pub fn debate_middle_react_prompt(defined: &str, facts: &str, dim: &str, pro_con_positions: &str) -> (r: String)
    ensures
        r@ == debate_middle_react_text(defined@, facts@, dim@, pro_con_positions@),
{
    let mut r = owned("## Topic\n");
    r.append(defined);
    r.append("\n\n## Facts Gathered\n");
    r.append(facts);
    r.append("\n\n## Debate Dimension\n");
    r.append(dim);
    r.append("\n\n## 其他幕僚的正方与反方立场\n");
    r.append(pro_con_positions);
    r.append("\n\n---\n\n作为立场居中的幕僚，你已经看到上面的正反方观点。现在分享你的视角：\n\n1. 你观察到这些观点之间的核心张力是什么？\n2. 你能提供什么能衔接正反方的 nuance 或视角？\n3. 双方可能遗漏了什么，或过度强调了什么？\n\n你不是在选边——你是在提供一种综合或第三条路。\n\nIMPORTANT: 如果这个维度确实超出你的专长，只输出 \"SKIP\" 一个词，什么都不要加。\n\n150 字以内，分析性、给出衔接性视角。\n\n**语言要求（重要）**：全程用中文输出。术语统一——幕僚（不用\"顾问\"）、案主（不用\"用户\"/\"客户\"）。保留你的分析视角和思维节奏，但用中文表达。");
    r
}

/// Text of `debate_facilitator_prompt`.
pub open spec fn debate_facilitator_text(dim: Seq<char>, all_positions: Seq<char>) -> Seq<char> {
    "以下是幕僚们在维度 \""@ + dim + "\" 上的发言：\n\n"@ + all_positions + "\n\n---\n提炼本维度的核心冲突：\n**核心矛盾**：（一句话）\n**正方论点**：（一句话）\n**反方论点**：（一句话）\n\n**关键洞察**：这次辩论揭示了什么之前看不到的东西？\n\n**语言要求**：全程用中文输出，术语统一：幕僚（不要用\"顾问\"）、案主（不要用\"用户\"/\"客户\"）。"@
}

/// Facilitator synthesis of one debate dimension.
pub fn debate_facilitator_prompt(dim: &str, all_positions: &str) -> (r: String)
    ensures
        r@ == debate_facilitator_text(dim@, all_positions@),
{
    let mut r = owned("以下是幕僚们在维度 \"");
    r.append(dim);
    r.append("\" 上的发言：\n\n");
    r.append(all_positions);
    r.append("\n\n---\n提炼本维度的核心冲突：\n**核心矛盾**：（一句话）\n**正方论点**：（一句话）\n**反方论点**：（一句话）\n\n**关键洞察**：这次辩论揭示了什么之前看不到的东西？\n\n**语言要求**：全程用中文输出，术语统一：幕僚（不要用\"顾问\"）、案主（不要用\"用户\"/\"客户\"）。");
    r
}

/// Text of `debate_round1_synthesis_prompt`.
pub open spec fn debate_round1_synthesis_text(dim: Seq<char>, round1: Seq<char>, middle: Seq<char>) -> Seq<char> {
    "## 维度：\""@ + dim + "\"\n\n### 第一轮立场：\n"@ + round1 + "\n\n### 中立方的补充：\n"@ + middle + "\n\n---\n提炼幕僚们在本维度上的辩论：\n**核心矛盾**：（一句话描述根本分歧）\n**关键洞察**：（这次辩论揭示了什么之前看不到的东西？）\n**共同地带**：（幕僚们在哪里达成共识？）\n**未解张力**：（还有哪些根本分歧未解决？）\n\n**语言要求**：全程用中文输出，术语统一——幕僚（不要用\"顾问\"）、案主（不要用\"用户\"/\"客户\"）。"@
}

/// Facilitator synthesis of round one and the middle-ground responses.
pub fn debate_round1_synthesis_prompt(dim: &str, round1: &str, middle: &str) -> (r: String)
    ensures
        r@ == debate_round1_synthesis_text(dim@, round1@, middle@),
{
    let mut r = owned("## 维度：\"");
    r.append(dim);
    r.append("\"\n\n### 第一轮立场：\n");
    r.append(round1);
    r.append("\n\n### 中立方的补充：\n");
    r.append(middle);
    r.append("\n\n---\n提炼幕僚们在本维度上的辩论：\n**核心矛盾**：（一句话描述根本分歧）\n**关键洞察**：（这次辩论揭示了什么之前看不到的东西？）\n**共同地带**：（幕僚们在哪里达成共识？）\n**未解张力**：（还有哪些根本分歧未解决？）\n\n**语言要求**：全程用中文输出，术语统一——幕僚（不要用\"顾问\"）、案主（不要用\"用户\"/\"客户\"）。");
    r
}

/// Text of `summary_prompt`.
pub open spec fn summary_text(raw_input: Seq<char>, defined: Seq<char>, facts: Seq<char>, debate: Seq<char>, premortem: Seq<char>) -> Seq<char> {
    let pre = if trim(premortem).len() == 0 { Seq::empty() } else { "\n## 事前演练（Step 6.5 · 一年后失败假想）\n"@ + premortem + "\n\n事前演练识别了最可能的失败路径。把这些风险织入你的最终整合——不要绕开，要整合它们，让案主看到道路同时也看到阴影。\n"@ };
    "## 案主的原始困境\n"@ + raw_input + "\n\n## 锁定的议题\n"@ + defined + "\n\n## 已挖掘的事实\n"@ + facts + "\n\n## 辩论记录\n"@ + debate + "\n"@ + pre + "\n---\n**结论先行 + bullet-first（2026-04-25 改版）**：废话压缩到底，让案主 30 秒读完。\n\n格式要求（严格遵守）：\n\n**结论：** 一句话整合，≤40 字，必须可执行或可决策。\n\n## 共识\n- 至多 3 条，每条 ≤30 字。直接陈述，不说理由。\n\n## 分歧\n- 至多 3 条，每条 ≤30 字。格式：「{阵营A} vs {阵营B}：{分歧点}」\n\n## 张力\n- 至多 2 条，每条 ≤30 字。指出无解的取舍。\n\n## 下一步\n- 至多 3 条，每条 ≤30 字，动词开头。\n\n**硬性约束**：\n- **不要**写完整段落、铺垫、过渡句（结论卡部分）\n- **不要**重复辩论原话——只提炼\n- 结论卡部分（结论 + 4 sections）总字数控制在 **350 字以内**\n- 如有事前演练警示，并入「张力」或「下一步」一条 bullet，不另起 section\n- 全程用中文，术语统一（幕僚 / 案主）\n\n---\n\n**Mode B · 详细分析（可选展开层）**：\n\n在结论卡之后，**必须**单独追加一个 `## 详细分析` section（≤400 字），用散文写：\n\n- 把 4 个 bullet section 中**最不显眼、但最关键**的关联点串起来\n- 指出案主可能漏看的「为什么这几条 bullet 一起出现」的隐含信号\n- 用主持人的视角说一段「如果我是你，我下一周会先盯哪个 bullet 跑」\n- 不要重复 bullet 的内容，要给 bullet **没说出来的语义**\n\n**重要**：这一段会被前端默认折叠（`<details>` 形式），案主点击展开才看。所以可以多说一点深度，但仍然要简明扼要——是「为想看的人提供深度」，不是「为长度堆字数」。"@
}

/// Final synthesis: conclusion card, then a detailed analysis; the pre-mortem is woven in when present.
pub fn summary_prompt(raw_input: &str, defined: &str, facts: &str, debate: &str, premortem: &str) -> (r: String)
    ensures
        r@ == summary_text(raw_input@, defined@, facts@, debate@, premortem@),
{
    let pre = if blank(premortem) { String::new() } else { let mut p = owned("\n## 事前演练（Step 6.5 · 一年后失败假想）\n"); p.append(premortem); p.append("\n\n事前演练识别了最可能的失败路径。把这些风险织入你的最终整合——不要绕开，要整合它们，让案主看到道路同时也看到阴影。\n"); p };
    let mut r = owned("## 案主的原始困境\n");
    r.append(raw_input);
    r.append("\n\n## 锁定的议题\n");
    r.append(defined);
    r.append("\n\n## 已挖掘的事实\n");
    r.append(facts);
    r.append("\n\n## 辩论记录\n");
    r.append(debate);
    r.append("\n");
    r.append(pre.as_str());
    r.append("\n---\n**结论先行 + bullet-first（2026-04-25 改版）**：废话压缩到底，让案主 30 秒读完。\n\n格式要求（严格遵守）：\n\n**结论：** 一句话整合，≤40 字，必须可执行或可决策。\n\n## 共识\n- 至多 3 条，每条 ≤30 字。直接陈述，不说理由。\n\n## 分歧\n- 至多 3 条，每条 ≤30 字。格式：「{阵营A} vs {阵营B}：{分歧点}」\n\n## 张力\n- 至多 2 条，每条 ≤30 字。指出无解的取舍。\n\n## 下一步\n- 至多 3 条，每条 ≤30 字，动词开头。\n\n**硬性约束**：\n- **不要**写完整段落、铺垫、过渡句（结论卡部分）\n- **不要**重复辩论原话——只提炼\n- 结论卡部分（结论 + 4 sections）总字数控制在 **350 字以内**\n- 如有事前演练警示，并入「张力」或「下一步」一条 bullet，不另起 section\n- 全程用中文，术语统一（幕僚 / 案主）\n\n---\n\n**Mode B · 详细分析（可选展开层）**：\n\n在结论卡之后，**必须**单独追加一个 `## 详细分析` section（≤400 字），用散文写：\n\n- 把 4 个 bullet section 中**最不显眼、但最关键**的关联点串起来\n- 指出案主可能漏看的「为什么这几条 bullet 一起出现」的隐含信号\n- 用主持人的视角说一段「如果我是你，我下一周会先盯哪个 bullet 跑」\n- 不要重复 bullet 的内容，要给 bullet **没说出来的语义**\n\n**重要**：这一段会被前端默认折叠（`<details>` 形式），案主点击展开才看。所以可以多说一点深度，但仍然要简明扼要——是「为想看的人提供深度」，不是「为长度堆字数」。");
    r
}

/// Text of `premortem_prompt`.
pub open spec fn premortem_text(raw_input: Seq<char>, defined: Seq<char>, debate: Seq<char>) -> Seq<char> {
    "## 案主的原始困境\n"@ + raw_input + "\n\n## 锁定的议题\n"@ + defined + "\n\n## 幕僚辩论记录\n"@ + debate + "\n\n---\n你是参谋长。现在做一次 Pre-Mortem（事前验尸）。\n\n**情景假设**：今天是一年之后。案主按照这次私董会的方向做了决定——但**失败了**。不是小挫折，是实质性的失败：或许决策方向错了，或许执行崩盘了，或许某个被忽略的风险引爆了。\n\n**你的任务**：站在一年后的视角，**讲这个失败的故事**。不是责怪，不是说教——是侦探式的复盘。\n\n输出结构（铁律：紧凑，不堆砌）：\n\n## 失败的表象\n一句话：一年后看，失败具体长什么样？（≤30 字）\n\n## 2 条最可能的失败路径\n1. **[路径名]**：1-2 句，具体到事件触发 + 怎么发酵。\n2. **[路径名]**：1-2 句。\n\n## 辩论遗漏的盲区\n2 条，每条一句话即可。\n\n## 早期预警信号\n3 条 bullet，每条 ≤15 字。\n\n**铁律（不可违反）**：\n- **整个输出 ≤ 500 个汉字**。这不是建议是硬约束。\n- 失败路径只给 2 条（不是 3 条），盲区 2 条（不是 3 条）。够锐就行，不堆砌。\n- **禁止开场寒暄**（\"好，让我...\" / \"现在我作为...\"）—— 直接进入小节内容。\n- **禁止泛泛**（\"市场可能变化\" \"竞争加剧\"）—— 必须具体到事件 + 动作。\n- 全程中文。点到为止比穷举更有力。"@
}

/// Pre-mortem: the story of how the decision failed a year from now.
pub fn premortem_prompt(raw_input: &str, defined: &str, debate: &str) -> (r: String)
    ensures
        r@ == premortem_text(raw_input@, defined@, debate@),
{
    let mut r = owned("## 案主的原始困境\n");
    r.append(raw_input);
    r.append("\n\n## 锁定的议题\n");
    r.append(defined);
    r.append("\n\n## 幕僚辩论记录\n");
    r.append(debate);
    r.append("\n\n---\n你是参谋长。现在做一次 Pre-Mortem（事前验尸）。\n\n**情景假设**：今天是一年之后。案主按照这次私董会的方向做了决定——但**失败了**。不是小挫折，是实质性的失败：或许决策方向错了，或许执行崩盘了，或许某个被忽略的风险引爆了。\n\n**你的任务**：站在一年后的视角，**讲这个失败的故事**。不是责怪，不是说教——是侦探式的复盘。\n\n输出结构（铁律：紧凑，不堆砌）：\n\n## 失败的表象\n一句话：一年后看，失败具体长什么样？（≤30 字）\n\n## 2 条最可能的失败路径\n1. **[路径名]**：1-2 句，具体到事件触发 + 怎么发酵。\n2. **[路径名]**：1-2 句。\n\n## 辩论遗漏的盲区\n2 条，每条一句话即可。\n\n## 早期预警信号\n3 条 bullet，每条 ≤15 字。\n\n**铁律（不可违反）**：\n- **整个输出 ≤ 500 个汉字**。这不是建议是硬约束。\n- 失败路径只给 2 条（不是 3 条），盲区 2 条（不是 3 条）。够锐就行，不堆砌。\n- **禁止开场寒暄**（\"好，让我...\" / \"现在我作为...\"）—— 直接进入小节内容。\n- **禁止泛泛**（\"市场可能变化\" \"竞争加剧\"）—— 必须具体到事件 + 动作。\n- 全程中文。点到为止比穷举更有力。");
    r
}

/// Text of `harvest_eval_prompt`.
pub open spec fn harvest_eval_text(persona_name: Seq<char>, rich_prompt: Seq<char>, raw_input: Seq<char>, summary: Seq<char>, client_notes: Seq<char>) -> Seq<char> {
    let client = if trim(client_notes).len() == 0 { Seq::empty() } else { "\n## 案主自己的反思（他/她说自己学到了什么）\n"@ + client_notes + "\n\n把这段当信号用：案主看到了你看到的吗？他/她哪里缺失、误读、或者看准了？\n"@ };
    "## 当前议题\n"@ + raw_input + "\n\n## 会议汇总\n"@ + summary + "\n"@ + client + "\n---\n你的完整人物资料：\n\n"@ + rich_prompt + "\n\n---\n\n从你的视角给出直接评价 + actionable 建议。**结论先行**：\n\n格式（严格遵守）：\n\n**[你的名字]的评价：** 第一句话就是你给案主的最终判断（≤30 字，可断言或可警告）。\n\n然后用 **3 个 bullet** 展开：\n- **洞察**：你看到的核心命题或隐患（≤30 字）\n- **观察**：案主哪里看准、哪里误判（特别对照\"案主自己的反思\"，≤30 字）\n- **建议行动**：「[动词][宾语]」+ 一句话 why（≤40 字）。**必须以动词开头**（做/写/见/停/砍/找/约/测/学/砍掉/搁置 等），给案主一个具体可执行的下一步。**严禁**：\"深思 X\" / \"考虑 X\" / \"反思 X\" 这种 reflection-only 词——你是幕僚，不是观察员；你的工作是告诉案主**该干什么**，不是再多想想。\n\n**锚点纪律（与 Step 3 一致）**：\n- 引用自己的历史 / 经历 anchor 必须 **load-bearing**——直接照亮你正在评价的内容\n- 找不到能照亮的 anchor 就**直接评价**——硬塞故事比不写更糟\n- **严禁用故事开头铺垫**——结论必须先出，故事最多 1 句作支撑\n- 如果用 anchor，1 句即可，不要长篇展开\n\n总字数 **≤150 字**，直接、保持你的人物性格。\n\n**语言要求（重要）**：全程用中文输出。保留你的思维框架、专业视角、语言节奏，但用中文表达——像你给中文读者亲自写评语一样。\n"@ + glossary_for(persona_name)
}

/// An advisor's evaluation of the session with one actionable recommendation; the case owner's own reflection is included when present.
pub fn harvest_eval_prompt(persona_name: &str, rich_prompt: &str, raw_input: &str, summary: &str, client_notes: &str) -> (r: String)
    ensures
        r@ == harvest_eval_text(persona_name@, rich_prompt@, raw_input@, summary@, client_notes@),
{
    let client = if blank(client_notes) { String::new() } else { let mut c = owned("\n## 案主自己的反思（他/她说自己学到了什么）\n"); c.append(client_notes); c.append("\n\n把这段当信号用：案主看到了你看到的吗？他/她哪里缺失、误读、或者看准了？\n"); c };
    let glossary = translation_glossary(persona_name);
    let mut r = owned("## 当前议题\n");
    r.append(raw_input);
    r.append("\n\n## 会议汇总\n");
    r.append(summary);
    r.append("\n");
    r.append(client.as_str());
    r.append("\n---\n你的完整人物资料：\n\n");
    r.append(rich_prompt);
    r.append("\n\n---\n\n从你的视角给出直接评价 + actionable 建议。**结论先行**：\n\n格式（严格遵守）：\n\n**[你的名字]的评价：** 第一句话就是你给案主的最终判断（≤30 字，可断言或可警告）。\n\n然后用 **3 个 bullet** 展开：\n- **洞察**：你看到的核心命题或隐患（≤30 字）\n- **观察**：案主哪里看准、哪里误判（特别对照\"案主自己的反思\"，≤30 字）\n- **建议行动**：「[动词][宾语]」+ 一句话 why（≤40 字）。**必须以动词开头**（做/写/见/停/砍/找/约/测/学/砍掉/搁置 等），给案主一个具体可执行的下一步。**严禁**：\"深思 X\" / \"考虑 X\" / \"反思 X\" 这种 reflection-only 词——你是幕僚，不是观察员；你的工作是告诉案主**该干什么**，不是再多想想。\n\n**锚点纪律（与 Step 3 一致）**：\n- 引用自己的历史 / 经历 anchor 必须 **load-bearing**——直接照亮你正在评价的内容\n- 找不到能照亮的 anchor 就**直接评价**——硬塞故事比不写更糟\n- **严禁用故事开头铺垫**——结论必须先出，故事最多 1 句作支撑\n- 如果用 anchor，1 句即可，不要长篇展开\n\n总字数 **≤150 字**，直接、保持你的人物性格。\n\n**语言要求（重要）**：全程用中文输出。保留你的思维框架、专业视角、语言节奏，但用中文表达——像你给中文读者亲自写评语一样。\n");
    r.append(glossary);
    r
}

/// Text of `harvest_todo_prompt`.
pub open spec fn harvest_todo_text(evals_text: Seq<char>, summary: Seq<char>) -> Seq<char> {
    "## 幕僚对案主的评价 + 建议行动\n"@ + evals_text + "\n\n## 会议汇总（参考用）\n"@ + summary + "\n\n---\n你是私董会秘书。**你的工作不是发明 todo——是把每位幕僚已经 explicit 给出的「建议行动」聚合成可执行清单**。\n\n## 任务\n\n1. 从上面每位幕僚的评价里提取「**建议行动**」那一行（已经是「动词 + 宾语 + why」格式）\n2. 同义合并：多位幕僚说类似的（例如三个人都说\"先做 5 个付费访谈\"），合并成一条 todo，attribution 列出所有推荐者\n3. 不同建议保留为独立 todo\n4. **不要发明任何不在幕僚建议里的 todo**——你是聚合，不是创作\n\n## 输出格式（严格遵守）\n\n## 行动清单（站在案主的视角）\n- [ ] **[动词][宾语]** — [why ≤30 字]（[毛 · PG]）\n- [ ] **[动词][宾语]** — [why ≤30 字]（[钱学森]）\n...（5-8 条，按重要性排序）\n\n## 辩论洞察\n- 洞察 1（≤30 字）\n- 洞察 2（≤30 字）\n...\n\n**要求**：\n- 全程用中文输出\n- 每条 todo 必须以 `- [ ]` 开头（前端渲染复选框）\n- attribution 用括号在末尾标明来自哪位幕僚（多位用 ` · ` 分隔，例：(毛 · PG · 钱学森)）\n- 如果某位幕僚的建议格式不规范、或没给出明确动词，**主动跳过它**而不是强行汇总——保留质量比保留数量重要"@
}

/// Aggregate the advisors' recommended actions into an attributed to-do list.
pub fn harvest_todo_prompt(evals_text: &str, summary: &str) -> (r: String)
    ensures
        r@ == harvest_todo_text(evals_text@, summary@),
{
    let mut r = owned("## 幕僚对案主的评价 + 建议行动\n");
    r.append(evals_text);
    r.append("\n\n## 会议汇总（参考用）\n");
    r.append(summary);
    r.append("\n\n---\n你是私董会秘书。**你的工作不是发明 todo——是把每位幕僚已经 explicit 给出的「建议行动」聚合成可执行清单**。\n\n## 任务\n\n1. 从上面每位幕僚的评价里提取「**建议行动**」那一行（已经是「动词 + 宾语 + why」格式）\n2. 同义合并：多位幕僚说类似的（例如三个人都说\"先做 5 个付费访谈\"），合并成一条 todo，attribution 列出所有推荐者\n3. 不同建议保留为独立 todo\n4. **不要发明任何不在幕僚建议里的 todo**——你是聚合，不是创作\n\n## 输出格式（严格遵守）\n\n## 行动清单（站在案主的视角）\n- [ ] **[动词][宾语]** — [why ≤30 字]（[毛 · PG]）\n- [ ] **[动词][宾语]** — [why ≤30 字]（[钱学森]）\n...（5-8 条，按重要性排序）\n\n## 辩论洞察\n- 洞察 1（≤30 字）\n- 洞察 2（≤30 字）\n...\n\n**要求**：\n- 全程用中文输出\n- 每条 todo 必须以 `- [ ]` 开头（前端渲染复选框）\n- attribution 用括号在末尾标明来自哪位幕僚（多位用 ` · ` 分隔，例：(毛 · PG · 钱学森)）\n- 如果某位幕僚的建议格式不规范、或没给出明确动词，**主动跳过它**而不是强行汇总——保留质量比保留数量重要");
    r
}

/// Text of `bayesian_update_prompt`.
pub open spec fn bayesian_update_text(raw_input: Seq<char>, summary: Seq<char>, harvest: Seq<char>, client_notes: Seq<char>) -> Seq<char> {
    let client = if trim(client_notes).len() == 0 { Seq::empty() } else { "\n## 案主本人的反思（一手信号）\n"@ + client_notes + "\n\n这段反思是案主自己在看过幕僚评估之前或同时写下的，代表他/她此刻对会议的理解和承诺。把这段当作与幕僚评估并列的证据源，不要低估它——案主自己「意识到」的往往比外部评估更能真正撬动信念。\n"@ };
    "## 案主原始输入（先验信念）\n"@ + raw_input + "\n\n## 会议总结（证据）\n"@ + summary + "\n\n## 幕僚评估（证据来源）\n"@ + harvest + "\n"@ + client + "\n---\n你是贝叶斯分析师。**结论先行 + bullet-only（2026-04-25 改版）**：让案主 20 秒读完信念变化。\n\n格式要求（严格遵守）：\n\n**信念变化：** 一句话总结案主最关键的信念翻转，≤35 字。\n\n## 先验 → 后验\n- 至多 3 条，格式：「{先验信念} → {后验信念}」，每条 ≤30 字\n- 跳过没有真正变化的信念，不要凑数\n\n## 关键证据\n- 至多 3 条，每条 ≤25 字。指明这条证据来自哪位幕僚或案主反思\n\n## 置信度\n- 1 条概括：「整体方向 {提升/下降/转向} N 档」≤25 字\n\n## 下一假设\n- 1 条，≤30 字，案主下次应主动验证的核心假设\n\n**硬性约束**：\n- **不要**任何段落式说理或重复引用\n- 总字数 **≤200 字**\n- 全程用中文"@
}

/// Bayesian belief update: prior to posterior, evidence, confidence and the next hypothesis.
pub fn bayesian_update_prompt(raw_input: &str, summary: &str, harvest: &str, client_notes: &str) -> (r: String)
    ensures
        r@ == bayesian_update_text(raw_input@, summary@, harvest@, client_notes@),
{
    let client = if blank(client_notes) { String::new() } else { let mut c = owned("\n## 案主本人的反思（一手信号）\n"); c.append(client_notes); c.append("\n\n这段反思是案主自己在看过幕僚评估之前或同时写下的，代表他/她此刻对会议的理解和承诺。把这段当作与幕僚评估并列的证据源，不要低估它——案主自己「意识到」的往往比外部评估更能真正撬动信念。\n"); c };
    let mut r = owned("## 案主原始输入（先验信念）\n");
    r.append(raw_input);
    r.append("\n\n## 会议总结（证据）\n");
    r.append(summary);
    r.append("\n\n## 幕僚评估（证据来源）\n");
    r.append(harvest);
    r.append("\n");
    r.append(client.as_str());
    r.append("\n---\n你是贝叶斯分析师。**结论先行 + bullet-only（2026-04-25 改版）**：让案主 20 秒读完信念变化。\n\n格式要求（严格遵守）：\n\n**信念变化：** 一句话总结案主最关键的信念翻转，≤35 字。\n\n## 先验 → 后验\n- 至多 3 条，格式：「{先验信念} → {后验信念}」，每条 ≤30 字\n- 跳过没有真正变化的信念，不要凑数\n\n## 关键证据\n- 至多 3 条，每条 ≤25 字。指明这条证据来自哪位幕僚或案主反思\n\n## 置信度\n- 1 条概括：「整体方向 {提升/下降/转向} N 档」≤25 字\n\n## 下一假设\n- 1 条，≤30 字，案主下次应主动验证的核心假设\n\n**硬性约束**：\n- **不要**任何段落式说理或重复引用\n- 总字数 **≤200 字**\n- 全程用中文");
    r
}

/// Text of `secretary_extract_core_facts_prompt`.
pub open spec fn secretary_extract_core_facts_text(session_block: Seq<char>, today: Seq<char>) -> Seq<char> {
    "你是私董会的秘书。任务：从下面这次刚结束的 session 中，提炼 **至多 3 条** 跨 session 复用的 **案主身份层事实**。\n\n什么算\"身份层事实\"：\n- 案主长期的目标、价值观、偏好、约束（\"想转向产品创始人\"、\"不接受 996\"、\"已婚有 1 娃\"）\n- 案主稳定的认知模式、思维风格（\"决策时倾向保留可选性\"、\"过度优化短期 KPI 是反复出错的模式\"）\n- 案主的资源、网络、专业背景（\"前 X 公司高管\"、\"有 5 年产品经验\"）\n- 案主反复出现的信念翻转（\"已经 3 次承诺减薪 6 个月，3 次都做到了 → 案主说到做到的概率 ~95%\"）\n\n什么 **不算** 身份层事实（不要写）：\n- 这次 session 的具体议题（\"该不该接 X 的 offer\"）—— 那是 log 的内容，不是 core\n- 一次性的情绪状态（\"今天很焦虑\"）\n- 临时的策略选择（\"决定先 A/B test 一下\"）\n- 重复 session 总结里已经说过的内容\n\n输出格式（**严格遵守**，每行一条事实）：\n```\n[实体 | 关系 | 事实 | 日期]\n```\n\n示例：\n```\n[案主 | 长期目标 | 投资人转产品创始人 | 2026-04-30]\n[案主 | 决策风格 | 重视保留可选性，宁愿延迟决策 | 2026-04-30]\n[案主 | 履诺概率 | 公开承诺后 ≥80% 兑现 | 2026-04-30]\n```\n\n硬性约束：\n- 输出 **只能有 0 ～ 3 行**，每行严格遵守上面的方括号格式\n- 没有任何身份层信号时，输出空字符串（不要硬凑）\n- 日期一律填今天："@ + today + "\n- **不要** 任何前后说明文字、不要 markdown 标题、不要 ``` 代码块包装\n- 全程中文\n\nsession 内容（仅本次）：\n---\n"@ + session_block + "\n---\n"@
}

/// Distil at most three identity-level facts from one finished session.
pub fn secretary_extract_core_facts_prompt(session_block: &str, today: &str) -> (r: String)
    ensures
        r@ == secretary_extract_core_facts_text(session_block@, today@),
{
    let mut r = owned("你是私董会的秘书。任务：从下面这次刚结束的 session 中，提炼 **至多 3 条** 跨 session 复用的 **案主身份层事实**。\n\n什么算\"身份层事实\"：\n- 案主长期的目标、价值观、偏好、约束（\"想转向产品创始人\"、\"不接受 996\"、\"已婚有 1 娃\"）\n- 案主稳定的认知模式、思维风格（\"决策时倾向保留可选性\"、\"过度优化短期 KPI 是反复出错的模式\"）\n- 案主的资源、网络、专业背景（\"前 X 公司高管\"、\"有 5 年产品经验\"）\n- 案主反复出现的信念翻转（\"已经 3 次承诺减薪 6 个月，3 次都做到了 → 案主说到做到的概率 ~95%\"）\n\n什么 **不算** 身份层事实（不要写）：\n- 这次 session 的具体议题（\"该不该接 X 的 offer\"）—— 那是 log 的内容，不是 core\n- 一次性的情绪状态（\"今天很焦虑\"）\n- 临时的策略选择（\"决定先 A/B test 一下\"）\n- 重复 session 总结里已经说过的内容\n\n输出格式（**严格遵守**，每行一条事实）：\n```\n[实体 | 关系 | 事实 | 日期]\n```\n\n示例：\n```\n[案主 | 长期目标 | 投资人转产品创始人 | 2026-04-30]\n[案主 | 决策风格 | 重视保留可选性，宁愿延迟决策 | 2026-04-30]\n[案主 | 履诺概率 | 公开承诺后 ≥80% 兑现 | 2026-04-30]\n```\n\n硬性约束：\n- 输出 **只能有 0 ～ 3 行**，每行严格遵守上面的方括号格式\n- 没有任何身份层信号时，输出空字符串（不要硬凑）\n- 日期一律填今天：");
    r.append(today);
    r.append("\n- **不要** 任何前后说明文字、不要 markdown 标题、不要 ``` 代码块包装\n- 全程中文\n\nsession 内容（仅本次）：\n---\n");
    r.append(session_block);
    r.append("\n---\n");
    r
}

/// Text of `facilitator_define_prompt`.
pub open spec fn facilitator_define_text(topic: Seq<char>, user_wiki: Seq<char>, last_session: Seq<char>, prior_beliefs: Seq<char>, execution_journal: Seq<char>) -> Seq<char> {
    let context = session_context(user_wiki, last_session, prior_beliefs, execution_journal);
    "## 你的角色\n你是私董会的主持人。你的唯一工作是帮案主锁定**这次**的核心问题。\n\n## 最重要的规则（务必遵守）\n1. **核心问题必须且只能从下面「## 当前案主输入」推导。** 不从历史推导，不从画像推导，不从信念推导。\n2. **历史上下文只用于识别\"这是新话题还是旧话题的延伸\"。** 它不是你要回答的内容，也不是你要复述的模板。\n3. **如果历史上下文讲的话题和当前输入无关，直接忽略历史。** 不要强行关联。\n4. 不问问题！直接给出你对当前输入的理解。\n5. 拆矛盾：找到案主在当前输入里真正纠结的决策点。\n6. 具体决策点：不要泛泛而谈，要具体到可以辩论的程度。\n7. 无观点：不给建议，只锁定问题。\n\n## Hypothesis Translator（输入分类）\n\n先判断**当前案主输入**属于哪一类（只看当前输入，不看历史）：\n\n**(A) 信息查询**（比如\"Paul Graham 的 startup 理论是什么？\"、\"帮我解释贝叶斯推理\"）\n→ 不要硬塞进核心问题格式。输出：\n```\n## 这是信息查询\n[直接用 3-5 句话回答]\n\n**建议**：如果你想让私董会帮你做决策，可以换个问法，比如\"我正在考虑 X，纠结于 Y 还是 Z\"。\n```\n\n**(B) 太模糊**（比如\"我最近有点迷茫\"、\"对人生困惑\"）\n→ 不要硬编一个核心问题。输出：\n```\n## 需要更多上下文\n我需要你再具体一点才能帮你锁定议题。能告诉我：\n- [具体的反问 1]\n- [具体的反问 2]\n```\n\n**(C) 可辩论的决策**（最常见，绝大多数情况用这个）\n→ 进入标准流程，输出下方\"核心问题\"格式。\n\n## 输出格式（仅 (C) 类使用，严格遵守）\n核心问题：[一句话描述案主真正需要决策的事 —— 源头必须是「## 当前案主输入」里的内容]\n\n你可能也在想：\n· [附带问题1]\n· [附带问题2]\n\n## 议题标语\n[6-12 个汉字的极简议题标语，不带任何标点和引号。这是圆桌中央 UI 的核心视觉文字，必须凝练成\"决策本身\"的最短陈述。例如：是否进入新市场 / 重组团队还是换人 / 接受融资还是 bootstrap]\n\n---\n\n# 历史上下文（仅作参考，非当前议题）\n"@ + context + "\n\n---\n\n## 当前案主输入（这是你唯一要处理的内容）\n"@ + topic + "\n\n---\n\n再次强调：**核心问题**必须且只能从上面「## 当前案主输入」推导。如果历史上下文和当前输入无关，请忽略历史。"@
}

/// Step 2: lock the core question of the current input; rules first, capped history second, the current input last.
pub fn facilitator_define_prompt(topic: &str, user_wiki: &str, last_session: &str, prior_beliefs: &str, execution_journal: &str) -> (r: String)
    ensures
        r@ == facilitator_define_text(topic@, user_wiki@, last_session@, prior_beliefs@, execution_journal@),
{
    let context = build_session_context_section(user_wiki, last_session, prior_beliefs, execution_journal);
    let mut r = owned("## 你的角色\n你是私董会的主持人。你的唯一工作是帮案主锁定**这次**的核心问题。\n\n## 最重要的规则（务必遵守）\n1. **核心问题必须且只能从下面「## 当前案主输入」推导。** 不从历史推导，不从画像推导，不从信念推导。\n2. **历史上下文只用于识别\"这是新话题还是旧话题的延伸\"。** 它不是你要回答的内容，也不是你要复述的模板。\n3. **如果历史上下文讲的话题和当前输入无关，直接忽略历史。** 不要强行关联。\n4. 不问问题！直接给出你对当前输入的理解。\n5. 拆矛盾：找到案主在当前输入里真正纠结的决策点。\n6. 具体决策点：不要泛泛而谈，要具体到可以辩论的程度。\n7. 无观点：不给建议，只锁定问题。\n\n## Hypothesis Translator（输入分类）\n\n先判断**当前案主输入**属于哪一类（只看当前输入，不看历史）：\n\n**(A) 信息查询**（比如\"Paul Graham 的 startup 理论是什么？\"、\"帮我解释贝叶斯推理\"）\n→ 不要硬塞进核心问题格式。输出：\n```\n## 这是信息查询\n[直接用 3-5 句话回答]\n\n**建议**：如果你想让私董会帮你做决策，可以换个问法，比如\"我正在考虑 X，纠结于 Y 还是 Z\"。\n```\n\n**(B) 太模糊**（比如\"我最近有点迷茫\"、\"对人生困惑\"）\n→ 不要硬编一个核心问题。输出：\n```\n## 需要更多上下文\n我需要你再具体一点才能帮你锁定议题。能告诉我：\n- [具体的反问 1]\n- [具体的反问 2]\n```\n\n**(C) 可辩论的决策**（最常见，绝大多数情况用这个）\n→ 进入标准流程，输出下方\"核心问题\"格式。\n\n## 输出格式（仅 (C) 类使用，严格遵守）\n核心问题：[一句话描述案主真正需要决策的事 —— 源头必须是「## 当前案主输入」里的内容]\n\n你可能也在想：\n· [附带问题1]\n· [附带问题2]\n\n## 议题标语\n[6-12 个汉字的极简议题标语，不带任何标点和引号。这是圆桌中央 UI 的核心视觉文字，必须凝练成\"决策本身\"的最短陈述。例如：是否进入新市场 / 重组团队还是换人 / 接受融资还是 bootstrap]\n\n---\n\n# 历史上下文（仅作参考，非当前议题）\n");
    r.append(context.as_str());
    r.append("\n\n---\n\n## 当前案主输入（这是你唯一要处理的内容）\n");
    r.append(topic);
    r.append("\n\n---\n\n再次强调：**核心问题**必须且只能从上面「## 当前案主输入」推导。如果历史上下文和当前输入无关，请忽略历史。");
    r
}

/// Text of `facilitator_correction_prompt`.
pub open spec fn facilitator_correction_text(topic: Seq<char>, previous_draft: Seq<char>, correction: Seq<char>, user_wiki: Seq<char>, last_session: Seq<char>, prior_beliefs: Seq<char>, execution_journal: Seq<char>) -> Seq<char> {
    let context = session_context(user_wiki, last_session, prior_beliefs, execution_journal);
    "## 你的角色\n你是私董会的主持人。案主对你之前的理解做了修正，请根据修正重新锁定核心问题。\n\n## 最重要的规则（务必遵守）\n1. **核心问题必须从「## 案主原始输入」+「## 案主的修正」推导。** 不从历史推导。\n2. 历史上下文只用于识别连续性，不是本次要回答的内容。如果历史和当前无关，直接忽略。\n3. 不问问题！直接给出修正后的理解。\n4. 认真对待案主的修正意见，修正 > 原始输入 > 你之前的理解。\n5. 保持具体、可辩论的决策点。\n\n## 输出格式（严格遵守）\n核心问题：[一句话描述案主真正需要决策的事]\n\n你可能也在想：\n· [附带问题1]\n· [附带问题2]\n\n## 议题标语\n[6-12 个汉字的极简议题标语，不带任何标点和引号。例如：是否进入新市场 / 重组团队还是换人]\n\n---\n\n# 历史上下文（仅作参考，非当前议题）\n"@ + context + "\n\n---\n\n## 案主原始输入\n"@ + topic + "\n\n## 你之前的理解\n"@ + previous_draft + "\n\n## 案主的修正（最高优先级）\n"@ + correction + "\n\n---\n\n再次强调：核心问题必须从「案主原始输入」+「案主的修正」推导。修正意见优先级最高。"@
}

/// Step 2 correction: re-lock the core question from the original input and the case owner's correction.
pub fn facilitator_correction_prompt(topic: &str, previous_draft: &str, correction: &str, user_wiki: &str, last_session: &str, prior_beliefs: &str, execution_journal: &str) -> (r: String)
    ensures
        r@ == facilitator_correction_text(topic@, previous_draft@, correction@, user_wiki@, last_session@, prior_beliefs@, execution_journal@),
{
    let context = build_session_context_section(user_wiki, last_session, prior_beliefs, execution_journal);
    let mut r = owned("## 你的角色\n你是私董会的主持人。案主对你之前的理解做了修正，请根据修正重新锁定核心问题。\n\n## 最重要的规则（务必遵守）\n1. **核心问题必须从「## 案主原始输入」+「## 案主的修正」推导。** 不从历史推导。\n2. 历史上下文只用于识别连续性，不是本次要回答的内容。如果历史和当前无关，直接忽略。\n3. 不问问题！直接给出修正后的理解。\n4. 认真对待案主的修正意见，修正 > 原始输入 > 你之前的理解。\n5. 保持具体、可辩论的决策点。\n\n## 输出格式（严格遵守）\n核心问题：[一句话描述案主真正需要决策的事]\n\n你可能也在想：\n· [附带问题1]\n· [附带问题2]\n\n## 议题标语\n[6-12 个汉字的极简议题标语，不带任何标点和引号。例如：是否进入新市场 / 重组团队还是换人]\n\n---\n\n# 历史上下文（仅作参考，非当前议题）\n");
    r.append(context.as_str());
    r.append("\n\n---\n\n## 案主原始输入\n");
    r.append(topic);
    r.append("\n\n## 你之前的理解\n");
    r.append(previous_draft);
    r.append("\n\n## 案主的修正（最高优先级）\n");
    r.append(correction);
    r.append("\n\n---\n\n再次强调：核心问题必须从「案主原始输入」+「案主的修正」推导。修正意见优先级最高。");
    r
}

/// Text of `persona_intro_prompt`.
pub open spec fn persona_intro_text(persona_name: Seq<char>, persona_title: Seq<char>, persona_desc: Seq<char>, raw_input: Seq<char>, defined: Seq<char>) -> Seq<char> {
    "## Your Identity\nName: "@ + persona_name + "\nTitle: "@ + persona_title + "\nDescription: "@ + persona_desc + "\n\n## The Situation\n"@ + raw_input + "\n\n## Core Topic\n"@ + defined + "\n\n---\nYou are advising on this topic from your unique perspective. Share your most essential insight."@
}

/// Persona introduction from name, title and description.
pub fn persona_intro_prompt(persona_name: &str, persona_title: &str, persona_desc: &str, raw_input: &str, defined: &str) -> (r: String)
    ensures
        r@ == persona_intro_text(persona_name@, persona_title@, persona_desc@, raw_input@, defined@),
{
    let mut r = owned("## Your Identity\nName: ");
    r.append(persona_name);
    r.append("\nTitle: ");
    r.append(persona_title);
    r.append("\nDescription: ");
    r.append(persona_desc);
    r.append("\n\n## The Situation\n");
    r.append(raw_input);
    r.append("\n\n## Core Topic\n");
    r.append(defined);
    r.append("\n\n---\nYou are advising on this topic from your unique perspective. Share your most essential insight.");
    r
}

/// Text of `rich_persona_intro_prompt`.
pub open spec fn rich_persona_intro_text(rich_prompt: Seq<char>, raw_input: Seq<char>, defined: Seq<char>) -> Seq<char> {
    let persona_name = persona_name_in(rich_prompt);
    "## The Situation\n"@ + raw_input + "\n\n## Core Topic\n"@ + defined + "\n\n---\nFULL PERSONA DETAILS:\n\n"@ + rich_prompt + "\n\n---\nBased on your unique perspective above, provide your most essential judgment and recommendation on this topic. Be direct, stay in character, and draw on your specific expertise and mental models.\n\n**Quick Persona Summary ("@ + persona_name + "):**\n"@ + short_summary(rich_prompt, persona_name)
}

/// Persona introduction from its full rich prompt, with a short summary at the end.
pub fn rich_persona_intro_prompt(rich_prompt: &str, raw_input: &str, defined: &str) -> (r: String)
    ensures
        r@ == rich_persona_intro_text(rich_prompt@, raw_input@, defined@),
{
    let persona_name = persona_name_of(rich_prompt);
    let summary = extract_short_summary(rich_prompt, persona_name.as_str());
    let mut r = owned("## The Situation\n");
    r.append(raw_input);
    r.append("\n\n## Core Topic\n");
    r.append(defined);
    r.append("\n\n---\nFULL PERSONA DETAILS:\n\n");
    r.append(rich_prompt);
    r.append("\n\n---\nBased on your unique perspective above, provide your most essential judgment and recommendation on this topic. Be direct, stay in character, and draw on your specific expertise and mental models.\n\n**Quick Persona Summary (");
    r.append(persona_name.as_str());
    r.append("):**\n");
    r.append(summary.as_str());
    r
}

/// Text of `rich_persona_facts_prompt`.
pub open spec fn rich_persona_facts_text(rich_prompt: Seq<char>, raw_input: Seq<char>, defined: Seq<char>, assigned_angle: Seq<char>, previous_qa: Seq<char>) -> Seq<char> {
    let persona_name = persona_name_in(rich_prompt);
    let history = if trim(previous_qa).len() == 0 { Seq::empty() } else { "\n\n---\n\n## 过往对话（绝对不要重复）\n"@ + take_chars(previous_qa, 1500) + "\n"@ };
    "# ⚠️ 任务格式硬规定（最高优先级，本轮不可妥协）\n\n你接下来产出的回答**必须**满足下面三条。这三条优先级高于你的人物档案里的任何 storytelling 倾向：\n\n1. **第一句话是事实问题**——不是 \"我当年...\"、不是 \"我先讲一件事\"、不是 \"好，...\"、不是任何故事/铺垫。点开看到的第一行必须是一个能让案主用具体描述回答的问题。\n2. **不出现任何二选一**——包括所有伪装形式：\"X 还是 Y\"、\"哪个更重 / 哪个轻\"、\"(A)... 还是 (B)...\"、\"是 X 推你 还是 Y 推你\"、三选一压缩 (\"某口气、某个人、某种不甘心，还是别的\")。这些全部禁止。\n3. **历史锚点只能在最后 1 句**——而且必须直接照亮你刚问的事实；不照亮就完全不写。绝对禁止用故事开头铺垫。\n\n读完下面的人物档案后，回到这三条做最后一次自检再生成。\n\n---\n\n## 当前案主处境\n"@ + raw_input + "\n\n## 已锁定的议题\n"@ + defined + "\n\n---\n## 你的完整人物档案\n"@ + rich_prompt + "\n\n---\n**你是谁（速读 "@ + persona_name + "）：**\n"@ + short_summary(rich_prompt, persona_name) + "\n\n---\n## 这一轮你要做的事（顺序非常关键）\n\n### 第 1 步：内部分析（不要写在输出里）\n认真读案主处境与已锁定议题，从你的角度出发问自己：\n- 真正的障碍是什么？\n- 要往前推动这个决策，**最缺哪条事实**？\n- 不弄清这条事实，分析就走不下去——它是什么？\n\n你的角度（只走这一条，别跑题）：\n"@ + assigned_angle + "\n其他幕僚负责别的角度，你**只**从上面这一条切入。\n\n### 第 2 步：**先写出 1-2 个挖事实的问题**（必须是输出的第一句话）\n经过第 1 步的内部分析后，**第一句话就要落到问题上**——案主点开看到的第一行不能是故事，必须是问题。\n\n**好问题的标准**：\n- 开放式：让案主用具体描述回答，不是 yes/no、不是 A 还是 B\n- 事实性：问资源 / 约束 / 已尝试 / 时间窗 / 关键人物 / 数据 / 现状细节——不是问感受、不是哲学题\n- 指向决策：这条信息对推动决策必要，不是可有可无的背景\n\n**示例（好）**：\n- \"你目前手里具体有哪些资源、关系、时间预算可以投到这件事上？\"\n- \"你已经试过哪些路径？卡在哪个具体环节？\"\n- \"这件事的截止时间是什么？谁在等你的决定？\"\n\n**绝对不能问的（包括所有伪装形式）**：\n- ❌ 显式二选一：\"你怕的是 X 还是 Y？\" / \"是 X，还是 Y？\"\n- ❌ **隐藏的二选一（同样禁止）**：\n  - \"X 重要，还是 Y 重要？\" / \"你哪个更重？哪个轻？\"\n  - \"(A) ... 还是 (B) ...\" / \"选一个：1) ... 2) ...\"\n  - \"是 X 推你前进，还是 Y 推你前进？\"\n  - \"你想成为推动历史的人，还是在历史里自保的人？\"\n  - 任何把回答压缩成\"非此即彼\"的句式——哪怕用了三个选项\n- ❌ 主观感受：\"你怕什么？\" / \"你担心的是什么？\"\n- ❌ 哲学题：\"你真正想成为谁？\" / \"什么对你最重要？\"\n- ❌ 引导式：\"你是不是其实在逃避 X？\"\n- ❌ \"我先问你一个具体的事——欠谁交代？\" 之类把问题包装得像问题但其实是修辞\n\n把每个问题在心里默念一遍：**对方能用一段事实描述来回答吗？** 如果回答只能是\"A\" 或 \"B\"——重写。\n\n### 第 3 步：可选——一句简短的 why（≤40 字）\n如果问题不直观，加一句解释为什么问它。不强制。\n\n### 第 4 步：可选——历史锚点（**只能放在最后**，且严格限 1 句）\n**禁止用故事开头**。锚点位置硬规定：放在所有问题（和可选 why）之后，作为收尾的 1 句。\n内容要求：必须直接照亮你刚问的那条事实，**无关就完全不写**。\n反面示例（禁止）：\n- ❌ \"我当年在延安，决定出兵朝鲜之前，政治局里吵成一团……\" 然后才提问 — 这是开头铺垫，违规\n- ❌ \"我 1997 年回苹果，砍了 346 个产品……\" 作为 opener — 违规\n正面示例（允许）：\n- ✅ \"你已经试过哪些路径？卡在哪个具体环节？——我 1997 年那次砍 346 个产品也是先把试过的列出来才知道砍哪。\" — 锚点在问题之后，且照亮问题\n\n---\n## 输出格式（硬规定）\n\n**总长 2-5 句中文**。第一人称称自己，\"你\"称案主。\n\n**严格顺序**：\n1. **第 1 句必须是 fact-finding 问题**（不能是故事，不能是描述，不能是\"我先问你\"之类的过场）\n2. （可选）第 2 个 fact-finding 问题\n3. （可选）一句 ≤40 字 why\n4. （可选）1 句历史锚——**只能在最后**，且只在真正照亮问题时\n\n**自我检查（输出前默念）**：\n- 第一句是不是问题？不是→重写\n- 任何问题能不能用 \"A 或 B\" 回答？能→重写\n- 有没有\"哪个更重 / 哪个轻 / 是 X 还是 Y / (A) 还是 (B) / 选一个\" 等伪装二选一？有→重写\n- 有没有用故事开头铺垫？有→把故事砍掉或挪到末尾\n\n**绝对禁止**：\n- ❌ 第一句不是问题（最常见的违规：以\"我当年...\"、\"我先问你...\"、\"好，...\"、\"同志，...\"开头铺垫）\n- ❌ 任何二选一（包括所有上面列出的伪装形式）\n- ❌ 主观感受 / 哲学问题\n- ❌ 超过 2 个问题\n- ❌ 单个 why 超过 40 字\n- ❌ 重复过往对话里已经问过的内容\n"@ + glossary_for(persona_name) + history + "\n\n---\n\n# ⚠️ 生成前最后一次默念（这是你看到的最后一段——读完才动手）\n\n1. 第一句是问题吗？不是 → 重写\n2. 任何句子能用 \"A 或 B\" 一个字回答吗？能 → 重写（包括 \"哪个更重\" 这种伪装）\n3. 锚点放在最后了吗？放在开头了 → 把它砍掉或挪到最后\n4. 我是不是在讲别人的故事？（比如 倪海厦不是 Steve Jobs，钱学森不是马云）—— 是 → 完全删掉那段，重写\n\n四条 yes 才动笔。"@
}

/// Step 3 fact-gathering prompt of one advisor: its assigned angle, the question-first rules, and the earlier questions (first 1500 characters) not to repeat.
pub fn rich_persona_facts_prompt(rich_prompt: &str, raw_input: &str, defined: &str, assigned_angle: &str, previous_qa: &str) -> (r: String)
    ensures
        r@ == rich_persona_facts_text(rich_prompt@, raw_input@, defined@, assigned_angle@, previous_qa@),
{
    let persona_name = persona_name_of(rich_prompt);
    let summary = extract_short_summary(rich_prompt, persona_name.as_str());
    let glossary = translation_glossary(persona_name.as_str());
    let history = if blank(previous_qa) { String::new() } else { let mut h = owned("\n\n---\n\n## 过往对话（绝对不要重复）\n"); h.append(take_str(previous_qa, 1500).as_str()); h.append("\n"); h };
    let mut r = owned("# ⚠️ 任务格式硬规定（最高优先级，本轮不可妥协）\n\n你接下来产出的回答**必须**满足下面三条。这三条优先级高于你的人物档案里的任何 storytelling 倾向：\n\n1. **第一句话是事实问题**——不是 \"我当年...\"、不是 \"我先讲一件事\"、不是 \"好，...\"、不是任何故事/铺垫。点开看到的第一行必须是一个能让案主用具体描述回答的问题。\n2. **不出现任何二选一**——包括所有伪装形式：\"X 还是 Y\"、\"哪个更重 / 哪个轻\"、\"(A)... 还是 (B)...\"、\"是 X 推你 还是 Y 推你\"、三选一压缩 (\"某口气、某个人、某种不甘心，还是别的\")。这些全部禁止。\n3. **历史锚点只能在最后 1 句**——而且必须直接照亮你刚问的事实；不照亮就完全不写。绝对禁止用故事开头铺垫。\n\n读完下面的人物档案后，回到这三条做最后一次自检再生成。\n\n---\n\n## 当前案主处境\n");
    r.append(raw_input);
    r.append("\n\n## 已锁定的议题\n");
    r.append(defined);
    r.append("\n\n---\n## 你的完整人物档案\n");
    r.append(rich_prompt);
    r.append("\n\n---\n**你是谁（速读 ");
    r.append(persona_name.as_str());
    r.append("）：**\n");
    r.append(summary.as_str());
    r.append("\n\n---\n## 这一轮你要做的事（顺序非常关键）\n\n### 第 1 步：内部分析（不要写在输出里）\n认真读案主处境与已锁定议题，从你的角度出发问自己：\n- 真正的障碍是什么？\n- 要往前推动这个决策，**最缺哪条事实**？\n- 不弄清这条事实，分析就走不下去——它是什么？\n\n你的角度（只走这一条，别跑题）：\n");
    r.append(assigned_angle);
    r.append("\n其他幕僚负责别的角度，你**只**从上面这一条切入。\n\n### 第 2 步：**先写出 1-2 个挖事实的问题**（必须是输出的第一句话）\n经过第 1 步的内部分析后，**第一句话就要落到问题上**——案主点开看到的第一行不能是故事，必须是问题。\n\n**好问题的标准**：\n- 开放式：让案主用具体描述回答，不是 yes/no、不是 A 还是 B\n- 事实性：问资源 / 约束 / 已尝试 / 时间窗 / 关键人物 / 数据 / 现状细节——不是问感受、不是哲学题\n- 指向决策：这条信息对推动决策必要，不是可有可无的背景\n\n**示例（好）**：\n- \"你目前手里具体有哪些资源、关系、时间预算可以投到这件事上？\"\n- \"你已经试过哪些路径？卡在哪个具体环节？\"\n- \"这件事的截止时间是什么？谁在等你的决定？\"\n\n**绝对不能问的（包括所有伪装形式）**：\n- ❌ 显式二选一：\"你怕的是 X 还是 Y？\" / \"是 X，还是 Y？\"\n- ❌ **隐藏的二选一（同样禁止）**：\n  - \"X 重要，还是 Y 重要？\" / \"你哪个更重？哪个轻？\"\n  - \"(A) ... 还是 (B) ...\" / \"选一个：1) ... 2) ...\"\n  - \"是 X 推你前进，还是 Y 推你前进？\"\n  - \"你想成为推动历史的人，还是在历史里自保的人？\"\n  - 任何把回答压缩成\"非此即彼\"的句式——哪怕用了三个选项\n- ❌ 主观感受：\"你怕什么？\" / \"你担心的是什么？\"\n- ❌ 哲学题：\"你真正想成为谁？\" / \"什么对你最重要？\"\n- ❌ 引导式：\"你是不是其实在逃避 X？\"\n- ❌ \"我先问你一个具体的事——欠谁交代？\" 之类把问题包装得像问题但其实是修辞\n\n把每个问题在心里默念一遍：**对方能用一段事实描述来回答吗？** 如果回答只能是\"A\" 或 \"B\"——重写。\n\n### 第 3 步：可选——一句简短的 why（≤40 字）\n如果问题不直观，加一句解释为什么问它。不强制。\n\n### 第 4 步：可选——历史锚点（**只能放在最后**，且严格限 1 句）\n**禁止用故事开头**。锚点位置硬规定：放在所有问题（和可选 why）之后，作为收尾的 1 句。\n内容要求：必须直接照亮你刚问的那条事实，**无关就完全不写**。\n反面示例（禁止）：\n- ❌ \"我当年在延安，决定出兵朝鲜之前，政治局里吵成一团……\" 然后才提问 — 这是开头铺垫，违规\n- ❌ \"我 1997 年回苹果，砍了 346 个产品……\" 作为 opener — 违规\n正面示例（允许）：\n- ✅ \"你已经试过哪些路径？卡在哪个具体环节？——我 1997 年那次砍 346 个产品也是先把试过的列出来才知道砍哪。\" — 锚点在问题之后，且照亮问题\n\n---\n## 输出格式（硬规定）\n\n**总长 2-5 句中文**。第一人称称自己，\"你\"称案主。\n\n**严格顺序**：\n1. **第 1 句必须是 fact-finding 问题**（不能是故事，不能是描述，不能是\"我先问你\"之类的过场）\n2. （可选）第 2 个 fact-finding 问题\n3. （可选）一句 ≤40 字 why\n4. （可选）1 句历史锚——**只能在最后**，且只在真正照亮问题时\n\n**自我检查（输出前默念）**：\n- 第一句是不是问题？不是→重写\n- 任何问题能不能用 \"A 或 B\" 回答？能→重写\n- 有没有\"哪个更重 / 哪个轻 / 是 X 还是 Y / (A) 还是 (B) / 选一个\" 等伪装二选一？有→重写\n- 有没有用故事开头铺垫？有→把故事砍掉或挪到末尾\n\n**绝对禁止**：\n- ❌ 第一句不是问题（最常见的违规：以\"我当年...\"、\"我先问你...\"、\"好，...\"、\"同志，...\"开头铺垫）\n- ❌ 任何二选一（包括所有上面列出的伪装形式）\n- ❌ 主观感受 / 哲学问题\n- ❌ 超过 2 个问题\n- ❌ 单个 why 超过 40 字\n- ❌ 重复过往对话里已经问过的内容\n");
    r.append(glossary);
    r.append(history.as_str());
    r.append("\n\n---\n\n# ⚠️ 生成前最后一次默念（这是你看到的最后一段——读完才动手）\n\n1. 第一句是问题吗？不是 → 重写\n2. 任何句子能用 \"A 或 B\" 一个字回答吗？能 → 重写（包括 \"哪个更重\" 这种伪装）\n3. 锚点放在最后了吗？放在开头了 → 把它砍掉或挪到最后\n4. 我是不是在讲别人的故事？（比如 倪海厦不是 Steve Jobs，钱学森不是马云）—— 是 → 完全删掉那段，重写\n\n四条 yes 才动笔。");
    r
}

/// Text of `refine_persona_question_prompt`.
pub open spec fn refine_persona_question_text(rich_prompt: Seq<char>, raw_input: Seq<char>, defined: Seq<char>, angle: Seq<char>, persona_name: Seq<char>, original_question: Seq<char>, prior_qa_block: Seq<char>) -> Seq<char> {
    let prior = if trim(prior_qa_block).len() == 0 { "（暂无——你是第一位被打开的幕僚）"@ } else { take_chars(prior_qa_block, 2000) };
    "# 你是 "@ + persona_name + "（不是其他幕僚）。这是 Step 3 挖事实环节的\"序贯调整\"任务。\n\n## 你的人物档案（节选）\n"@ + take_chars(rich_prompt, 600) + "\n\n---\n\n## 当前案主处境\n"@ + take_chars(raw_input, 800) + "\n\n## 已锁定的议题\n"@ + take_chars(defined, 400) + "\n\n## 你负责的角度\n"@ + angle + "\n\n## 你原本准备问的问题\n"@ + original_question + "\n\n## 已经被其他幕僚问过、案主也回答了的（Q + A）\n"@ + prior + "\n\n---\n\n## 你要做的事\n\n读完上面已问已答的内容，回答**一个问题**：你原本要问的事实，**还需要问吗**？\n\n**判断标准**：\n- 如果案主的回答已经覆盖了你原本要挖的事实——**SKIP**，不要重复浪费案主时间\n- 如果只是部分覆盖、还有一条具体的事实没被挖到——可以**ASK**，但**只问那条还没覆盖的**，不要全套重问\n- 如果完全没被覆盖——直接 **ASK** 你原本的问题（或微调措辞使其更聚焦）\n\n**特别提醒**：\n- 案主已经在快速回答中，**不耐烦**——宁可 SKIP 也不要勉强问\n- 不要为了\"不重复\"而强行换一个不相关的角度——那等于偏离你的角度职责\n- 一个挖事实任务整体平均**最多 3-4 个问题就够**，再多用户会跳过\n\n---\n\n## 输出格式（严格 JSON，不要任何 markdown 围栏，不要解释）\n\n如果继续问：\n```\n{\"action\":\"ask\",\"question\":\"<你的中文问题，遵守 Step 3 格式：第一句是事实问题，无二选一，无故事开头，2-5 句>\"}\n```\n\n如果跳过：\n```\n{\"action\":\"skip\",\"reason\":\"<10-30 字解释为什么跳过，例如 '前面已问过资源清单' 或 '与慧能的窗口期问题重叠'>\"}\n```\n\n只输出一个 JSON 对象，不要额外说明。"@
}

/// Step 3 sequential refinement: ask again only what the earlier answers did not cover, or skip; the reply is one JSON object.
pub fn refine_persona_question_prompt(rich_prompt: &str, raw_input: &str, defined: &str, angle: &str, persona_name: &str, original_question: &str, prior_qa_block: &str) -> (r: String)
    ensures
        r@ == refine_persona_question_text(rich_prompt@, raw_input@, defined@, angle@, persona_name@, original_question@, prior_qa_block@),
{
    let prior = if blank(prior_qa_block) { owned("（暂无——你是第一位被打开的幕僚）") } else { take_str(prior_qa_block, 2000) };
    let mut r = owned("# 你是 ");
    r.append(persona_name);
    r.append("（不是其他幕僚）。这是 Step 3 挖事实环节的\"序贯调整\"任务。\n\n## 你的人物档案（节选）\n");
    r.append(take_str(rich_prompt, 600).as_str());
    r.append("\n\n---\n\n## 当前案主处境\n");
    r.append(take_str(raw_input, 800).as_str());
    r.append("\n\n## 已锁定的议题\n");
    r.append(take_str(defined, 400).as_str());
    r.append("\n\n## 你负责的角度\n");
    r.append(angle);
    r.append("\n\n## 你原本准备问的问题\n");
    r.append(original_question);
    r.append("\n\n## 已经被其他幕僚问过、案主也回答了的（Q + A）\n");
    r.append(prior.as_str());
    r.append("\n\n---\n\n## 你要做的事\n\n读完上面已问已答的内容，回答**一个问题**：你原本要问的事实，**还需要问吗**？\n\n**判断标准**：\n- 如果案主的回答已经覆盖了你原本要挖的事实——**SKIP**，不要重复浪费案主时间\n- 如果只是部分覆盖、还有一条具体的事实没被挖到——可以**ASK**，但**只问那条还没覆盖的**，不要全套重问\n- 如果完全没被覆盖——直接 **ASK** 你原本的问题（或微调措辞使其更聚焦）\n\n**特别提醒**：\n- 案主已经在快速回答中，**不耐烦**——宁可 SKIP 也不要勉强问\n- 不要为了\"不重复\"而强行换一个不相关的角度——那等于偏离你的角度职责\n- 一个挖事实任务整体平均**最多 3-4 个问题就够**，再多用户会跳过\n\n---\n\n## 输出格式（严格 JSON，不要任何 markdown 围栏，不要解释）\n\n如果继续问：\n```\n{\"action\":\"ask\",\"question\":\"<你的中文问题，遵守 Step 3 格式：第一句是事实问题，无二选一，无故事开头，2-5 句>\"}\n```\n\n如果跳过：\n```\n{\"action\":\"skip\",\"reason\":\"<10-30 字解释为什么跳过，例如 '前面已问过资源清单' 或 '与慧能的窗口期问题重叠'>\"}\n```\n\n只输出一个 JSON 对象，不要额外说明。");
    r
}

/// Text of `dedup_facts_questions_prompt`.
pub open spec fn dedup_facts_questions_text(raw_input: Seq<char>, defined: Seq<char>, questions_json: Seq<char>) -> Seq<char> {
    "## 你的角色\n你是私董会主持人，负责让多位幕僚提出的问题彼此**不重复**。\n\n## 案主原话\n"@ + take_chars(raw_input, 800) + "\n\n## 已锁定议题\n"@ + take_chars(defined, 800) + "\n\n## 现在的问题列表（由不同幕僚并行写出）\n下面是一个 JSON 数组，每条形如 `{\"persona\":\"…\",\"slug\":\"…\",\"question\":\"…\"}`：\n```json\n"@ + questions_json + "\n```\n\n## 你要做的事\n1. 通读所有问题，找出**语义高度相似**的组（关注同一个事实点 / 同一个内心动作 / 同一个时间窗）。\n2. 对每个相似组，**保留一条**作为代表，**改写其余的**：换一个幕僚还没碰到的角度（情感、利益相关方、时间线、机会成本、自我认知、决策机制、外部压力、过往证据……），同时**保持原幕僚的发言风格、口吻、用词偏好**——因为这位幕僚的人格档案已经决定了他怎么说话。\n3. 不重复就保持原样，不要为了改而改。\n4. 输出**严格 JSON 数组**，长度和顺序与输入一致；每条仍是 `{\"persona\":\"…\",\"slug\":\"…\",\"question\":\"…\"}`。\n5. 不要写解释、不要加 markdown 包裹、只输出纯 JSON。\n\n## 输出（仅 JSON，不要别的）"@
}

/// Rewrite near-duplicate advisor questions so each covers a distinct angle; JSON in, JSON out.
pub fn dedup_facts_questions_prompt(raw_input: &str, defined: &str, questions_json: &str) -> (r: String)
    ensures
        r@ == dedup_facts_questions_text(raw_input@, defined@, questions_json@),
{
    let mut r = owned("## 你的角色\n你是私董会主持人，负责让多位幕僚提出的问题彼此**不重复**。\n\n## 案主原话\n");
    r.append(take_str(raw_input, 800).as_str());
    r.append("\n\n## 已锁定议题\n");
    r.append(take_str(defined, 800).as_str());
    r.append("\n\n## 现在的问题列表（由不同幕僚并行写出）\n下面是一个 JSON 数组，每条形如 `{\"persona\":\"…\",\"slug\":\"…\",\"question\":\"…\"}`：\n```json\n");
    r.append(questions_json);
    r.append("\n```\n\n## 你要做的事\n1. 通读所有问题，找出**语义高度相似**的组（关注同一个事实点 / 同一个内心动作 / 同一个时间窗）。\n2. 对每个相似组，**保留一条**作为代表，**改写其余的**：换一个幕僚还没碰到的角度（情感、利益相关方、时间线、机会成本、自我认知、决策机制、外部压力、过往证据……），同时**保持原幕僚的发言风格、口吻、用词偏好**——因为这位幕僚的人格档案已经决定了他怎么说话。\n3. 不重复就保持原样，不要为了改而改。\n4. 输出**严格 JSON 数组**，长度和顺序与输入一致；每条仍是 `{\"persona\":\"…\",\"slug\":\"…\",\"question\":\"…\"}`。\n5. 不要写解释、不要加 markdown 包裹、只输出纯 JSON。\n\n## 输出（仅 JSON，不要别的）");
    r
}

/// Text of `freestyle_consensus_prompt`.
pub open spec fn freestyle_consensus_text(opinions_text: Seq<char>) -> Seq<char> {
    "以下是幕僚们独立的发言：\n\n"@ + opinions_text + "\n\n---\n\n你的任务：在 ≤300 个汉字内，为案主提炼这些发言的「共识」与「真正的分歧/未解张力」。规则：\n\n1. 先 1-2 行点明大家共同看到的（共识）\n2. 然后 1-2 行点明真正的张力（分歧不强求每位幕僚的立场，重在\"这件事还卡在哪\")\n3. 不要给建议，不给行动清单\n4. 不要列幕僚名字逐一回顾——直接合成一段\n5. 不分子小标题，写成 2-3 段连贯的中文\n\n只输出这段提炼，不要任何元注释。"@
}

/// Freestyle mode, step one: consensus and remaining tension in at most 300 characters.
pub fn freestyle_consensus_prompt(opinions_text: &str) -> (r: String)
    ensures
        r@ == freestyle_consensus_text(opinions_text@),
{
    let mut r = owned("以下是幕僚们独立的发言：\n\n");
    r.append(opinions_text);
    r.append("\n\n---\n\n你的任务：在 ≤300 个汉字内，为案主提炼这些发言的「共识」与「真正的分歧/未解张力」。规则：\n\n1. 先 1-2 行点明大家共同看到的（共识）\n2. 然后 1-2 行点明真正的张力（分歧不强求每位幕僚的立场，重在\"这件事还卡在哪\")\n3. 不要给建议，不给行动清单\n4. 不要列幕僚名字逐一回顾——直接合成一段\n5. 不分子小标题，写成 2-3 段连贯的中文\n\n只输出这段提炼，不要任何元注释。");
    r
}

/// Text of `freestyle_action_prompt`.
pub open spec fn freestyle_action_text(rich_persona_prompt: Seq<char>, raw_input: Seq<char>, defined: Seq<char>, consensus_block: Seq<char>) -> Seq<char> {
    "FULL PERSONA DETAILS:\n\n"@ + rich_persona_prompt + "\n\n---\n\n## 案主原始问题\n"@ + raw_input + "\n\n## 锁定的核心议题\n"@ + defined + "\n\n## 主持人提炼的共识与张力\n"@ + consensus_block + "\n\n---\n\n请你以**自己的 voice** 给出**一句行动建议**。规则：\n\n1. **≤ 50 个汉字**——一句话，硬上限\n2. 直接动词开头，告诉案主\"做什么\"\n3. 不解释、不展开、不给若干选项；选一条你最相信的\n4. 不要重复主持人的共识——你给的是接下来的下一步\n5. 不要 \"X 或 Y\" 这种二选一句式——你必须押注一个方向\n6. 你的 voice 还在——用你独特的视角说，别变成模板\n\n直接输出这一句话，不要任何前缀或元注释。"@
}

/// Freestyle mode, step two: one action sentence from each advisor.
pub fn freestyle_action_prompt(rich_persona_prompt: &str, raw_input: &str, defined: &str, consensus_block: &str) -> (r: String)
    ensures
        r@ == freestyle_action_text(rich_persona_prompt@, raw_input@, defined@, consensus_block@),
{
    let mut r = owned("FULL PERSONA DETAILS:\n\n");
    r.append(rich_persona_prompt);
    r.append("\n\n---\n\n## 案主原始问题\n");
    r.append(raw_input);
    r.append("\n\n## 锁定的核心议题\n");
    r.append(defined);
    r.append("\n\n## 主持人提炼的共识与张力\n");
    r.append(consensus_block);
    r.append("\n\n---\n\n请你以**自己的 voice** 给出**一句行动建议**。规则：\n\n1. **≤ 50 个汉字**——一句话，硬上限\n2. 直接动词开头，告诉案主\"做什么\"\n3. 不解释、不展开、不给若干选项；选一条你最相信的\n4. 不要重复主持人的共识——你给的是接下来的下一步\n5. 不要 \"X 或 Y\" 这种二选一句式——你必须押注一个方向\n6. 你的 voice 还在——用你独特的视角说，别变成模板\n\n直接输出这一句话，不要任何前缀或元注释。");
    r
}

/// Text of `persona_follow_up_prompt`.
pub open spec fn persona_follow_up_text(rich_persona_prompt: Seq<char>, raw_input: Seq<char>, defined: Seq<char>, prior_opinion: Seq<char>, user_question: Seq<char>) -> Seq<char> {
    "FULL PERSONA DETAILS:\n\n"@ + rich_persona_prompt + "\n\n---\n\n## 案主原始问题\n"@ + raw_input + "\n\n## 锁定的核心议题\n"@ + defined + "\n\n## 你（"@ + speaker_in(rich_persona_prompt) + "）刚刚在 Step 4 给出的发言\n"@ + prior_opinion + "\n\n---\n\n## 案主追问\n"@ + user_question + "\n\n---\n\n请你以**自己的 voice** 回应这一个具体追问。规则：\n\n1. 只回应这一个问题，不发散到其他视角\n2. **≤ 80 个汉字**，一气呵成，不分段、不列清单\n3. 视角与你 Step 4 的发言一致——不要换框架、不要\"重新考虑\"、不要装中立\n4. 不给\"建议清单\"，给一句你自己的看法\n5. 不重复你之前说过的整段话——案主已经看过了；要给增量信息或更深一层的视角\n\n直接输出你的回应文字，不要任何前缀或元注释。"@
}

/// Per-bubble follow-up: the advisor answers one question in its own voice, in at most 80 characters.
pub fn persona_follow_up_prompt(rich_persona_prompt: &str, raw_input: &str, defined: &str, prior_opinion: &str, user_question: &str) -> (r: String)
    ensures
        r@ == persona_follow_up_text(rich_persona_prompt@, raw_input@, defined@, prior_opinion@, user_question@),
{
    let speaker = speaker_of(rich_persona_prompt);
    let mut r = owned("FULL PERSONA DETAILS:\n\n");
    r.append(rich_persona_prompt);
    r.append("\n\n---\n\n## 案主原始问题\n");
    r.append(raw_input);
    r.append("\n\n## 锁定的核心议题\n");
    r.append(defined);
    r.append("\n\n## 你（");
    r.append(speaker.as_str());
    r.append("）刚刚在 Step 4 给出的发言\n");
    r.append(prior_opinion);
    r.append("\n\n---\n\n## 案主追问\n");
    r.append(user_question);
    r.append("\n\n---\n\n请你以**自己的 voice** 回应这一个具体追问。规则：\n\n1. 只回应这一个问题，不发散到其他视角\n2. **≤ 80 个汉字**，一气呵成，不分段、不列清单\n3. 视角与你 Step 4 的发言一致——不要换框架、不要\"重新考虑\"、不要装中立\n4. 不给\"建议清单\"，给一句你自己的看法\n5. 不重复你之前说过的整段话——案主已经看过了；要给增量信息或更深一层的视角\n\n直接输出你的回应文字，不要任何前缀或元注释。");
    r
}

/// Text of `classify_question_prompt`.
pub open spec fn classify_question_text(question: Seq<char>) -> Seq<char> {
    "将以下案主问题归入这 10 个类目中最贴切的一个，只输出类目名称（不要解释、不要标点、不要前后缀）：\n\n候选类目：\n- 创业/产品决策\n- 人生转型/方向\n- 关系/婚恋/家庭\n- 组织/管理\n- 存在/身份/意义\n- 商业/谈判/博弈\n- 政治/宏观/公共\n- 学习/认知/方法论\n- 健康/身体/疾病\n- 其他\n\n## 案主问题\n"@ + question + "\n\n输出格式：仅一个类目名称，例如：创业/产品决策"@
}

/// Classify a case question into one of ten categories.
pub fn classify_question_prompt(question: &str) -> (r: String)
    ensures
        r@ == classify_question_text(question@),
{
    let mut r = owned("将以下案主问题归入这 10 个类目中最贴切的一个，只输出类目名称（不要解释、不要标点、不要前后缀）：\n\n候选类目：\n- 创业/产品决策\n- 人生转型/方向\n- 关系/婚恋/家庭\n- 组织/管理\n- 存在/身份/意义\n- 商业/谈判/博弈\n- 政治/宏观/公共\n- 学习/认知/方法论\n- 健康/身体/疾病\n- 其他\n\n## 案主问题\n");
    r.append(question);
    r.append("\n\n输出格式：仅一个类目名称，例如：创业/产品决策");
    r
}

/// Text of `facts_history_section`.
pub open spec fn facts_history_text(previous_qa: Seq<char>) -> Seq<char> {
    if previous_qa.len() == 0 {
        Seq::empty()
    } else {
        "\n\n## Previous Questions & Answers\n"@ + previous_qa + "\n\n(Note: do not repeat questions already asked)"@
    }
}

/// The earlier questions and answers, with a note not to repeat them;
/// nothing when there are none.
pub fn facts_history_section(previous_qa: &str) -> (r: String)
    ensures
        r@ == facts_history_text(previous_qa@),
{
    if previous_qa.is_empty() {
        String::new()
    } else {
        let mut r = owned("\n\n## Previous Questions & Answers\n");
        r.append(previous_qa);
        r.append("\n\n(Note: do not repeat questions already asked)");
        r
    }
}

/// Text of `persona_suggestion_prompt`.
pub open spec fn persona_suggestion_text(raw_input: Seq<char>, available: Seq<(Seq<char>, Seq<char>, Seq<char>)>) -> Seq<char> {
    "## 你的角色\n你是私董会的主持人。案主刚把问题写下来（见下方「## 案主问题」）。你的任务是从候选幕僚名单里，挑 3-6 位最能帮上忙的幕僚。\n\n## 规则（务必遵守）\n1. 只能从「## 候选幕僚名单」里挑，不允许发明新幕僚。\n2. 使用候选名单里给出的 slug 字符串（反引号内的那串），原样返回，不要翻译成中文名。\n3. 挑选数量必须在 3 到 6 之间。\n4. 挑选时要考虑互补视角（不要全挑同一类型的幕僚），并优先匹配问题本身需要的专长。\n5. reasoning 用中文写，两到三句话说明你为什么挑这几位、他们合起来能覆盖什么角度。\n\n## 输出格式（严格 JSON，不要加任何解释文字，不要用 markdown 代码块包裹）\n{\n  \"recommended_slugs\": [\"slug-a\", \"slug-b\", \"slug-c\"],\n  \"reasoning\": \"一两句话说明挑选这几位的理由\"\n}\n\n## 候选幕僚名单\n"@ + roster(available) + "\n\n## 案主问题\n"@ + raw_input + "\n\n再次强调：只输出合法 JSON，不要任何前缀或后缀文字。slug 必须来自候选名单。"@
}

/// Ask the facilitator to recommend 3–6 advisors from the allowed roster
/// (slug, name, tagline) for this question, as strict JSON.
pub fn persona_suggestion_prompt(raw_input: &str, available: &[(String, String, String)]) -> (r: String)
    ensures
        r@ == persona_suggestion_text(raw_input@, triple_views(available@)),
{
    let roster = build_roster(available);
    let mut r = owned("## 你的角色\n你是私董会的主持人。案主刚把问题写下来（见下方「## 案主问题」）。你的任务是从候选幕僚名单里，挑 3-6 位最能帮上忙的幕僚。\n\n## 规则（务必遵守）\n1. 只能从「## 候选幕僚名单」里挑，不允许发明新幕僚。\n2. 使用候选名单里给出的 slug 字符串（反引号内的那串），原样返回，不要翻译成中文名。\n3. 挑选数量必须在 3 到 6 之间。\n4. 挑选时要考虑互补视角（不要全挑同一类型的幕僚），并优先匹配问题本身需要的专长。\n5. reasoning 用中文写，两到三句话说明你为什么挑这几位、他们合起来能覆盖什么角度。\n\n## 输出格式（严格 JSON，不要加任何解释文字，不要用 markdown 代码块包裹）\n{\n  \"recommended_slugs\": [\"slug-a\", \"slug-b\", \"slug-c\"],\n  \"reasoning\": \"一两句话说明挑选这几位的理由\"\n}\n\n## 候选幕僚名单\n");
    r.append(roster.as_str());
    r.append("\n\n## 案主问题\n");
    r.append(raw_input);
    r.append("\n\n再次强调：只输出合法 JSON，不要任何前缀或后缀文字。slug 必须来自候选名单。");
    r
}

} // verus!
