//! Runtime pressure-fingerprint extraction: each of the thirteen pressure
//! axes of a case text is scored 0–10 by counting the axis keywords that occur
//! in the lowercased text (two points a keyword, at most ten), and a
//! cost-asymmetry label is picked from upside, downside and all-in keywords.

use vstd::prelude::*;

use crate::markdown::str_views;
use crate::text::{chars_of, contains, contains_exec, lowercase, owned, to_lowercase_vec};
use crate::wisdom::PressureFingerprint;

verus! {

// ---------------------------------------------------------------------------
// Keyword lists
// ---------------------------------------------------------------------------

pub open spec fn kw_time() -> Seq<Seq<char>> {
    seq!["截止"@, "deadline"@, "紧迫"@, "来不及"@, "明天"@, "下周"@, "本月底"@, "倒计时"@, "马上"@, "立刻"@, "urgent"@, "赶时间"@]
}

pub open spec fn kw_resource() -> Seq<Seq<char>> {
    seq!["没钱"@, "预算"@, "资金"@, "缺钱"@, "融资"@, "烧钱"@, "budget"@, "cash"@, "资源不足"@, "人手不够"@, "招不到"@]
}

pub open spec fn kw_survival() -> Seq<Seq<char>> {
    seq!["倒闭"@, "破产"@, "失业"@, "生存"@, "活下去"@, "撑不住"@, "关门"@, "裁员"@, "bankrupt"@, "shut down"@, "失去工作"@]
}

pub open spec fn kw_competition() -> Seq<Seq<char>> {
    seq!["竞争对手"@, "对手"@, "抢市场"@, "同行"@, "被超越"@, "红海"@, "内卷"@, "competition"@, "rival"@, "被挤压"@]
}

pub open spec fn kw_social() -> Seq<Seq<char>> {
    seq!["家人"@, "父母"@, "妻子"@, "丈夫"@, "配偶"@, "孩子"@, "老婆"@, "老公"@, "家里人"@, "爸妈"@, "亲人"@, "朋友"@, "spouse"@, "family"@, "parents"@]
}

pub open spec fn kw_uncertainty() -> Seq<Seq<char>> {
    seq!["不确定"@, "不知道"@, "看不清"@, "迷茫"@, "模糊"@, "说不准"@, "没把握"@, "uncertain"@, "unclear"@, "confused"@, "乱"@]
}

pub open spec fn kw_identity() -> Seq<Seq<char>> {
    seq!["我是谁"@, "身份"@, "使命"@, "天命"@, "人生方向"@, "自我价值"@, "意义感"@, "purpose"@, "identity"@, "who am i"@, "定位"@]
}

pub open spec fn kw_emotional() -> Seq<Seq<char>> {
    seq!["焦虑"@, "抑郁"@, "痛苦"@, "恐惧"@, "害怕"@, "睡不着"@, "崩溃"@, "抓狂"@, "anxious"@, "depressed"@, "stressed"@, "情绪"@]
}

pub open spec fn kw_moral() -> Seq<Seq<char>> {
    seq!["道德"@, "良心"@, "正确"@, "对错"@, "原则"@, "底线"@, "ethics"@, "moral"@, "对不起"@, "愧疚"@, "罪恶感"@]
}

pub open spec fn kw_face() -> Seq<Seq<char>> {
    seq!["面子"@, "丢脸"@, "尊严"@, "体面"@, "难堪"@, "颜面"@, "face"@, "dignity"@, "被笑话"@, "shame"@]
}

pub open spec fn kw_isolation() -> Seq<Seq<char>> {
    seq!["孤独"@, "没人懂"@, "独自"@, "只有我"@, "没人商量"@, "一个人扛"@, "alone"@, "lonely"@, "没人支持"@]
}

pub open spec fn kw_irreversibility() -> Seq<Seq<char>> {
    seq!["不可逆"@, "一锤子"@, "无法回头"@, "一次机会"@, "没有退路"@, "赌一把"@, "irreversible"@, "permanent"@, "no way back"@]
}

pub open spec fn kw_info_deficit() -> Seq<Seq<char>> {
    seq!["不知道"@, "没想清楚"@, "信息不足"@, "看不清"@, "数据不够"@, "没调研"@, "unclear"@, "don't know"@]
}

pub open spec fn kw_upside() -> Seq<Seq<char>> {
    seq!["机会"@, "窗口"@, "红利"@, "爆发"@, "增长潜力"@, "opportunity"@, "upside"@]
}

pub open spec fn kw_downside() -> Seq<Seq<char>> {
    seq!["风险"@, "损失"@, "代价"@, "亏损"@, "downside"@, "loss"@, "risk"@]
}

pub open spec fn kw_extreme() -> Seq<Seq<char>> {
    seq!["all in"@, "all-in"@, "压上"@, "赌上"@, "倾家荡产"@, "破釜沉舟"@]
}

fn time_keywords() -> (r: Vec<&'static str>)
    ensures
        str_views(r@) == kw_time(),
{
    let r: Vec<&'static str> = vec!["截止", "deadline", "紧迫", "来不及", "明天", "下周", "本月底", "倒计时", "马上", "立刻", "urgent", "赶时间"];
    assert(str_views(r@) =~= kw_time());
    r
}

fn resource_keywords() -> (r: Vec<&'static str>)
    ensures
        str_views(r@) == kw_resource(),
{
    let r: Vec<&'static str> = vec!["没钱", "预算", "资金", "缺钱", "融资", "烧钱", "budget", "cash", "资源不足", "人手不够", "招不到"];
    assert(str_views(r@) =~= kw_resource());
    r
}

fn survival_keywords() -> (r: Vec<&'static str>)
    ensures
        str_views(r@) == kw_survival(),
{
    let r: Vec<&'static str> = vec!["倒闭", "破产", "失业", "生存", "活下去", "撑不住", "关门", "裁员", "bankrupt", "shut down", "失去工作"];
    assert(str_views(r@) =~= kw_survival());
    r
}

fn competition_keywords() -> (r: Vec<&'static str>)
    ensures
        str_views(r@) == kw_competition(),
{
    let r: Vec<&'static str> = vec!["竞争对手", "对手", "抢市场", "同行", "被超越", "红海", "内卷", "competition", "rival", "被挤压"];
    assert(str_views(r@) =~= kw_competition());
    r
}

fn social_keywords() -> (r: Vec<&'static str>)
    ensures
        str_views(r@) == kw_social(),
{
    let r: Vec<&'static str> = vec!["家人", "父母", "妻子", "丈夫", "配偶", "孩子", "老婆", "老公", "家里人", "爸妈", "亲人", "朋友", "spouse", "family", "parents"];
    assert(str_views(r@) =~= kw_social());
    r
}

fn uncertainty_keywords() -> (r: Vec<&'static str>)
    ensures
        str_views(r@) == kw_uncertainty(),
{
    let r: Vec<&'static str> = vec!["不确定", "不知道", "看不清", "迷茫", "模糊", "说不准", "没把握", "uncertain", "unclear", "confused", "乱"];
    assert(str_views(r@) =~= kw_uncertainty());
    r
}

fn identity_keywords() -> (r: Vec<&'static str>)
    ensures
        str_views(r@) == kw_identity(),
{
    let r: Vec<&'static str> = vec!["我是谁", "身份", "使命", "天命", "人生方向", "自我价值", "意义感", "purpose", "identity", "who am i", "定位"];
    assert(str_views(r@) =~= kw_identity());
    r
}

fn emotional_keywords() -> (r: Vec<&'static str>)
    ensures
        str_views(r@) == kw_emotional(),
{
    let r: Vec<&'static str> = vec!["焦虑", "抑郁", "痛苦", "恐惧", "害怕", "睡不着", "崩溃", "抓狂", "anxious", "depressed", "stressed", "情绪"];
    assert(str_views(r@) =~= kw_emotional());
    r
}

fn moral_keywords() -> (r: Vec<&'static str>)
    ensures
        str_views(r@) == kw_moral(),
{
    let r: Vec<&'static str> = vec!["道德", "良心", "正确", "对错", "原则", "底线", "ethics", "moral", "对不起", "愧疚", "罪恶感"];
    assert(str_views(r@) =~= kw_moral());
    r
}

fn face_keywords() -> (r: Vec<&'static str>)
    ensures
        str_views(r@) == kw_face(),
{
    let r: Vec<&'static str> = vec!["面子", "丢脸", "尊严", "体面", "难堪", "颜面", "face", "dignity", "被笑话", "shame"];
    assert(str_views(r@) =~= kw_face());
    r
}

fn isolation_keywords() -> (r: Vec<&'static str>)
    ensures
        str_views(r@) == kw_isolation(),
{
    let r: Vec<&'static str> = vec!["孤独", "没人懂", "独自", "只有我", "没人商量", "一个人扛", "alone", "lonely", "没人支持"];
    assert(str_views(r@) =~= kw_isolation());
    r
}

fn irreversibility_keywords() -> (r: Vec<&'static str>)
    ensures
        str_views(r@) == kw_irreversibility(),
{
    let r: Vec<&'static str> = vec!["不可逆", "一锤子", "无法回头", "一次机会", "没有退路", "赌一把", "irreversible", "permanent", "no way back"];
    assert(str_views(r@) =~= kw_irreversibility());
    r
}

fn info_deficit_keywords() -> (r: Vec<&'static str>)
    ensures
        str_views(r@) == kw_info_deficit(),
{
    let r: Vec<&'static str> = vec!["不知道", "没想清楚", "信息不足", "看不清", "数据不够", "没调研", "unclear", "don't know"];
    assert(str_views(r@) =~= kw_info_deficit());
    r
}

fn upside_keywords() -> (r: Vec<&'static str>)
    ensures
        str_views(r@) == kw_upside(),
{
    let r: Vec<&'static str> = vec!["机会", "窗口", "红利", "爆发", "增长潜力", "opportunity", "upside"];
    assert(str_views(r@) =~= kw_upside());
    r
}

fn downside_keywords() -> (r: Vec<&'static str>)
    ensures
        str_views(r@) == kw_downside(),
{
    let r: Vec<&'static str> = vec!["风险", "损失", "代价", "亏损", "downside", "loss", "risk"];
    assert(str_views(r@) =~= kw_downside());
    r
}

fn extreme_keywords() -> (r: Vec<&'static str>)
    ensures
        str_views(r@) == kw_extreme(),
{
    let r: Vec<&'static str> = vec!["all in", "all-in", "压上", "赌上", "倾家荡产", "破釜沉舟"];
    assert(str_views(r@) =~= kw_extreme());
    r
}

// ---------------------------------------------------------------------------
// Scoring
// ---------------------------------------------------------------------------

/// How many of the first `n` keywords occur in `t`.
pub open spec fn hits_upto(t: Seq<char>, kws: Seq<Seq<char>>, n: int) -> int
    decreases n,
{
    if n <= 0 || n > kws.len() {
        0
    } else {
        hits_upto(t, kws, n - 1) + if contains(t, kws[n - 1]) {
            1int
        } else {
            0int
        }
    }
}

/// How many keywords occur in `t`.
pub open spec fn hits(t: Seq<char>, kws: Seq<Seq<char>>) -> int {
    hits_upto(t, kws, kws.len() as int)
}

/// Axis score: two points a keyword hit, at most ten.
pub open spec fn score(t: Seq<char>, kws: Seq<Seq<char>>) -> int {
    if 2 * hits(t, kws) < 10 {
        2 * hits(t, kws)
    } else {
        10
    }
}

pub open spec fn at_least_one(n: int) -> int {
    if n < 1 {
        1
    } else {
        n
    }
}

/// Cost-asymmetry label of a lowercased text.
pub open spec fn asymmetry(t: Seq<char>) -> Seq<char> {
    let up = hits(t, kw_upside());
    let down = hits(t, kw_downside());
    if hits(t, kw_extreme()) > 0 {
        "extreme"@
    } else if down >= 2 * at_least_one(up) {
        "downside"@
    } else if up >= 2 * at_least_one(down) {
        "upside"@
    } else {
        "symmetric"@
    }
}

/// `fp` is the fingerprint of the lowercased text `t`.
pub open spec fn fingerprint_of(fp: PressureFingerprint, t: Seq<char>) -> bool {
    &&& fp.time == score(t, kw_time())
    &&& fp.resource == score(t, kw_resource())
    &&& fp.survival == score(t, kw_survival())
    &&& fp.competition == score(t, kw_competition())
    &&& fp.social == score(t, kw_social())
    &&& fp.uncertainty == score(t, kw_uncertainty())
    &&& fp.identity == score(t, kw_identity())
    &&& fp.emotional == score(t, kw_emotional())
    &&& fp.moral == score(t, kw_moral())
    &&& fp.face == score(t, kw_face())
    &&& fp.isolation == score(t, kw_isolation())
    &&& fp.irreversibility == score(t, kw_irreversibility())
    &&& fp.info_completeness == 10 - score(t, kw_info_deficit())
    &&& fp.cost_asymmetry@ == asymmetry(t)
}

proof fn lemma_hits_upto_bounds(t: Seq<char>, kws: Seq<Seq<char>>, n: int)
    requires
        0 <= n <= kws.len(),
    ensures
        0 <= hits_upto(t, kws, n) <= n,
    decreases n,
{
    if n > 0 {
        lemma_hits_upto_bounds(t, kws, n - 1);
    }
}

/// Every axis score lies between 0 and 10.
pub proof fn lemma_score_range(t: Seq<char>, kws: Seq<Seq<char>>)
    ensures
        0 <= score(t, kws) <= 10,
{
    lemma_hits_upto_bounds(t, kws, kws.len() as int);
}

/// Every axis of an extracted fingerprint, information completeness
/// included, lies between 0 and 10; information completeness falls by what
/// the deficit axis scores.
pub proof fn lemma_fingerprint_axes_capped(fp: PressureFingerprint, t: Seq<char>)
    requires
        fingerprint_of(fp, t),
    ensures
        fp.time <= 10 && fp.resource <= 10 && fp.survival <= 10 && fp.competition <= 10,
        fp.social <= 10 && fp.uncertainty <= 10 && fp.identity <= 10 && fp.emotional <= 10,
        fp.moral <= 10 && fp.face <= 10 && fp.isolation <= 10 && fp.irreversibility <= 10,
        fp.info_completeness <= 10,
        fp.info_completeness + score(t, kw_info_deficit()) == 10,
{
    lemma_score_range(t, kw_info_deficit());
}

/// Some keyword of `kws` occurs in `t`.
pub open spec fn mentions_any(t: Seq<char>, kws: Seq<Seq<char>>) -> bool {
    exists|i: int| 0 <= i < kws.len() && #[trigger] contains(t, kws[i])
}

proof fn lemma_hits_upto_positive(t: Seq<char>, kws: Seq<Seq<char>>, n: int)
    requires
        0 <= n <= kws.len(),
    ensures
        hits_upto(t, kws, n) > 0 <==> exists|i: int| 0 <= i < n && #[trigger] contains(t, kws[i]),
    decreases n,
{
    if n > 0 {
        lemma_hits_upto_positive(t, kws, n - 1);
        lemma_hits_upto_bounds(t, kws, n - 1);
    }
}

/// An axis scores above zero exactly when one of its own keywords occurs.
pub proof fn lemma_score_positive(t: Seq<char>, kws: Seq<Seq<char>>)
    ensures
        score(t, kws) > 0 <==> mentions_any(t, kws),
{
    lemma_hits_upto_positive(t, kws, kws.len() as int);
    lemma_hits_upto_bounds(t, kws, kws.len() as int);
}

/// Each axis of a fingerprint is scored by its own keyword list: it is above
/// zero exactly when one of that axis's keywords occurs in the text (so a
/// text with face keywords only, such as 丢脸 or 面子, scores on the face
/// axis and not on the moral one). Information completeness falls below ten
/// exactly when an information-deficit keyword occurs, and an all-in keyword
/// makes the cost asymmetry extreme.
pub proof fn lemma_axes_follow_their_keywords(fp: PressureFingerprint, t: Seq<char>)
    requires
        fingerprint_of(fp, t),
    ensures
        fp.time > 0 <==> mentions_any(t, kw_time()),
        fp.resource > 0 <==> mentions_any(t, kw_resource()),
        fp.survival > 0 <==> mentions_any(t, kw_survival()),
        fp.competition > 0 <==> mentions_any(t, kw_competition()),
        fp.social > 0 <==> mentions_any(t, kw_social()),
        fp.uncertainty > 0 <==> mentions_any(t, kw_uncertainty()),
        fp.identity > 0 <==> mentions_any(t, kw_identity()),
        fp.emotional > 0 <==> mentions_any(t, kw_emotional()),
        fp.moral > 0 <==> mentions_any(t, kw_moral()),
        fp.face > 0 <==> mentions_any(t, kw_face()),
        fp.isolation > 0 <==> mentions_any(t, kw_isolation()),
        fp.irreversibility > 0 <==> mentions_any(t, kw_irreversibility()),
        fp.info_completeness < 10 <==> mentions_any(t, kw_info_deficit()),
        fp.cost_asymmetry@ == "extreme"@ <== mentions_any(t, kw_extreme()),
{
    lemma_score_positive(t, kw_info_deficit());
    lemma_hits_upto_positive(t, kw_extreme(), kw_extreme().len() as int);
    lemma_score_positive(t, kw_time());
    lemma_score_positive(t, kw_resource());
    lemma_score_positive(t, kw_survival());
    lemma_score_positive(t, kw_competition());
    lemma_score_positive(t, kw_social());
    lemma_score_positive(t, kw_uncertainty());
    lemma_score_positive(t, kw_identity());
    lemma_score_positive(t, kw_emotional());
    lemma_score_positive(t, kw_moral());
    lemma_score_positive(t, kw_face());
    lemma_score_positive(t, kw_isolation());
    lemma_score_positive(t, kw_irreversibility());
}

fn count_hits(t: &[char], kws: &[&str]) -> (r: usize)
    ensures
        r == hits(t@, str_views(kws@)),
{
    let ghost kv = str_views(kws@);
    let mut n: usize = 0;
    let mut i: usize = 0;
    while i < kws.len()
        invariant
            i <= kws@.len(),
            kv == str_views(kws@),
            n == hits_upto(t@, kv, i as int),
            n <= i,
        decreases kws.len() - i,
    {
        assert(kv[i as int] == kws@[i as int]@);
        if contains_exec(t, &chars_of(kws[i])) {
            n = n + 1;
        }
        i = i + 1;
    }
    n
}

fn score_exec(t: &[char], kws: &[&str]) -> (r: u8)
    ensures
        r == score(t@, str_views(kws@)),
{
    let h = count_hits(t, kws);
    if h < 5 {
        (2 * h) as u8
    } else {
        10
    }
}

fn classify_asymmetry(t: &[char]) -> (r: String)
    ensures
        r@ == asymmetry(t@),
{
    let up = count_hits(t, &upside_keywords());
    let down = count_hits(t, &downside_keywords());
    let extreme = count_hits(t, &extreme_keywords());
    proof {
        lemma_hits_upto_bounds(t@, kw_upside(), kw_upside().len() as int);
        lemma_hits_upto_bounds(t@, kw_downside(), kw_downside().len() as int);
    }
    let up1: usize = if up < 1 {
        1
    } else {
        up
    };
    let down1: usize = if down < 1 {
        1
    } else {
        down
    };
    if extreme > 0 {
        owned("extreme")
    } else if down >= 2 * up1 {
        owned("downside")
    } else if up >= 2 * down1 {
        owned("upside")
    } else {
        owned("symmetric")
    }
}

/// The fingerprint of an already lowercased text.
pub fn fingerprint_of_lowercase(t: &[char]) -> (fp: PressureFingerprint)
    ensures
        fingerprint_of(fp, t@),
{
    let deficit = score_exec(t, &info_deficit_keywords());
    proof {
        lemma_score_range(t@, kw_info_deficit());
    }
    PressureFingerprint {
        time: score_exec(t, &time_keywords()),
        resource: score_exec(t, &resource_keywords()),
        survival: score_exec(t, &survival_keywords()),
        competition: score_exec(t, &competition_keywords()),
        social: score_exec(t, &social_keywords()),
        uncertainty: score_exec(t, &uncertainty_keywords()),
        identity: score_exec(t, &identity_keywords()),
        emotional: score_exec(t, &emotional_keywords()),
        moral: score_exec(t, &moral_keywords()),
        face: score_exec(t, &face_keywords()),
        isolation: score_exec(t, &isolation_keywords()),
        irreversibility: score_exec(t, &irreversibility_keywords()),
        info_completeness: 10 - deficit,
        cost_asymmetry: classify_asymmetry(t),
    }
}

/// Score a case text against the thirteen pressure axes: the text is
/// lowercased (`str::to_lowercase`) and then scored by keyword hits.
pub fn extract(text: &str) -> (fp: PressureFingerprint)
    ensures
        fingerprint_of(fp, lowercase(text@)),
{
    let t = to_lowercase_vec(&chars_of(text));
    fingerprint_of_lowercase(&t)
}

} // verus!
