use counsel::fingerprint::{extract, fingerprint_of_lowercase};

#[test]
fn empty_text_produces_defaults() {
    let fp = extract("");
    assert_eq!(fp.time, 0);
    assert_eq!(fp.resource, 0);
    assert_eq!(fp.info_completeness, 10);
    assert_eq!(fp.cost_asymmetry, "symmetric");
}

#[test]
fn time_pressure_detected() {
    let fp = extract("下周一就是deadline，我来不及准备");
    assert!(fp.time >= 4, "time should fire, got {}", fp.time);
}

#[test]
fn survival_pressure_detected() {
    let fp = extract("公司快要倒闭了，再撑不住就得关门");
    assert!(fp.survival >= 4, "survival should fire, got {}", fp.survival);
}

#[test]
fn social_pressure_detected() {
    let fp = extract("家人都反对我创业，妻子也不支持");
    assert!(fp.social >= 2, "social should fire, got {}", fp.social);
}

#[test]
fn identity_crisis_detected() {
    let fp = extract("我到底是谁？人生方向在哪里？");
    assert!(fp.identity >= 2);
}

#[test]
fn info_completeness_inverted() {
    let fp_deficit = extract("不知道该怎么办，没想清楚");
    let fp_clear = extract("我已经研究过所有选项");
    assert!(fp_deficit.info_completeness < fp_clear.info_completeness);
}

#[test]
fn extreme_asymmetry_detected() {
    let fp = extract("这次我打算all in，破釜沉舟");
    assert_eq!(fp.cost_asymmetry, "extreme");
}

#[test]
fn downside_dominant_asymmetry() {
    let fp = extract("风险很大，可能损失所有投入的成本");
    assert_eq!(fp.cost_asymmetry, "downside");
}

#[test]
fn multi_axis_fires_simultaneously() {
    let fp = extract("deadline下周就到了，家人都反对，公司快倒闭了，我焦虑得睡不着。");
    assert!(fp.time >= 2);
    assert!(fp.social >= 2);
    assert!(fp.survival >= 2);
    assert!(fp.emotional >= 2);
}

// Two points a keyword, exact values.
#[test]
fn scores_two_points_per_keyword() {
    let fp = extract("下周一就是deadline，我来不及准备");
    assert_eq!(fp.time, 6);
    assert_eq!(fp.resource, 0);
}

// The score is capped at ten however many keywords hit.
#[test]
fn score_is_capped_at_ten() {
    let fp = extract("截止 deadline 紧迫 来不及 明天 下周 本月底 倒计时");
    assert_eq!(fp.time, 10);
}

// Uppercase keywords match after lowercasing.
#[test]
fn keywords_match_case_insensitively() {
    let fp = extract("URGENT DEADLINE");
    assert_eq!(fp.time, 4);
}

#[test]
fn upside_dominant_asymmetry() {
    let fp = extract("这是一个难得的机会，窗口期很短");
    assert_eq!(fp.cost_asymmetry, "upside");
}

#[test]
fn balanced_asymmetry_is_symmetric() {
    let fp = extract("机会和风险并存");
    assert_eq!(fp.cost_asymmetry, "symmetric");
}

#[test]
fn every_axis_at_most_ten() {
    let t = "截止 deadline 紧迫 来不及 明天 下周 没钱 预算 资金 缺钱 融资 烧钱 倒闭 破产 失业 生存 活下去 不知道 没想清楚 信息不足 看不清 数据不够 没调研";
    let chars: Vec<char> = t.chars().collect();
    let fp = fingerprint_of_lowercase(&chars);
    for v in [fp.time, fp.resource, fp.survival, fp.uncertainty, fp.info_completeness] {
        assert!(v <= 10);
    }
    assert_eq!(fp.info_completeness, 0);
}
