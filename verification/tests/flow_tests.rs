use counsel::counsel::DefineState;
use counsel::flow::{
    appended_opinion, cache_file, define_action, define_after_draft, evals_markdown,
    follow_up_ok, harvest_source, keep_question, opinion_filename, plan_step, qa_block,
    sections_md, single_advisor_marker, DefineAction, StepPlan, invalid_step_message,
};

#[test]
fn define_first_call_drafts_then_confirmation_locks() {
    assert!(matches!(define_action(&DefineState::Init, None), DefineAction::Draft));
    let st = define_after_draft(false, 1, "核心问题：X".to_string());
    match &st {
        DefineState::Confirming { attempt, draft } => {
            assert_eq!(*attempt, 1);
            assert_eq!(draft, "核心问题：X");
        }
        _ => panic!("expected Confirming(1)"),
    }
    match define_action(&st, Some(" OK ")) {
        DefineAction::Lock { draft } => assert_eq!(draft, "核心问题：X"),
        _ => panic!("expected lock"),
    }
}

#[test]
fn define_correction_then_force_lock() {
    let c1 = DefineState::Confirming { attempt: 1, draft: "d1".into() };
    match define_action(&c1, Some("不对，我的问题是关于投资")) {
        DefineAction::Correct { previous, correction } => {
            assert_eq!(previous, "d1");
            assert_eq!(correction, "不对，我的问题是关于投资");
        }
        _ => panic!("expected correction"),
    }
    let c2 = define_after_draft(false, 2, "d2".into());
    match define_action(&c2, Some("还是不对")) {
        DefineAction::Lock { draft } => assert_eq!(draft, "d2"),
        _ => panic!("expected forced lock"),
    }
    assert!(matches!(define_action(&DefineState::Locked, Some("x")), DefineAction::ReturnLocked));
    assert!(matches!(define_action(&c1, None), DefineAction::Invalid));
    assert!(matches!(define_after_draft(true, 1, "d".into()), DefineState::Locked));
}

#[test]
fn step_plans() {
    assert!(matches!(plan_step(1, None, false, 3), StepPlan::MarkRawInput));
    assert!(matches!(plan_step(3, Some("answers"), true, 3), StepPlan::SaveAnswers));
    assert!(matches!(plan_step(3, Some(""), true, 3), StepPlan::Cached));
    assert!(matches!(plan_step(3, None, false, 3), StepPlan::RunFacts));
    assert!(matches!(plan_step(5, None, false, 1), StepPlan::SkipSingleAdvisor));
    assert!(matches!(plan_step(6, None, true, 2), StepPlan::Cached));
    assert!(matches!(plan_step(6, None, false, 2), StepPlan::RunDebate));
    assert!(matches!(plan_step(7, None, false, 2), StepPlan::RunPremortemAndSummary));
    assert!(matches!(plan_step(9, None, false, 2), StepPlan::Invalid));
    assert_eq!(cache_file(8), Some("07-harvest.md"));
    assert_eq!(cache_file(4), None);
    assert_eq!(single_advisor_marker(6).0, "05-debate.md");
    assert_eq!(invalid_step_message(12), "Invalid step: 12");
}

#[test]
fn questions_and_answers() {
    assert_eq!(keep_question("  n/a "), None);
    assert_eq!(keep_question("   "), None);
    assert_eq!(keep_question(" 你有多少资源？ ").as_deref(), Some("你有多少资源？"));
    assert_eq!(qa_block("PG", "Q?", " A. "), "\n\n## PG Questions\nQ?\n\n## Client's Answer\nA.\n");
}

#[test]
fn sections_and_files() {
    let pairs = vec![("A".to_string(), " x ".to_string()), ("B".to_string(), "y".to_string())];
    assert_eq!(sections_md(&pairs, false), "## A\n x \n\n## B\ny");
    assert_eq!(sections_md(&pairs, true), "## A\nx\n\n## B\ny");
    assert_eq!(sections_md(&vec![], true), "");
    assert_eq!(opinion_filename("Paul Graham Jr"), "03-opinions/Paul-Graham-Jr.md");
    assert!(follow_up_ok(" 为什么 "));
    assert!(!follow_up_ok(" 嗯 "));
    assert_eq!(
        appended_opinion("opinion \n", "2026-01-01 10:00", "why?", "<think>x</think> because "),
        "opinion\n\n### 用户追问 (2026-01-01 10:00)\nwhy?\n\n### 回应\nbecause\n"
    );
    assert_eq!(harvest_source(String::new(), "debate".into(), "ops".into()), "debate");
    assert_eq!(harvest_source("sum".into(), "debate".into(), "ops".into()), "sum");
    assert_eq!(evals_markdown(&vec![("A".into(), "ok".into())]), "# 幕僚对案主的观察与评价\n\n## A\n\nok\n\n---\n\n");
}
