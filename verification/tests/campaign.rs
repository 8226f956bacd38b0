use eva_runtime::contracts::{DeniedMutationKind, MutationKind, TaskContract};
use eva_runtime::evolution::autonomy::AutonomyStatus;
use eva_runtime::evolution::campaign::{
    check_campaign_admission, new_campaign, render_campaign_markdown, CampaignBlockerCount,
};

fn task() -> TaskContract {
    TaskContract {
        task_id: "t1".to_string(),
        title_ru: "т".to_string(),
        goal_ru: "g".to_string(),
        allowed_targets: vec!["tests/*".to_string()],
        forbidden_targets: vec!["src/core/*".to_string()],
        preferred_objectives: Vec::new(),
        allowed_mutation_kinds: vec![MutationKind::AddUnitTest, MutationKind::AddReplayAssertion],
        denied_mutation_kinds: vec![DeniedMutationKind::DeleteCode],
        cycles: 3,
        require_replay: true,
        require_benchmark: false,
        require_russian_report: true,
        auto_promote: false,
        source_corpus_id: None,
        created_at: 0,
    }
}

fn autonomy(level: u8, allowed: bool, max: usize) -> AutonomyStatus {
    AutonomyStatus {
        current_level: level,
        allowed_next_level: level,
        blockers: Vec::new(),
        required_metrics: Vec::new(),
        campaign_mode_allowed: allowed,
        max_campaign_cycles: max,
        level4_blockers: Vec::new(),
        current_safe_autonomy_level: level,
    }
}

#[test]
fn campaign_admission_errors() {
    assert_eq!(
        check_campaign_admission(&task(), &autonomy(2, true, 10), true).unwrap_err(),
        "campaign mode is blocked by autonomy gate"
    );
    assert_eq!(
        check_campaign_admission(&task(), &autonomy(3, false, 10), true).unwrap_err(),
        "campaign mode is blocked by autonomy gate"
    );
    assert_eq!(
        check_campaign_admission(&task(), &autonomy(3, true, 2), true).unwrap_err(),
        "campaign cycles exceed autonomy limit: 3 > 2"
    );
    let mut t = task();
    t.require_benchmark = true;
    assert_eq!(
        check_campaign_admission(&t, &autonomy(3, true, 3), false).unwrap_err(),
        "task requires benchmark history before campaign run"
    );
    assert!(check_campaign_admission(&t, &autonomy(3, true, 3), true).is_ok());
}

#[test]
fn campaign_report_in_full() {
    let mut c = new_campaign("t1", 100);
    c.total_cycles = 3;
    c.useful_candidates = 1;
    c.replay_attempted = 1;
    c.replay_failed = 1;
    c.blocker_counts = vec![CampaignBlockerCount { blocker: "replay_failed".to_string(), count: 1 }];
    c.candidate_run_ids = vec!["r1".to_string()];
    let md = render_campaign_markdown(&task(), &c, "0.20");
    assert_eq!(
        md,
        "# Campaign EVA\n\n## Цель задачи\ng\n\n## Ограничения\ncycles=3 max_risk=0.20 require_replay=true auto_promote=false\nallowed_targets=[\"tests/*\"]\nallowed_kinds=[AddUnitTest, AddReplayAssertion]\n\n## Количество циклов\n3\n\n## Найденные кандидаты\nПолезных кандидатов: 1\nГотовых к promotion-review: 0\n\n## Replay\nПопыток: 1\nПройдено: 0\nНе пройдено: 1\n\n## Причины отказа по кандидатам\n- replay_failed: 1\n\n## Готовые к promotion кандидаты\nr1\n\n## Риски\nforbidden_mutations=0 sandbox_leaks=0 duplicate_rejections=0\n\n## Итог EVA\nЕва выполнила 3 sandbox-циклов. Найдено 1 полезных кандидата(ов), 0 прошли replay. Promotion автоматически не выполнялся.\n\n## Рекомендация следующего шага\nНужно накопить replay-подтверждённые полезные кандидаты без критических blockers."
    );
}

#[test]
fn an_empty_campaign_reports_no_blockers_and_lists_at_most_five_ready_runs() {
    let mut c = new_campaign("t1", 0);
    let md = render_campaign_markdown(&task(), &c, "0.10");
    assert!(md.contains("## Причины отказа по кандидатам\nНет явных blocker reason по кандидатам.\n"));
    assert!(md.contains("## Готовые к promotion кандидаты\nНет кандидатов для ручного promotion-review.\n"));
    c.candidate_run_ids = (1..=7).map(|i| format!("r{i}")).collect();
    c.promotion_ready_candidates = 2;
    let md = render_campaign_markdown(&task(), &c, "0.10");
    assert!(md.contains("\nr1, r2, r3, r4, r5\n"));
    assert!(md.ends_with("Рекомендуется вручную рассмотреть replay-подтверждённые кандидаты через --review-candidate."));
}
