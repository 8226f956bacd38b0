use eva_runtime::contracts::{EvolutionLogEntry, EvolutionStatus, MutationContract, MutationKind};
use eva_runtime::evolution::metrics::ReplayResult;
use eva_runtime::evolution::report_ru::{
    build_report, render_markdown, replay_info, synthetic_mutation, RecombinationNumbers, RiskLevel,
    RunNumbers,
};

fn entry(status: EvolutionStatus) -> EvolutionLogEntry {
    EvolutionLogEntry {
        run_id: "run-1".to_string(),
        plan_id: Some("plan:x".to_string()),
        hypothesis_id: None,
        objective: Some("ImproveTests".to_string()),
        selected_strategy: None,
        recombined_source_patterns: Vec::new(),
        recombined_avoided_risks: Vec::new(),
        recombination_reason_ru: None,
        portfolio_reason_ru: None,
        mutation_id: "m".to_string(),
        mutation_class: "test".to_string(),
        status,
        target_file: "tests/a.rs".to_string(),
        mutation_kind: "addunittest".to_string(),
        useful_change: true,
        non_candidate_reason: None,
        duplicate_rejected: false,
        cargo_check_ok: true,
        cargo_test_ok: true,
        cargo_run_ok: false,
        retained_in_core: false,
        sandbox_destroyed: true,
        timestamp_unix: 7,
    }
}

fn mutation() -> MutationContract {
    MutationContract {
        id: "m".to_string(),
        kind: MutationKind::AddUnitTest,
        target_file: "tests/a.rs".to_string(),
        search: None,
        replace: None,
        append: None,
        reason: "r".to_string(),
    }
}

fn numbers() -> RunNumbers {
    RunNumbers { score: "7.0".to_string(), risk: "0.10".to_string(), level: RiskLevel::Low }
}

fn zeros() -> RecombinationNumbers {
    RecombinationNumbers {
        diversity_bonus: "0.35".to_string(),
        saturation_penalty: "0.00".to_string(),
        repeated_target_penalty: "0.00".to_string(),
        final_recombination_score: "1.20".to_string(),
    }
}

#[test]
fn a_candidate_report_in_full() {
    let r = build_report(&entry(EvolutionStatus::Candidate), &mutation(), replay_info(&None), &numbers());
    let md = render_markdown(&r, &zeros());
    assert_eq!(
        md,
        "# Отчёт EVA\n\n## Цель\nЕва проверила безопасное усиление слоя тестов через sandbox-мутацию.\n\n## Гипотеза\nВыбран план plan:x с целью ImproveTests.\n\n## Мутация\nДобавлена bounded-мутация addunittest по причине: r.\nФайл: tests/a.rs\nТип: addunittest\n\n## Sandbox\nМутация была выполнена только в sandbox-копии проекта, после проверки sandbox удалён.\n\n## Проверка\n- cargo check: пройден\n- cargo test: пройден\n- cargo run -- --once: не пройден\n\n## Решение\nИзменение признано полезным кандидатом. В core изменение не применялось.\n\n## Повторное воспроизведение\nСтатус: не выполнялся\nReplay для этого запуска ещё не выполнялся.\nПроверено: нет\n\n## Риск\nНизкий. Риск мутации 0.10, target=tests/a.rs, duplicate_rejected=false.\n\n## Следующий шаг\nСледующий шаг: выполнить `cargo run -- --replay run-1` и затем при необходимости `cargo run -- --promote run-1`.\n"
    );
}

#[test]
fn a_passed_run_repeats_its_score_in_the_decision() {
    let mut e = entry(EvolutionStatus::Passed);
    e.useful_change = false;
    e.plan_id = None;
    e.objective = None;
    e.duplicate_rejected = true;
    let n = RunNumbers { score: "2.0".to_string(), risk: "0.40".to_string(), level: RiskLevel::Raised };
    let r = build_report(&e, &mutation(), replay_info(&None), &n);
    assert_eq!(r.goal_ru, "Ева проверила безопасное улучшение проекта через sandbox-мутацию.");
    assert_eq!(r.selected_plan_ru, "Выполнен базовый безопасный цикл self-evolution без ручной promotion.");
    assert_eq!(r.score_ru, "Итоговая оценка 2.0. Изменение классифицировано как неполезное.");
    assert_eq!(r.candidate_ru, format!("Изменение прошло проверки, но не стало кандидатом. {}", r.score_ru));
    assert_eq!(r.risk_ru, "Повышенный. Риск мутации 0.40, target=tests/a.rs, duplicate_rejected=true.");
    assert_eq!(r.sandbox_ru, "Мутация была отклонена до запуска sandbox, потому что совпала с ранее неудачной мутацией.");
    assert_eq!(r.next_step_ru, "Следующий шаг: усилить шаблон мутации или выбрать более полезный target.");
}

#[test]
fn replay_outcomes() {
    let mut replay = ReplayResult {
        run_id: "run-1".to_string(),
        replay_status: EvolutionStatus::Candidate,
        matches_stored_summary: true,
        cargo_check_ok: true,
        cargo_test_ok: true,
        cargo_run_ok: true,
        timestamp_unix: 42,
    };
    let ok = replay_info(&Some(replay.clone()));
    assert_eq!(ok.replay_status, "ok");
    assert_eq!(ok.replay_checked_at, Some(42));
    replay.replay_status = EvolutionStatus::Failed;
    let failed = replay_info(&Some(replay));
    assert_eq!(failed.replay_status, "failed");
    assert_eq!(failed.replay_ru, "Replay не пройден или не совпал с сохранённым summary.");
    let r = build_report(&entry(EvolutionStatus::Promoted), &mutation(), ok, &numbers());
    let md = render_markdown(&r, &zeros());
    assert!(md.contains("Статус: пройден\nReplay пройден и синхронизирован с сохранённым summary.\nПроверено: 42\n"));
    assert!(md.contains("Изменение прошло gate и было применено в core."));
}

#[test]
fn the_recombination_section_appears_when_there_is_something_to_say() {
    let mut e = entry(EvolutionStatus::Failed);
    e.hypothesis_id = Some("h1".to_string());
    e.recombined_source_patterns = vec!["p1".to_string(), "p2".to_string()];
    let r = build_report(&e, &mutation(), replay_info(&None), &numbers());
    let md = render_markdown(&r, &zeros());
    assert!(md.contains("Выбран план plan:x с целью ImproveTests.\n\n## Рекомбинация\nГипотеза: h1\nSource patterns: p1, p2\nAvoided risks: (none)\nПричина: нет\nPortfolio reason: нет\nDiversity bonus: 0.35\nSaturation penalty: 0.00\nRepeated target penalty: 0.00\nFinal recombination score: 1.20\n\n## Мутация\n"));
    assert!(md.contains("Изменение не прошло полный набор проверок и не было сохранено."));
}

#[test]
fn a_missing_mutation_is_reconstructed_from_the_log() {
    let mut e = entry(EvolutionStatus::Passed);
    e.mutation_kind = "unknown".to_string();
    let m = synthetic_mutation(&e);
    assert_eq!(m.kind, MutationKind::AppendComment);
    assert_eq!(m.reason, "reconstructed from evolution log");
    assert_eq!(m.target_file, "tests/a.rs");
    e.mutation_kind = "addmetricupdate".to_string();
    assert_eq!(synthetic_mutation(&e).kind, MutationKind::AddMetricUpdate);
}
