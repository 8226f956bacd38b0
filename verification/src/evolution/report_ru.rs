//! The Russian report of an evolution run: what was tried, how it was
//! checked, what was decided and what comes next.
use vstd::prelude::*;

use crate::contracts::{EvolutionLogEntry, EvolutionStatus, MutationContract, MutationKind};
use crate::evolution::metrics::ReplayResult;
use crate::text::{
    bool_text, decimal, join_or, join_or_strings, owned, push_bool, push_decimal, push_str, views,
};

verus! {

/// How risky a run's mutation was, from its risk: at most 0.15 low, at most
/// 0.35 medium, above that raised.
#[derive(Clone, Copy, Debug, PartialEq, Eq, Structural)]
pub enum RiskLevel {
    Low,
    Medium,
    Raised,
}

/// The numbers of a run as the report writes them: its score with one
/// decimal, its risk with two, and its risk level.
#[derive(Clone, Debug)]
pub struct RunNumbers {
    pub score: String,
    pub risk: String,
    pub level: RiskLevel,
}

/// The recombination terms of a report, each written with two decimals.
#[derive(Clone, Debug)]
pub struct RecombinationNumbers {
    pub diversity_bonus: String,
    pub saturation_penalty: String,
    pub repeated_target_penalty: String,
    pub final_recombination_score: String,
}

/// What the replay of a run established.
#[derive(Clone, Debug)]
pub struct ReplayInfo {
    pub replay_ru: String,
    pub replay_status: String,
    pub replay_checked_at: Option<u64>,
}

/// The report of a run. Its recombination terms travel beside it as numbers.
#[derive(Clone, Debug)]
pub struct EvolutionReport {
    pub run_id: String,
    pub status: EvolutionStatus,
    pub goal_ru: String,
    pub selected_plan_ru: String,
    pub mutation_ru: String,
    pub target_file: String,
    pub mutation_kind: String,
    pub hypothesis_id: Option<String>,
    pub source_patterns: Vec<String>,
    pub avoided_risks: Vec<String>,
    pub recombination_reason_ru: Option<String>,
    pub portfolio_reason_ru: Option<String>,
    pub sandbox_ru: String,
    pub checks_ru: String,
    pub score_ru: String,
    pub candidate_ru: String,
    pub replay_ru: String,
    pub replay_status: String,
    pub replay_checked_at: Option<u64>,
    pub risk_ru: String,
    pub next_step_ru: String,
}

/// A replay passed: it matched the stored summary, every cargo step passed and it did not fail.
pub open spec fn replay_passed(r: ReplayResult) -> bool {
    r.matches_stored_summary && r.cargo_check_ok && r.cargo_test_ok && r.cargo_run_ok
        && r.replay_status != EvolutionStatus::Failed
}

/// What the report says of a run's replay: not run yet, passed, or not passed.
pub open spec fn replay_info_of(replay: Option<ReplayResult>, info: ReplayInfo) -> bool {
    match replay {
        None => info.replay_ru@ == "Replay для этого запуска ещё не выполнялся."@
            && info.replay_status@ == "not_run"@ && info.replay_checked_at is None,
        Some(r) => if replay_passed(r) {
            info.replay_ru@ == "Replay пройден и синхронизирован с сохранённым summary."@
                && info.replay_status@ == "ok"@ && info.replay_checked_at == Some(r.timestamp_unix)
        } else {
            info.replay_ru@ == "Replay не пройден или не совпал с сохранённым summary."@
                && info.replay_status@ == "failed"@ && info.replay_checked_at == Some(r.timestamp_unix)
        },
    }
}

/// What the report says of a run's replay, given the stored replay result if any.
pub fn replay_info(replay: &Option<ReplayResult>) -> (r: ReplayInfo)
    ensures
        replay_info_of(*replay, r),
{
    match replay {
        None => ReplayInfo {
            replay_ru: owned("Replay для этого запуска ещё не выполнялся."),
            replay_status: owned("not_run"),
            replay_checked_at: None,
        },
        Some(r) => {
            let passed = r.matches_stored_summary && r.cargo_check_ok && r.cargo_test_ok
                && r.cargo_run_ok && match r.replay_status {
                EvolutionStatus::Failed => false,
                _ => true,
            };
            if passed {
                ReplayInfo {
                    replay_ru: owned("Replay пройден и синхронизирован с сохранённым summary."),
                    replay_status: owned("ok"),
                    replay_checked_at: Some(r.timestamp_unix),
                }
            } else {
                ReplayInfo {
                    replay_ru: owned("Replay не пройден или не совпал с сохранённым summary."),
                    replay_status: owned("failed"),
                    replay_checked_at: Some(r.timestamp_unix),
                }
            }
        },
    }
}

/// The goal of a run, by its objective.
pub open spec fn goal_text(objective: Option<String>) -> Seq<char> {
    match objective {
        Some(o) => if o@ == "ImproveTests"@ {
            "Ева проверила безопасное усиление слоя тестов через sandbox-мутацию."@
        } else if o@ == "ImproveReplayability"@ {
            "Ева проверила безопасное улучшение replay/candidate логики через sandbox-мутацию."@
        } else if o@ == "ImproveGraphMemory"@ {
            "Ева проверила безопасное улучшение graph/metrics слоя через sandbox-мутацию."@
        } else {
            "Ева проверила безопасное улучшение проекта через sandbox-мутацию."@
        },
        None => "Ева проверила безопасное улучшение проекта через sandbox-мутацию."@,
    }
}

fn goal_ru(objective: &Option<String>) -> (r: String)
    ensures
        r@ == goal_text(*objective),
{
    match objective {
        Some(o) => {
            if crate::text::str_eq(o.as_str(), "ImproveTests") {
                owned("Ева проверила безопасное усиление слоя тестов через sandbox-мутацию.")
            } else if crate::text::str_eq(o.as_str(), "ImproveReplayability") {
                owned("Ева проверила безопасное улучшение replay/candidate логики через sandbox-мутацию.")
            } else if crate::text::str_eq(o.as_str(), "ImproveGraphMemory") {
                owned("Ева проверила безопасное улучшение graph/metrics слоя через sandbox-мутацию.")
            } else {
                owned("Ева проверила безопасное улучшение проекта через sandbox-мутацию.")
            }
        },
        None => owned("Ева проверила безопасное улучшение проекта через sandbox-мутацию."),
    }
}

/// An optional text, or `fallback` when absent.
pub open spec fn text_or(t: Option<String>, fallback: Seq<char>) -> Seq<char> {
    match t {
        Some(x) => x@,
        None => fallback,
    }
}

fn push_text_or(s: &mut String, t: &Option<String>, fallback: &str)
    ensures
        final(s)@ == old(s)@ + text_or(*t, fallback@),
{
    match t {
        Some(x) => push_str(s, x.as_str()),
        None => push_str(s, fallback),
    }
}

/// The plan a run followed, or the baseline cycle.
pub open spec fn plan_text(e: EvolutionLogEntry) -> Seq<char> {
    match e.plan_id {
        Some(p) => "Выбран план "@ + p@ + " с целью "@ + text_or(e.objective, "sandbox evolution"@) + "."@,
        None => "Выполнен базовый безопасный цикл self-evolution без ручной promotion."@,
    }
}

/// How the sandbox was used.
pub open spec fn sandbox_text(e: EvolutionLogEntry) -> Seq<char> {
    if e.duplicate_rejected {
        "Мутация была отклонена до запуска sandbox, потому что совпала с ранее неудачной мутацией."@
    } else if e.sandbox_destroyed {
        "Мутация была выполнена только в sandbox-копии проекта, после проверки sandbox удалён."@
    } else {
        "Мутация была выполнена только в sandbox-копии проекта."@
    }
}

/// A check as passed or not.
pub open spec fn status_text(ok: bool) -> Seq<char> {
    if ok {
        "пройден"@
    } else {
        "не пройден"@
    }
}

fn status_ru(ok: bool) -> (r: &'static str)
    ensures
        r@ == status_text(ok),
{
    if ok {
        "пройден"
    } else {
        "не пройден"
    }
}

/// The three cargo checks of a run.
pub open spec fn checks_text(e: EvolutionLogEntry) -> Seq<char> {
    "- cargo check: "@ + status_text(e.cargo_check_ok) + "\n- cargo test: "@ + status_text(e.cargo_test_ok)
        + "\n- cargo run -- --once: "@ + status_text(e.cargo_run_ok)
}

/// The score of a run and whether its change was useful.
pub open spec fn score_text(e: EvolutionLogEntry, score: Seq<char>) -> Seq<char> {
    "Итоговая оценка "@ + score + ". Изменение классифицировано как "@ + if e.useful_change {
        "полезное"@
    } else {
        "неполезное"@
    } + "."@
}

fn score_ru(e: &EvolutionLogEntry, score: &str) -> (r: String)
    ensures
        r@ == score_text(*e, score@),
{
    let mut s = owned("Итоговая оценка ");
    push_str(&mut s, score);
    push_str(&mut s, ". Изменение классифицировано как ");
    push_str(&mut s, if e.useful_change { "полезное" } else { "неполезное" });
    push_str(&mut s, ".");
    s
}

/// The decision on a run, by its status.
pub open spec fn decision_text(e: EvolutionLogEntry, score: Seq<char>) -> Seq<char> {
    match e.status {
        EvolutionStatus::Candidate => "Изменение признано полезным кандидатом. В core изменение не применялось."@,
        EvolutionStatus::Promoted => "Изменение прошло gate и было применено в core."@,
        EvolutionStatus::Passed => "Изменение прошло проверки, но не стало кандидатом. "@ + score_text(e, score),
        EvolutionStatus::Failed => "Изменение не прошло полный набор проверок и не было сохранено."@,
    }
}

/// The risk level as the report names it.
pub open spec fn level_text(l: RiskLevel) -> Seq<char> {
    match l {
        RiskLevel::Low => "Низкий"@,
        RiskLevel::Medium => "Средний"@,
        RiskLevel::Raised => "Повышенный"@,
    }
}

/// The risk of a run: level, risk, target and duplicate rejection.
pub open spec fn risk_text(e: EvolutionLogEntry, n: RunNumbers) -> Seq<char> {
    level_text(n.level) + ". Риск мутации "@ + n.risk@ + ", target="@ + e.target_file@
        + ", duplicate_rejected="@ + bool_text(e.duplicate_rejected) + "."@
}

/// The next step after a run, by its status.
pub open spec fn next_step_text(e: EvolutionLogEntry) -> Seq<char> {
    match e.status {
        EvolutionStatus::Candidate => "Следующий шаг: выполнить `cargo run -- --replay "@ + e.run_id@
            + "` и затем при необходимости `cargo run -- --promote "@ + e.run_id@ + "`."@,
        EvolutionStatus::Promoted => "Следующий шаг: зафиксировать изменение и наблюдать метрики следующих запусков."@,
        EvolutionStatus::Passed => "Следующий шаг: усилить шаблон мутации или выбрать более полезный target."@,
        EvolutionStatus::Failed => "Следующий шаг: уменьшить риск, изменить шаблон и повторить sandbox-проверку."@,
    }
}

/// `r` is the report of run `e` whose mutation gave `reason`, with `replay` and `n`.
pub open spec fn report_of(
    r: EvolutionReport,
    e: EvolutionLogEntry,
    reason: Seq<char>,
    replay: ReplayInfo,
    n: RunNumbers,
) -> bool {
    &&& r.run_id == e.run_id
    &&& r.status == e.status
    &&& r.goal_ru@ == goal_text(e.objective)
    &&& r.selected_plan_ru@ == plan_text(e)
    &&& r.mutation_ru@ == "Добавлена bounded-мутация "@ + e.mutation_kind@ + " по причине: "@ + reason + "."@
    &&& r.target_file == e.target_file
    &&& r.mutation_kind == e.mutation_kind
    &&& r.hypothesis_id == e.hypothesis_id
    &&& r.source_patterns@ == e.recombined_source_patterns@
    &&& r.avoided_risks@ == e.recombined_avoided_risks@
    &&& r.recombination_reason_ru == e.recombination_reason_ru
    &&& r.portfolio_reason_ru == e.portfolio_reason_ru
    &&& r.sandbox_ru@ == sandbox_text(e)
    &&& r.checks_ru@ == checks_text(e)
    &&& r.score_ru@ == score_text(e, n.score@)
    &&& r.candidate_ru@ == decision_text(e, n.score@)
    &&& r.replay_ru == replay.replay_ru
    &&& r.replay_status == replay.replay_status
    &&& r.replay_checked_at == replay.replay_checked_at
    &&& r.risk_ru@ == risk_text(e, n)
    &&& r.next_step_ru@ == next_step_text(e)
}

/// The report of run `entry` whose mutation is `mutation`, with what its
/// replay established and its numbers as written.
pub fn build_report(
    entry: &EvolutionLogEntry,
    mutation: &MutationContract,
    replay: ReplayInfo,
    numbers: &RunNumbers,
) -> (r: EvolutionReport)
    ensures
        report_of(r, *entry, mutation.reason@, replay, *numbers),
{
    let plan = match &entry.plan_id {
        Some(p) => {
            let mut s = owned("Выбран план ");
            push_str(&mut s, p.as_str());
            push_str(&mut s, " с целью ");
            push_text_or(&mut s, &entry.objective, "sandbox evolution");
            push_str(&mut s, ".");
            s
        },
        None => owned("Выполнен базовый безопасный цикл self-evolution без ручной promotion."),
    };
    let mut mutation_ru = owned("Добавлена bounded-мутация ");
    push_str(&mut mutation_ru, entry.mutation_kind.as_str());
    push_str(&mut mutation_ru, " по причине: ");
    push_str(&mut mutation_ru, mutation.reason.as_str());
    push_str(&mut mutation_ru, ".");
    let sandbox = if entry.duplicate_rejected {
        owned("Мутация была отклонена до запуска sandbox, потому что совпала с ранее неудачной мутацией.")
    } else if entry.sandbox_destroyed {
        owned("Мутация была выполнена только в sandbox-копии проекта, после проверки sandbox удалён.")
    } else {
        owned("Мутация была выполнена только в sandbox-копии проекта.")
    };
    let mut checks = owned("- cargo check: ");
    push_str(&mut checks, status_ru(entry.cargo_check_ok));
    push_str(&mut checks, "\n- cargo test: ");
    push_str(&mut checks, status_ru(entry.cargo_test_ok));
    push_str(&mut checks, "\n- cargo run -- --once: ");
    push_str(&mut checks, status_ru(entry.cargo_run_ok));
    let score = score_ru(entry, numbers.score.as_str());
    let decision = match entry.status {
        EvolutionStatus::Candidate => owned("Изменение признано полезным кандидатом. В core изменение не применялось."),
        EvolutionStatus::Promoted => owned("Изменение прошло gate и было применено в core."),
        EvolutionStatus::Passed => {
            let mut s = owned("Изменение прошло проверки, но не стало кандидатом. ");
            push_str(&mut s, score.as_str());
            s
        },
        EvolutionStatus::Failed => owned("Изменение не прошло полный набор проверок и не было сохранено."),
    };
    let mut risk = owned(match numbers.level {
        RiskLevel::Low => "Низкий",
        RiskLevel::Medium => "Средний",
        RiskLevel::Raised => "Повышенный",
    });
    push_str(&mut risk, ". Риск мутации ");
    push_str(&mut risk, numbers.risk.as_str());
    push_str(&mut risk, ", target=");
    push_str(&mut risk, entry.target_file.as_str());
    push_str(&mut risk, ", duplicate_rejected=");
    push_bool(&mut risk, entry.duplicate_rejected);
    push_str(&mut risk, ".");
    let next = match entry.status {
        EvolutionStatus::Candidate => {
            let mut s = owned("Следующий шаг: выполнить `cargo run -- --replay ");
            push_str(&mut s, entry.run_id.as_str());
            push_str(&mut s, "` и затем при необходимости `cargo run -- --promote ");
            push_str(&mut s, entry.run_id.as_str());
            push_str(&mut s, "`.");
            s
        },
        EvolutionStatus::Promoted => owned("Следующий шаг: зафиксировать изменение и наблюдать метрики следующих запусков."),
        EvolutionStatus::Passed => owned("Следующий шаг: усилить шаблон мутации или выбрать более полезный target."),
        EvolutionStatus::Failed => owned("Следующий шаг: уменьшить риск, изменить шаблон и повторить sandbox-проверку."),
    };
    EvolutionReport {
        run_id: entry.run_id.clone(),
        status: entry.status,
        goal_ru: goal_ru(&entry.objective),
        selected_plan_ru: plan,
        mutation_ru,
        target_file: entry.target_file.clone(),
        mutation_kind: entry.mutation_kind.clone(),
        hypothesis_id: entry.hypothesis_id.clone(),
        source_patterns: entry.recombined_source_patterns.clone(),
        avoided_risks: entry.recombined_avoided_risks.clone(),
        recombination_reason_ru: entry.recombination_reason_ru.clone(),
        portfolio_reason_ru: entry.portfolio_reason_ru.clone(),
        sandbox_ru: sandbox,
        checks_ru: checks,
        score_ru: score,
        candidate_ru: decision,
        replay_ru: replay.replay_ru,
        replay_status: replay.replay_status,
        replay_checked_at: replay.replay_checked_at,
        risk_ru: risk,
        next_step_ru: next,
    }
}

/// The mutation kind a stored label names; a comment append for an unknown label.
pub open spec fn kind_of_label(label: Seq<char>) -> MutationKind {
    if label == "replacetext"@ {
        MutationKind::ReplaceText
    } else if label == "parametertune"@ {
        MutationKind::ParameterTune
    } else if label == "addtestskeleton"@ {
        MutationKind::AddTestSkeleton
    } else if label == "addmetricfield"@ {
        MutationKind::AddMetricField
    } else if label == "addunittest"@ {
        MutationKind::AddUnitTest
    } else if label == "addreplayassertion"@ {
        MutationKind::AddReplayAssertion
    } else if label == "addlearningsummaryfield"@ {
        MutationKind::AddLearningSummaryField
    } else if label == "addmetricupdate"@ {
        MutationKind::AddMetricUpdate
    } else {
        MutationKind::AppendComment
    }
}

fn mutation_kind_from_label(label: &str) -> (k: MutationKind)
    ensures
        k == kind_of_label(label@),
{
    if crate::text::str_eq(label, "replacetext") {
        MutationKind::ReplaceText
    } else if crate::text::str_eq(label, "parametertune") {
        MutationKind::ParameterTune
    } else if crate::text::str_eq(label, "addtestskeleton") {
        MutationKind::AddTestSkeleton
    } else if crate::text::str_eq(label, "addmetricfield") {
        MutationKind::AddMetricField
    } else if crate::text::str_eq(label, "addunittest") {
        MutationKind::AddUnitTest
    } else if crate::text::str_eq(label, "addreplayassertion") {
        MutationKind::AddReplayAssertion
    } else if crate::text::str_eq(label, "addlearningsummaryfield") {
        MutationKind::AddLearningSummaryField
    } else if crate::text::str_eq(label, "addmetricupdate") {
        MutationKind::AddMetricUpdate
    } else {
        MutationKind::AppendComment
    }
}

/// The mutation a report falls back to when the stored one is missing: the
/// logged id, kind and target, no payload, reconstructed from the log. Its
/// expected gain is zero and its risk is the logged risk.
pub fn synthetic_mutation(entry: &EvolutionLogEntry) -> (m: MutationContract)
    ensures
        m.id == entry.mutation_id,
        m.kind == kind_of_label(entry.mutation_kind@),
        m.target_file == entry.target_file,
        m.search is None && m.replace is None && m.append is None,
        m.reason@ == "reconstructed from evolution log"@,
{
    MutationContract {
        id: entry.mutation_id.clone(),
        kind: mutation_kind_from_label(entry.mutation_kind.as_str()),
        target_file: entry.target_file.clone(),
        search: None,
        replace: None,
        append: None,
        reason: owned("reconstructed from evolution log"),
    }
}

/// The replay status as the report writes it.
pub open spec fn replay_status_text(status: Seq<char>) -> Seq<char> {
    if status == "ok"@ {
        "пройден"@
    } else if status == "failed"@ {
        "не пройден"@
    } else {
        "не выполнялся"@
    }
}

fn replay_status_ru(status: &str) -> (r: &'static str)
    ensures
        r@ == replay_status_text(status@),
{
    if crate::text::str_eq(status, "ok") {
        "пройден"
    } else if crate::text::str_eq(status, "failed") {
        "не пройден"
    } else {
        "не выполнялся"
    }
}

/// When the replay was checked.
pub open spec fn checked_text(at: Option<u64>) -> Seq<char> {
    match at {
        Some(t) => "Проверено: "@ + decimal(t as nat),
        None => "Проверено: нет"@,
    }
}

fn push_checked(s: &mut String, at: Option<u64>)
    ensures
        final(s)@ == old(s)@ + checked_text(at),
{
    match at {
        Some(t) => {
            push_str(s, "Проверено: ");
            push_decimal(s, t);
        },
        None => push_str(s, "Проверено: нет"),
    }
}

/// The report has something to say of recombination.
pub open spec fn has_recombination(r: EvolutionReport) -> bool {
    !(r.source_patterns@.len() == 0 && r.avoided_risks@.len() == 0 && r.recombination_reason_ru is None
        && r.portfolio_reason_ru is None)
}

/// The recombination section of a report, empty when it has nothing to say.
pub open spec fn recombination_block(report: EvolutionReport, numbers: RecombinationNumbers) -> Seq<char> {
    if has_recombination(report) {
        "\n## Рекомбинация\nГипотеза: "@ + text_or(report.hypothesis_id, "нет"@) + "\nSource patterns: "@ + join_or(views(report.source_patterns@), ", "@, "(none)"@) + "\nAvoided risks: "@ + join_or(views(report.avoided_risks@), ", "@, "(none)"@) + "\nПричина: "@ + text_or(report.recombination_reason_ru, "нет"@) + "\nPortfolio reason: "@ + text_or(report.portfolio_reason_ru, "нет"@) + "\nDiversity bonus: "@ + numbers.diversity_bonus@ + "\nSaturation penalty: "@ + numbers.saturation_penalty@ + "\nRepeated target penalty: "@ + numbers.repeated_target_penalty@ + "\nFinal recombination score: "@ + numbers.final_recombination_score@ + "\n"@
    } else {
        Seq::empty()
    }
}

fn render_recombination_block(report: &EvolutionReport, numbers: &RecombinationNumbers) -> (s: String)
    ensures
        s@ == recombination_block(*report, *numbers),
{
    let mut s = String::new();
    if report.source_patterns.len() == 0 && report.avoided_risks.len() == 0
        && report.recombination_reason_ru.is_none() && report.portfolio_reason_ru.is_none() {
        return s;
    }
    push_str(&mut s, "\n## Рекомбинация\nГипотеза: ");
    push_text_or(&mut s, &report.hypothesis_id, "нет");
    push_str(&mut s, "\nSource patterns: ");
    push_str(&mut s, join_or_strings(&report.source_patterns, ", ", "(none)").as_str());
    push_str(&mut s, "\nAvoided risks: ");
    push_str(&mut s, join_or_strings(&report.avoided_risks, ", ", "(none)").as_str());
    push_str(&mut s, "\nПричина: ");
    push_text_or(&mut s, &report.recombination_reason_ru, "нет");
    push_str(&mut s, "\nPortfolio reason: ");
    push_text_or(&mut s, &report.portfolio_reason_ru, "нет");
    push_str(&mut s, "\nDiversity bonus: ");
    push_str(&mut s, numbers.diversity_bonus.as_str());
    push_str(&mut s, "\nSaturation penalty: ");
    push_str(&mut s, numbers.saturation_penalty.as_str());
    push_str(&mut s, "\nRepeated target penalty: ");
    push_str(&mut s, numbers.repeated_target_penalty.as_str());
    push_str(&mut s, "\nFinal recombination score: ");
    push_str(&mut s, numbers.final_recombination_score.as_str());
    push_str(&mut s, "\n");
    s
}

/// Part 1 of the report text.
pub open spec fn report_markdown_part1(report: EvolutionReport, numbers: RecombinationNumbers) -> Seq<char> {
    "# Отчёт EVA\n\n## Цель\n"@ + report.goal_ru@ + "\n\n## Гипотеза\n"@ + report.selected_plan_ru@ + "\n"@ + recombination_block(report, numbers) + "\n## Мутация\n"@ + report.mutation_ru@ + "\nФайл: "@ + report.target_file@ + "\nТип: "@ + report.mutation_kind@ + "\n\n## Sandbox\n"@ + report.sandbox_ru@
}

fn report_markdown_text1(report: &EvolutionReport, numbers: &RecombinationNumbers) -> (s: String)
    ensures
        s@ == report_markdown_part1(*report, *numbers),
{
    let mut s = String::new();
    push_str(&mut s, "# Отчёт EVA\n\n## Цель\n");
    push_str(&mut s, report.goal_ru.as_str());
    push_str(&mut s, "\n\n## Гипотеза\n");
    push_str(&mut s, report.selected_plan_ru.as_str());
    push_str(&mut s, "\n");
    push_str(&mut s, render_recombination_block(report, numbers).as_str());
    push_str(&mut s, "\n## Мутация\n");
    push_str(&mut s, report.mutation_ru.as_str());
    push_str(&mut s, "\nФайл: ");
    push_str(&mut s, report.target_file.as_str());
    push_str(&mut s, "\nТип: ");
    push_str(&mut s, report.mutation_kind.as_str());
    push_str(&mut s, "\n\n## Sandbox\n");
    push_str(&mut s, report.sandbox_ru.as_str());
    s
}

/// Part 2 of the report text.
pub open spec fn report_markdown_part2(report: EvolutionReport, numbers: RecombinationNumbers) -> Seq<char> {
    "\n\n## Проверка\n"@ + report.checks_ru@ + "\n\n## Решение\n"@ + report.candidate_ru@ + "\n\n## Повторное воспроизведение\nСтатус: "@ + replay_status_text(report.replay_status@) + "\n"@ + report.replay_ru@ + "\n"@ + checked_text(report.replay_checked_at) + "\n\n## Риск\n"@ + report.risk_ru@ + "\n\n## Следующий шаг\n"@ + report.next_step_ru@
}

fn report_markdown_text2(report: &EvolutionReport, numbers: &RecombinationNumbers) -> (s: String)
    ensures
        s@ == report_markdown_part2(*report, *numbers),
{
    let mut s = String::new();
    push_str(&mut s, "\n\n## Проверка\n");
    push_str(&mut s, report.checks_ru.as_str());
    push_str(&mut s, "\n\n## Решение\n");
    push_str(&mut s, report.candidate_ru.as_str());
    push_str(&mut s, "\n\n## Повторное воспроизведение\nСтатус: ");
    push_str(&mut s, replay_status_ru(report.replay_status.as_str()));
    push_str(&mut s, "\n");
    push_str(&mut s, report.replay_ru.as_str());
    push_str(&mut s, "\n");
    push_checked(&mut s, report.replay_checked_at);
    push_str(&mut s, "\n\n## Риск\n");
    push_str(&mut s, report.risk_ru.as_str());
    push_str(&mut s, "\n\n## Следующий шаг\n");
    push_str(&mut s, report.next_step_ru.as_str());
    s
}

/// Part 3 of the report text.
pub open spec fn report_markdown_part3(report: EvolutionReport, numbers: RecombinationNumbers) -> Seq<char> {
    "\n"@
}

fn report_markdown_text3(report: &EvolutionReport, numbers: &RecombinationNumbers) -> (s: String)
    ensures
        s@ == report_markdown_part3(*report, *numbers),
{
    let mut s = String::new();
    push_str(&mut s, "\n");
    s
}

/// The report text: goal, hypothesis and recombination, mutation, sandbox,
/// checks, decision, replay, risk and next step.
pub open spec fn report_markdown(report: EvolutionReport, numbers: RecombinationNumbers) -> Seq<char> {
    report_markdown_part1(report, numbers) + report_markdown_part2(report, numbers) + report_markdown_part3(report, numbers)
}

/// The report text of a run, with its recombination terms as written.
pub fn render_markdown(report: &EvolutionReport, numbers: &RecombinationNumbers) -> (s: String)
    ensures
        s@ == report_markdown(*report, *numbers),
{
    let mut s = String::new();
    push_str(&mut s, report_markdown_text1(report, numbers).as_str());
    push_str(&mut s, report_markdown_text2(report, numbers).as_str());
    push_str(&mut s, report_markdown_text3(report, numbers).as_str());
    s
}

} // verus!
