//! Evolution decisions: validation, generation, classification and release gating.
pub mod runtime_validation;
pub mod release_health;
pub mod preflight_gate;
pub mod autonomy;
pub mod promotion_queue;
pub mod validator;
pub mod task_validator;
pub mod templates;
pub mod generator;
pub mod metrics;
pub mod runtime_candidate;
pub mod runtime_cli_contract;
pub mod future_phase;
pub mod operator_runbook;
pub mod evolution_core_readiness;
pub mod release_bundle;
pub mod changelog;
pub mod release_candidate;
pub mod determinism_audit;
pub mod artifact_audit;
pub mod proof_report;
pub mod final_rc_report;
pub mod operator_console;
pub mod campaign;
pub mod release_preflight;
pub mod release_ledger;
pub mod regression_memory;
pub mod mutation_portfolio;
pub mod strategy_portfolio;
pub mod corpus_validator;
pub mod mutator;
pub mod corpus;
pub mod dedup;
pub mod strategy_tasks;
pub mod scorer;
pub mod recombination;
pub mod report_ru;
pub mod evolution_policy;
pub mod benchmark;
