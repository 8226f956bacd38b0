//! The stable command-line contract of the runtime.
use vstd::prelude::*;

use crate::contracts::{RuntimeCliCommandContract, RuntimeCliContractReport};
use crate::text::{owned, str_eq};

verus! {

/// The commands of the contract: command, purpose and safety class, in order.
pub open spec fn cli_commands() -> Seq<(Seq<char>, Seq<char>, Seq<char>)> {
    seq![
        ("--eva-status"@, "Print compact EVA operator status"@, "read_only"@),
        ("--operator-console"@, "Print combined operator console"@, "read_only"@),
        ("--proof-report"@, "Print proof markdown report"@, "metadata_only"@),
        ("--proof-json"@, "Print proof JSON"@, "metadata_only"@),
        ("--capability-policy"@, "Print capability policy JSON"@, "metadata_only"@),
        ("--trust-decision"@, "Print trust decision JSON"@, "blocked_if_untrusted"@),
        ("--workspace-snapshot"@, "Build workspace snapshot JSON"@, "metadata_only"@),
        ("--evidence-bundle"@, "Build evidence bundle JSON"@, "metadata_only"@),
        ("--recovery-manifest"@, "Build recovery manifest JSON"@, "metadata_only"@),
        ("--preflight-gate-v3"@, "Print trust and recovery preflight gate v3"@, "blocked_if_untrusted"@),
        ("--trust-proof-report"@, "Print trust proof markdown report"@, "metadata_only"@),
        ("--release-status"@, "Print release runtime status"@, "read_only"@),
        ("--release-health"@, "Print release health report"@, "metadata_only"@),
        ("--artifact-audit"@, "Print artifact audit report"@, "validation_only"@),
        ("--determinism-audit"@, "Print determinism audit report"@, "validation_only"@),
        ("--ops-status"@, "Print operations status"@, "read_only"@),
        ("--ops-json"@, "Print operations status JSON"@, "metadata_only"@),
        ("tui / --tui"@, "Open read-only operator terminal dashboard"@, "read_only"@),
        ("status / --status"@, "Print runtime validation status"@, "validation_only"@),
        ("--runtime-candidate"@, "Build runtime v1.0 candidate manifest"@, "metadata_only"@),
        ("--runtime-validation"@, "Build runtime validation report"@, "validation_only"@),
        ("--runtime-service"@, "Print local operator service metadata"@, "metadata_only"@),
        ("--runtime-cli-contract"@, "Print stable runtime CLI contract"@, "metadata_only"@),
        ("--release-approve <RUN_ID>"@, "Approve a ready replay-ok candidate for release metadata"@, "blocked_if_untrusted"@),
        ("--final-rc-report"@, "Print final runtime v1.0 candidate markdown report"@, "metadata_only"@),
    ]
}

/// A command entry: it mutates neither the source nor an external
/// repository, and needs operator approval exactly when it is blocked if untrusted.
pub open spec fn is_entry(e: RuntimeCliCommandContract, c: (Seq<char>, Seq<char>, Seq<char>)) -> bool {
    &&& e.command@ == c.0
    &&& e.purpose@ == c.1
    &&& e.safety_class@ == c.2
    &&& !e.mutates_source
    &&& !e.mutates_external_repo
    &&& e.requires_operator_approval == (c.2 == "blocked_if_untrusted"@)
}

fn entry(command: &str, purpose: &str, safety_class: &str) -> (e: RuntimeCliCommandContract)
    ensures
        is_entry(e, (command@, purpose@, safety_class@)),
{
    RuntimeCliCommandContract {
        command: owned(command),
        purpose: owned(purpose),
        mutates_source: false,
        mutates_external_repo: false,
        requires_operator_approval: str_eq(safety_class, "blocked_if_untrusted"),
        safety_class: owned(safety_class),
    }
}

fn push_command(v: &mut Vec<RuntimeCliCommandContract>, command: &str, purpose: &str, safety_class: &str)
    ensures
        final(v)@.len() == old(v)@.len() + 1,
        forall|i: int| 0 <= i < old(v)@.len() ==> final(v)@[i] == old(v)@[i],
        is_entry(final(v)@[old(v)@.len() as int], (command@, purpose@, safety_class@)),
{
    v.push(entry(command, purpose, safety_class));
}

/// The stable command-line contract, stamped with `generated_at`.
pub fn build_runtime_cli_contract(generated_at: u64) -> (r: RuntimeCliContractReport)
    ensures
        r.generated_at == generated_at,
        r.commands@.len() == cli_commands().len(),
        forall|i: int| 0 <= i < cli_commands().len() ==> is_entry(#[trigger] r.commands@[i], cli_commands()[i]),
{
    let mut commands: Vec<RuntimeCliCommandContract> = Vec::new();
    push_command(&mut commands, "--eva-status", "Print compact EVA operator status", "read_only");
    push_command(&mut commands, "--operator-console", "Print combined operator console", "read_only");
    push_command(&mut commands, "--proof-report", "Print proof markdown report", "metadata_only");
    push_command(&mut commands, "--proof-json", "Print proof JSON", "metadata_only");
    push_command(&mut commands, "--capability-policy", "Print capability policy JSON", "metadata_only");
    push_command(&mut commands, "--trust-decision", "Print trust decision JSON", "blocked_if_untrusted");
    push_command(&mut commands, "--workspace-snapshot", "Build workspace snapshot JSON", "metadata_only");
    push_command(&mut commands, "--evidence-bundle", "Build evidence bundle JSON", "metadata_only");
    push_command(&mut commands, "--recovery-manifest", "Build recovery manifest JSON", "metadata_only");
    push_command(&mut commands, "--preflight-gate-v3", "Print trust and recovery preflight gate v3", "blocked_if_untrusted");
    push_command(&mut commands, "--trust-proof-report", "Print trust proof markdown report", "metadata_only");
    push_command(&mut commands, "--release-status", "Print release runtime status", "read_only");
    push_command(&mut commands, "--release-health", "Print release health report", "metadata_only");
    push_command(&mut commands, "--artifact-audit", "Print artifact audit report", "validation_only");
    push_command(&mut commands, "--determinism-audit", "Print determinism audit report", "validation_only");
    push_command(&mut commands, "--ops-status", "Print operations status", "read_only");
    push_command(&mut commands, "--ops-json", "Print operations status JSON", "metadata_only");
    push_command(&mut commands, "tui / --tui", "Open read-only operator terminal dashboard", "read_only");
    push_command(&mut commands, "status / --status", "Print runtime validation status", "validation_only");
    push_command(&mut commands, "--runtime-candidate", "Build runtime v1.0 candidate manifest", "metadata_only");
    push_command(&mut commands, "--runtime-validation", "Build runtime validation report", "validation_only");
    push_command(&mut commands, "--runtime-service", "Print local operator service metadata", "metadata_only");
    push_command(&mut commands, "--runtime-cli-contract", "Print stable runtime CLI contract", "metadata_only");
    push_command(&mut commands, "--release-approve <RUN_ID>", "Approve a ready replay-ok candidate for release metadata", "blocked_if_untrusted");
    push_command(&mut commands, "--final-rc-report", "Print final runtime v1.0 candidate markdown report", "metadata_only");
    RuntimeCliContractReport { generated_at, commands }
}

/// No command of the contract mutates the source or an external repository,
/// and a command needs operator approval exactly when its safety class is
/// `blocked_if_untrusted`.
pub proof fn lemma_cli_contract_is_safe(r: RuntimeCliContractReport, i: int)
    requires
        r.commands@.len() == cli_commands().len(),
        forall|k: int| 0 <= k < cli_commands().len() ==> is_entry(#[trigger] r.commands@[k], cli_commands()[k]),
        0 <= i < r.commands@.len(),
    ensures
        !r.commands@[i].mutates_source,
        !r.commands@[i].mutates_external_repo,
        r.commands@[i].requires_operator_approval == (r.commands@[i].safety_class@ == "blocked_if_untrusted"@),
{
    assert(is_entry(r.commands@[i], cli_commands()[i]));
}

/// The position of a command in the contract, or -1 for another text.
spec fn command_position(s: Seq<char>) -> int {
    if s == "--eva-status"@ {
        0
    } else if s == "--operator-console"@ {
        1
    } else if s == "--proof-report"@ {
        2
    } else if s == "--proof-json"@ {
        3
    } else if s == "--capability-policy"@ {
        4
    } else if s == "--trust-decision"@ {
        5
    } else if s == "--workspace-snapshot"@ {
        6
    } else if s == "--evidence-bundle"@ {
        7
    } else if s == "--recovery-manifest"@ {
        8
    } else if s == "--preflight-gate-v3"@ {
        9
    } else if s == "--trust-proof-report"@ {
        10
    } else if s == "--release-status"@ {
        11
    } else if s == "--release-health"@ {
        12
    } else if s == "--artifact-audit"@ {
        13
    } else if s == "--determinism-audit"@ {
        14
    } else if s == "--ops-status"@ {
        15
    } else if s == "--ops-json"@ {
        16
    } else if s == "tui / --tui"@ {
        17
    } else if s == "status / --status"@ {
        18
    } else if s == "--runtime-candidate"@ {
        19
    } else if s == "--runtime-validation"@ {
        20
    } else if s == "--runtime-service"@ {
        21
    } else if s == "--runtime-cli-contract"@ {
        22
    } else if s == "--release-approve <RUN_ID>"@ {
        23
    } else if s == "--final-rc-report"@ {
        24
    } else {
        -1
    }
}

proof fn lemma_command_position(i: int)
    requires
        0 <= i < cli_commands().len(),
    ensures
        command_position(cli_commands()[i].0) == i,
        (cli_commands()[i].2 == "blocked_if_untrusted"@) == (i == 5 || i == 9 || i == 23),
{
    reveal_strlit("read_only");
    reveal_strlit("metadata_only");
    reveal_strlit("validation_only");
    reveal_strlit("blocked_if_untrusted");
    reveal_strlit("--eva-status");
    reveal_strlit("--operator-console");
    reveal_strlit("--proof-report");
    reveal_strlit("--proof-json");
    reveal_strlit("--capability-policy");
    reveal_strlit("--trust-decision");
    reveal_strlit("--workspace-snapshot");
    reveal_strlit("--evidence-bundle");
    reveal_strlit("--recovery-manifest");
    reveal_strlit("--preflight-gate-v3");
    reveal_strlit("--trust-proof-report");
    reveal_strlit("--release-status");
    reveal_strlit("--release-health");
    reveal_strlit("--artifact-audit");
    reveal_strlit("--determinism-audit");
    reveal_strlit("--ops-status");
    reveal_strlit("--ops-json");
    reveal_strlit("tui / --tui");
    reveal_strlit("status / --status");
    reveal_strlit("--runtime-candidate");
    reveal_strlit("--runtime-validation");
    reveal_strlit("--runtime-service");
    reveal_strlit("--runtime-cli-contract");
    reveal_strlit("--release-approve <RUN_ID>");
    reveal_strlit("--final-rc-report");
    if i == 0 {
        assert(cli_commands()[0].0 == "--eva-status"@);
        assert(cli_commands()[0].2 == "read_only"@);
    } else if i == 1 {
        assert(cli_commands()[1].0 == "--operator-console"@);
        assert(cli_commands()[1].2 == "read_only"@);
    } else if i == 2 {
        assert(cli_commands()[2].0 == "--proof-report"@);
        assert(cli_commands()[2].2 == "metadata_only"@);
    } else if i == 3 {
        assert(cli_commands()[3].0 == "--proof-json"@);
        assert(cli_commands()[3].2 == "metadata_only"@);
        assert("--proof-json"@[2] != "--eva-status"@[2]);
    } else if i == 4 {
        assert(cli_commands()[4].0 == "--capability-policy"@);
        assert(cli_commands()[4].2 == "metadata_only"@);
    } else if i == 5 {
        assert(cli_commands()[5].0 == "--trust-decision"@);
        assert(cli_commands()[5].2 == "blocked_if_untrusted"@);
    } else if i == 6 {
        assert(cli_commands()[6].0 == "--workspace-snapshot"@);
        assert(cli_commands()[6].2 == "metadata_only"@);
    } else if i == 7 {
        assert(cli_commands()[7].0 == "--evidence-bundle"@);
        assert(cli_commands()[7].2 == "metadata_only"@);
    } else if i == 8 {
        assert(cli_commands()[8].0 == "--recovery-manifest"@);
        assert(cli_commands()[8].2 == "metadata_only"@);
        assert("--recovery-manifest"@[2] != "--capability-policy"@[2]);
    } else if i == 9 {
        assert(cli_commands()[9].0 == "--preflight-gate-v3"@);
        assert(cli_commands()[9].2 == "blocked_if_untrusted"@);
        assert("--preflight-gate-v3"@[2] != "--capability-policy"@[2]);
        assert("--preflight-gate-v3"@[2] != "--recovery-manifest"@[2]);
    } else if i == 10 {
        assert(cli_commands()[10].0 == "--trust-proof-report"@);
        assert(cli_commands()[10].2 == "metadata_only"@);
        assert("--trust-proof-report"@[2] != "--workspace-snapshot"@[2]);
    } else if i == 11 {
        assert(cli_commands()[11].0 == "--release-status"@);
        assert(cli_commands()[11].2 == "read_only"@);
        assert("--release-status"@[2] != "--trust-decision"@[2]);
    } else if i == 12 {
        assert(cli_commands()[12].0 == "--release-health"@);
        assert(cli_commands()[12].2 == "metadata_only"@);
        assert("--release-health"@[2] != "--trust-decision"@[2]);
        assert("--release-health"@[10] != "--release-status"@[10]);
    } else if i == 13 {
        assert(cli_commands()[13].0 == "--artifact-audit"@);
        assert(cli_commands()[13].2 == "validation_only"@);
        assert("--artifact-audit"@[2] != "--trust-decision"@[2]);
        assert("--artifact-audit"@[2] != "--release-status"@[2]);
        assert("--artifact-audit"@[2] != "--release-health"@[2]);
    } else if i == 14 {
        assert(cli_commands()[14].0 == "--determinism-audit"@);
        assert(cli_commands()[14].2 == "validation_only"@);
        assert("--determinism-audit"@[2] != "--capability-policy"@[2]);
        assert("--determinism-audit"@[2] != "--recovery-manifest"@[2]);
        assert("--determinism-audit"@[2] != "--preflight-gate-v3"@[2]);
    } else if i == 15 {
        assert(cli_commands()[15].0 == "--ops-status"@);
        assert(cli_commands()[15].2 == "read_only"@);
        assert("--ops-status"@[2] != "--eva-status"@[2]);
        assert("--ops-status"@[2] != "--proof-json"@[2]);
    } else if i == 16 {
        assert(cli_commands()[16].0 == "--ops-json"@);
        assert(cli_commands()[16].2 == "metadata_only"@);
    } else if i == 17 {
        assert(cli_commands()[17].0 == "tui / --tui"@);
        assert(cli_commands()[17].2 == "read_only"@);
    } else if i == 18 {
        assert(cli_commands()[18].0 == "status / --status"@);
        assert(cli_commands()[18].2 == "validation_only"@);
        assert("status / --status"@[0] != "--evidence-bundle"@[0]);
    } else if i == 19 {
        assert(cli_commands()[19].0 == "--runtime-candidate"@);
        assert(cli_commands()[19].2 == "metadata_only"@);
        assert("--runtime-candidate"@[2] != "--capability-policy"@[2]);
        assert("--runtime-candidate"@[3] != "--recovery-manifest"@[3]);
        assert("--runtime-candidate"@[2] != "--preflight-gate-v3"@[2]);
        assert("--runtime-candidate"@[2] != "--determinism-audit"@[2]);
    } else if i == 20 {
        assert(cli_commands()[20].0 == "--runtime-validation"@);
        assert(cli_commands()[20].2 == "validation_only"@);
        assert("--runtime-validation"@[2] != "--workspace-snapshot"@[2]);
        assert("--runtime-validation"@[2] != "--trust-proof-report"@[2]);
    } else if i == 21 {
        assert(cli_commands()[21].0 == "--runtime-service"@);
        assert(cli_commands()[21].2 == "metadata_only"@);
        assert("--runtime-service"@[2] != "--evidence-bundle"@[2]);
        assert("--runtime-service"@[0] != "status / --status"@[0]);
    } else if i == 22 {
        assert(cli_commands()[22].0 == "--runtime-cli-contract"@);
        assert(cli_commands()[22].2 == "metadata_only"@);
    } else if i == 23 {
        assert(cli_commands()[23].0 == "--release-approve <RUN_ID>"@);
        assert(cli_commands()[23].2 == "blocked_if_untrusted"@);
    } else if i == 24 {
        assert(cli_commands()[24].0 == "--final-rc-report"@);
        assert(cli_commands()[24].2 == "metadata_only"@);
        assert("--final-rc-report"@[2] != "--evidence-bundle"@[2]);
        assert("--final-rc-report"@[0] != "status / --status"@[0]);
        assert("--final-rc-report"@[2] != "--runtime-service"@[2]);
    }
}

/// The commands of the contract are distinct: no two entries name the same command.
pub proof fn lemma_cli_commands_distinct(i: int, j: int)
    requires
        0 <= i < j < cli_commands().len(),
    ensures
        cli_commands()[i].0 != cli_commands()[j].0,
{
    lemma_command_position(i);
    lemma_command_position(j);
}

/// Exactly three commands of the contract need operator approval:
/// `--trust-decision`, `--preflight-gate-v3` and `--release-approve <RUN_ID>`.
pub proof fn lemma_cli_approval_commands(i: int)
    requires
        0 <= i < cli_commands().len(),
    ensures
        (cli_commands()[i].2 == "blocked_if_untrusted"@) == (cli_commands()[i].0
            == "--trust-decision"@ || cli_commands()[i].0 == "--preflight-gate-v3"@
            || cli_commands()[i].0 == "--release-approve <RUN_ID>"@),
{
    lemma_command_position(i);
    lemma_command_position(5);
    lemma_command_position(9);
    lemma_command_position(23);
}

} // verus!
