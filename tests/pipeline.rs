use nomgen::check::CheckResult;
use nomgen::command::{CheckArgs, GenerateArgs, HookArgs, HookCmd, Subcommand};
use nomgen::config::{nearest_ancestor, validate_config, Config, ConfigError, Generator};
use nomgen::generate::{
    commit_message, continues_after, generate_plan, invocations, proceeds_after_check,
    GeneratorOutcome, Step,
};
use nomgen::hook::{hook_command, hook_script};

fn s(x: &str) -> String {
    x.to_string()
}

#[test]
fn skip_check_generates_stages_and_commits() {
    let plan = generate_plan(&None, false, false, true);
    assert_eq!(
        plan,
        vec![Step::LoadConfig(None), Step::RunGenerators, Step::Settle, Step::StageFiles, Step::Commit]
    );
    assert_eq!(commit_message(), s("nomgen generated"));
}

#[test]
fn failing_generator_still_reaches_commit() {
    assert!(continues_after(GeneratorOutcome::NonZeroExit(Some(2))));
    assert!(continues_after(GeneratorOutcome::NonZeroExit(None)));
    assert!(continues_after(GeneratorOutcome::Succeeded));
    assert!(!continues_after(GeneratorOutcome::SpawnFailed));
    let plan = generate_plan(&Some(s("nomgen.toml")), false, false, false);
    assert_eq!(plan.last(), Some(&Step::Commit));
    let staged_only = generate_plan(&Some(s("nomgen.toml")), false, true, false);
    assert_eq!(staged_only.last(), Some(&Step::StageFiles));
}

#[test]
fn only_stage_plan_has_no_commit() {
    for force in [false, true] {
        for skip in [false, true] {
            let plan = generate_plan(&None, force, true, skip);
            assert!(!plan.contains(&Step::Commit));
            assert!(plan.contains(&Step::StageFiles));
        }
    }
}

#[test]
fn check_step_aborts_unless_forced() {
    let plan = generate_plan(&None, false, false, false);
    assert_eq!(plan[1], Step::Check { abort_on_violation: true });
    let forced = generate_plan(&None, true, false, false);
    assert_eq!(forced[1], Step::Check { abort_on_violation: false });
    assert!(!proceeds_after_check(true, CheckResult::UndesiredChangesDetected));
    assert!(proceeds_after_check(false, CheckResult::UndesiredChangesDetected));
    assert!(proceeds_after_check(true, CheckResult::NoChangesDetected));
}

#[test]
fn invocations_follow_configuration_order() {
    let config = Config {
        generators: vec![
            Generator {
                command: Some(s("protoc")),
                args: Some(vec![s("--rust_out"), s("gen")]),
                patterns: Some(vec![s("gen/*.rs")]),
            },
            Generator { command: None, args: Some(vec![s("ignored")]), patterns: None },
            Generator { command: Some(s("./codegen.sh")), args: None, patterns: None },
        ],
    };
    let inv = invocations(&config);
    assert_eq!(inv.len(), 2);
    assert_eq!(inv[0].command, s("protoc"));
    assert_eq!(inv[0].args, vec![s("--rust_out"), s("gen")]);
    assert_eq!(inv[1].command, s("./codegen.sh"));
    assert!(inv[1].args.is_empty());
}

#[test]
fn empty_configuration_is_refused() {
    assert_eq!(validate_config(Config { generators: vec![] }).err(), Some(ConfigError::NoGenerators));
    let ok = validate_config(Config {
        generators: vec![Generator { command: None, args: None, patterns: None }],
    });
    assert_eq!(ok.unwrap().generators.len(), 1);
}

#[test]
fn nearest_marked_ancestor() {
    assert_eq!(nearest_ancestor(&vec![false, true, true]), Some(1));
    assert_eq!(nearest_ancestor(&vec![true]), Some(0));
    assert_eq!(nearest_ancestor(&vec![false, false]), None);
    assert_eq!(nearest_ancestor(&vec![]), None);
}

#[test]
fn subcommands_plan_their_steps() {
    let check = Subcommand::Check(CheckArgs { config: Some(s("cfg.toml")) });
    assert_eq!(
        check.run(),
        vec![Step::LoadConfig(Some(s("cfg.toml"))), Step::Check { abort_on_violation: true }]
    );
    let gen = Subcommand::Generate(GenerateArgs {
        config: None,
        force: true,
        only_stage: true,
        skip_check: false,
    });
    assert_eq!(
        gen.run(),
        vec![
            Step::LoadConfig(None),
            Step::Check { abort_on_violation: false },
            Step::RunGenerators,
            Step::Settle,
            Step::StageFiles,
        ]
    );
    let hook = Subcommand::Hook(HookArgs {
        hook_dir: None,
        hook_name: s("pre-commit"),
        hook_cmd: HookCmd::Check,
    });
    assert_eq!(
        hook.run(),
        vec![Step::WriteHook { dir: None, name: s("pre-commit"), cmd: HookCmd::Check }]
    );
}

#[test]
fn hook_command_names() {
    assert_eq!(HookCmd::parse("generate"), Ok(HookCmd::Generate));
    assert_eq!("check".parse::<HookCmd>(), Ok(HookCmd::Check));
    assert_eq!(HookCmd::parse("push"), Err(s("Unknown hook command: push")));
    assert_eq!(HookCmd::parse(""), Err(s("Unknown hook command: ")));
    assert_eq!(HookCmd::Generate.name(), s("generate"));
    assert_eq!(HookCmd::Check.name(), s("check"));
}

#[test]
fn hook_script_runs_command_and_skips_generated_commits() {
    assert_eq!(hook_command(HookCmd::Check), s("nomgen check"));
    assert_eq!(hook_command(HookCmd::Generate), s("nomgen generate --only-stage"));
    let script = hook_script(HookCmd::Generate);
    assert!(script.starts_with("#!/bin/sh\n"));
    assert!(script.contains("\nnomgen generate --only-stage\n"));
    assert!(script.contains(&commit_message()));
    assert!(script.ends_with("exit 0\n"));
    assert!(hook_script(HookCmd::Check).contains("\nnomgen check\n"));
}
