use vstd::prelude::*;
use crate::check::CheckResult;
use crate::command::HookCmd;
use crate::config::{Config, Generator, clone_strings};

verus! {

/// One generator command to spawn, with its arguments in order.
pub struct Invocation {
    pub command: String,
    pub args: Vec<String>,
}

/// How one generator command ended.
#[derive(PartialEq, Eq, Structural, Debug, Clone, Copy)]
pub enum GeneratorOutcome {
    /// The command ran and exited with status 0.
    Succeeded,
    /// The command ran and failed; the exit status, when there is one.
    NonZeroExit(Option<i32>),
    /// The command could not be started.
    SpawnFailed,
}

/// One step that a subcommand performs, in order.
#[derive(PartialEq, Eq, Debug)]
pub enum Step {
    /// Load the configuration, from the given file or from the nearest
    /// `nomgen.toml` found upward from the current directory.
    LoadConfig(Option<String>),
    /// Check the protected files; when changes are detected and
    /// `abort_on_violation` holds, stop with exit status 1.
    Check { abort_on_violation: bool },
    /// Run every generator command, in configuration order.
    RunGenerators,
    /// Wait for the files written by the generators to settle.
    Settle,
    /// Stage every file matched by a protected pattern and write the index.
    StageFiles,
    /// Commit the index on top of HEAD with the generation message.
    Commit,
    /// Write the git hook script.
    WriteHook { dir: Option<String>, name: String, cmd: HookCmd },
}

/// The generators that have a command, in configuration order.
pub open spec fn with_commands(gens: Seq<Generator>) -> Seq<Generator>
    decreases gens.len(),
{
    if gens.len() == 0 {
        Seq::empty()
    } else if gens.last().command is Some {
        with_commands(gens.drop_last()).push(gens.last())
    } else {
        with_commands(gens.drop_last())
    }
}

/// The arguments of a generator; none when it lists none.
pub open spec fn args_of(g: Generator) -> Seq<String> {
    match g.args {
        Some(v) => v@,
        None => Seq::empty(),
    }
}

/// `inv` runs the command of `g` with its arguments.
pub open spec fn invokes(inv: Invocation, g: Generator) -> bool {
    g.command == Some(inv.command) && inv.args@ == args_of(g)
}

/// The message of the commits that generation creates; the hook recognises it.
pub open spec fn commit_message_text() -> Seq<char> {
    "nomgen generated"@
}

/// The steps of `generate`: load the configuration, check unless the check is
/// skipped (aborting on changes unless forced), run the generators, settle,
/// stage, and commit unless only staging.
pub open spec fn generate_steps(
    config: Option<String>,
    force: bool,
    only_stage: bool,
    skip_check: bool,
) -> Seq<Step> {
    seq![Step::LoadConfig(config)] + (if skip_check {
        Seq::empty()
    } else {
        seq![Step::Check { abort_on_violation: !force }]
    }) + seq![Step::RunGenerators, Step::Settle, Step::StageFiles] + (if only_stage {
        Seq::empty()
    } else {
        seq![Step::Commit]
    })
}

/// The commands to spawn for a configuration: one for each generator with a
/// command, in configuration order.
pub fn invocations(config: &Config) -> (r: Vec<Invocation>)
    ensures
        r@.len() == with_commands(config.generators@).len(),
        forall|i: int|
            0 <= i < r@.len() ==> invokes(#[trigger] r@[i], with_commands(config.generators@)[i]),
{
    let gens = &config.generators;
    let mut r: Vec<Invocation> = Vec::new();
    let mut i: usize = 0;
    while i < gens.len()
        invariant
            i <= gens@.len(),
            r@.len() == with_commands(gens@.subrange(0, i as int)).len(),
            forall|k: int|
                0 <= k < r@.len() ==> invokes(
                    #[trigger] r@[k],
                    with_commands(gens@.subrange(0, i as int))[k],
                ),
        decreases gens@.len() - i,
    {
        let ghost prev = with_commands(gens@.subrange(0, i as int));
        assert(gens@.subrange(0, i + 1).drop_last() =~= gens@.subrange(0, i as int));
        let g = &gens[i];
        if let Some(command) = &g.command {
            let args = match &g.args {
                Some(a) => clone_strings(a),
                None => Vec::new(),
            };
            r.push(Invocation { command: command.clone(), args });
        }
        i = i + 1;
    }
    assert(gens@.subrange(0, i as int) =~= gens@);
    r
}

/// Whether the pipeline goes on after a generator ended so: a failing
/// command is only reported, a command that cannot start stops everything.
pub fn continues_after(o: GeneratorOutcome) -> (r: bool)
    ensures
        r <==> !(o is SpawnFailed),
{
    match o {
        GeneratorOutcome::SpawnFailed => false,
        _ => true,
    }
}

/// Whether generation goes on after a check: always when nothing changed,
/// otherwise only when the check does not abort.
pub fn proceeds_after_check(abort_on_violation: bool, o: CheckResult) -> (r: bool)
    ensures
        r <==> (o == CheckResult::NoChangesDetected || !abort_on_violation),
{
    match o {
        CheckResult::NoChangesDetected => true,
        CheckResult::UndesiredChangesDetected => !abort_on_violation,
    }
}

/// The message of the commits that generation creates.
pub fn commit_message() -> (r: String)
    ensures
        r@ == commit_message_text(),
{
    "nomgen generated".to_owned()
}

fn clone_path(p: &Option<String>) -> (r: Option<String>)
    ensures
        r == *p,
{
    match p {
        Some(s) => Some(s.clone()),
        None => None,
    }
}

/// The steps of `generate` with the given options.
pub fn generate_plan(config: &Option<String>, force: bool, only_stage: bool, skip_check: bool) -> (r:
    Vec<Step>)
    ensures
        r@ == generate_steps(*config, force, only_stage, skip_check),
{
    let mut r: Vec<Step> = Vec::new();
    r.push(Step::LoadConfig(clone_path(config)));
    if !skip_check {
        r.push(Step::Check { abort_on_violation: !force });
    }
    r.push(Step::RunGenerators);
    r.push(Step::Settle);
    r.push(Step::StageFiles);
    if !only_stage {
        r.push(Step::Commit);
    }
    assert(r@ =~= generate_steps(*config, force, only_stage, skip_check));
    r
}

/// Generation that only stages never commits, whatever its other options:
/// running it again adds no commit.
pub proof fn lemma_only_stage_never_commits(config: Option<String>, force: bool, skip_check: bool)
    ensures
        forall|i: int|
            0 <= i < generate_steps(config, force, true, skip_check).len() ==> #[trigger] generate_steps(
                config,
                force,
                true,
                skip_check,
            )[i] != Step::Commit,
{
    let s = generate_steps(config, force, true, skip_check);
    assert forall|i: int| 0 <= i < s.len() implies #[trigger] s[i] != Step::Commit by {
        if skip_check {
            assert(s =~= seq![Step::LoadConfig(config), Step::RunGenerators, Step::Settle, Step::StageFiles]);
        } else {
            assert(s =~= seq![
                Step::LoadConfig(config),
                Step::Check { abort_on_violation: !force },
                Step::RunGenerators,
                Step::Settle,
                Step::StageFiles,
            ]);
        }
    }
}

/// Generation that commits ends with exactly one commit, after staging.
pub proof fn lemma_commit_follows_staging(config: Option<String>, force: bool, skip_check: bool)
    ensures
        ({
            let s = generate_steps(config, force, false, skip_check);
            &&& s.last() == Step::Commit
            &&& s[s.len() - 2] == Step::StageFiles
            &&& forall|i: int| 0 <= i < s.len() - 1 ==> #[trigger] s[i] != Step::Commit
        }),
{
    let s = generate_steps(config, force, false, skip_check);
    if skip_check {
        assert(s =~= seq![
            Step::LoadConfig(config),
            Step::RunGenerators,
            Step::Settle,
            Step::StageFiles,
            Step::Commit,
        ]);
    } else {
        assert(s =~= seq![
            Step::LoadConfig(config),
            Step::Check { abort_on_violation: !force },
            Step::RunGenerators,
            Step::Settle,
            Step::StageFiles,
            Step::Commit,
        ]);
    }
}

} // verus!
