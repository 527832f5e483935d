use vstd::prelude::*;
use crate::command::HookCmd;
use crate::generate::commit_message_text;

verus! {

/// The command line that the hook runs: `generate` only stages, since the
/// commit that triggers the hook is already under way.
pub open spec fn hook_command_text(c: HookCmd) -> Seq<char> {
    match c {
        HookCmd::Generate => "nomgen generate --only-stage"@,
        HookCmd::Check => "nomgen check"@,
    }
}

/// The script up to the command: it skips every run when the last commit
/// came from generation.
pub open spec fn hook_head() -> Seq<char> {
    "#!/bin/sh\n# Nomgen pre-commit hook\n#\n# Runs nomgen before each commit so that no undesired change to generated\n# files gets committed. Commits made by nomgen itself are skipped.\n\ncommit_message=$(git log --format=%B -n 1 HEAD)\nif echo \"$commit_message\" | grep -q \"nomgen generated\"; then\n    echo \"Last commit was made by nomgen, skipping nomgen runs.\"\n    exit 0\nfi\n\n"@
}

/// The script after the command: a failure blocks the commit.
pub open spec fn hook_tail() -> Seq<char> {
    "\n\nif [ $? -ne 0 ]; then\n    echo \"Pre-commit hook failed: nomgen detected undesired changes. Aborting commit.\"\n    exit 1\nfi\n\nexit 0\n"@
}

/// The whole hook script for a hook command.
pub open spec fn hook_script_text(c: HookCmd) -> Seq<char> {
    hook_head() + hook_command_text(c) + hook_tail()
}

/// The command line that the hook runs.
pub fn hook_command(c: HookCmd) -> (r: String)
    ensures
        r@ == hook_command_text(c),
{
    match c {
        HookCmd::Generate => "nomgen generate --only-stage".to_owned(),
        HookCmd::Check => "nomgen check".to_owned(),
    }
}

/// The text of the git hook script that runs the given command.
pub fn hook_script(c: HookCmd) -> (r: String)
    ensures
        r@ == hook_script_text(c),
{
    let mut r = "#!/bin/sh\n# Nomgen pre-commit hook\n#\n# Runs nomgen before each commit so that no undesired change to generated\n# files gets committed. Commits made by nomgen itself are skipped.\n\ncommit_message=$(git log --format=%B -n 1 HEAD)\nif echo \"$commit_message\" | grep -q \"nomgen generated\"; then\n    echo \"Last commit was made by nomgen, skipping nomgen runs.\"\n    exit 0\nfi\n\n".to_owned();
    let cmd = hook_command(c);
    r.append(cmd.as_str());
    r.append("\n\nif [ $? -ne 0 ]; then\n    echo \"Pre-commit hook failed: nomgen detected undesired changes. Aborting commit.\"\n    exit 1\nfi\n\nexit 0\n");
    r
}

/// The hook looks for the message of generation commits in the last commit
/// message: the script holds that message word for word.
pub proof fn lemma_hook_recognises_generated_commits(c: HookCmd)
    ensures
        exists|i: int|
            0 <= i && i + commit_message_text().len() <= hook_script_text(c).len()
                && #[trigger] hook_script_text(c).subrange(i, i + commit_message_text().len())
                == commit_message_text(),
{
    reveal_strlit("nomgen generated");
    reveal_strlit("#!/bin/sh\n# Nomgen pre-commit hook\n#\n# Runs nomgen before each commit so that no undesired change to generated\n# files gets committed. Commits made by nomgen itself are skipped.\n\ncommit_message=$(git log --format=%B -n 1 HEAD)\nif echo \"$commit_message\" | grep -q \"nomgen generated\"; then\n    echo \"Last commit was made by nomgen, skipping nomgen runs.\"\n    exit 0\nfi\n\n");
    let t = hook_script_text(c);
    let m = commit_message_text();
    assert(t.subrange(264, 264 + m.len() as int) =~= m);
}

} // verus!
