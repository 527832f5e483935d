use vstd::prelude::*;
use crate::generate::{Step, generate_plan, generate_steps};

verus! {

/// Which command the git hook runs.
#[derive(PartialEq, Eq, Structural, Debug, Clone, Copy)]
pub enum HookCmd {
    Generate,
    Check,
}

/// Options of `generate`.
pub struct GenerateArgs {
    /// Path to the configuration file.
    pub config: Option<String>,
    /// Generate even when the check detects changes.
    pub force: bool,
    /// Stage the generated files without committing them.
    pub only_stage: bool,
    /// Do not check the protected files first.
    pub skip_check: bool,
}

/// Options of `check`.
pub struct CheckArgs {
    /// Path to the configuration file.
    pub config: Option<String>,
}

/// Options of `hook`.
pub struct HookArgs {
    /// Directory of the hook; the `hooks` directory of the nearest `.git` when absent.
    pub hook_dir: Option<String>,
    /// File name of the hook.
    pub hook_name: String,
    /// Command that the hook runs.
    pub hook_cmd: HookCmd,
}

/// A subcommand with its options.
pub enum Subcommand {
    Generate(GenerateArgs),
    Check(CheckArgs),
    Hook(HookArgs),
}

/// The name of a hook command on the command line.
pub open spec fn hook_cmd_text(c: HookCmd) -> Seq<char> {
    match c {
        HookCmd::Generate => "generate"@,
        HookCmd::Check => "check"@,
    }
}

/// The message for a hook command name that is not known.
pub open spec fn unknown_hook_cmd_message(s: Seq<char>) -> Seq<char> {
    "Unknown hook command: "@ + s
}

/// The steps that a subcommand performs.
pub open spec fn steps_of(c: Subcommand) -> Seq<Step> {
    match c {
        Subcommand::Generate(a) => generate_steps(a.config, a.force, a.only_stage, a.skip_check),
        Subcommand::Check(a) => seq![
            Step::LoadConfig(a.config),
            Step::Check { abort_on_violation: true },
        ],
        Subcommand::Hook(a) => seq![
            Step::WriteHook { dir: a.hook_dir, name: a.hook_name, cmd: a.hook_cmd },
        ],
    }
}

/// Whether two strings hold the same characters.
pub fn same_text(a: &str, b: &str) -> (r: bool)
    ensures
        r == (a@ == b@),
{
    let n = a.unicode_len();
    if n != b.unicode_len() {
        return false;
    }
    let mut i: usize = 0;
    while i < n
        invariant
            n == a@.len(),
            n == b@.len(),
            i <= n,
            forall|k: int| 0 <= k < i ==> a@[k] == b@[k],
        decreases n - i,
    {
        if a.get_char(i) != b.get_char(i) {
            return false;
        }
        i = i + 1;
    }
    assert(a@ =~= b@);
    true
}

impl HookCmd {
    /// Reads a hook command from its name, `generate` or `check`.
    pub fn parse(s: &str) -> (r: Result<HookCmd, String>)
        ensures
            s@ == "generate"@ ==> r == Ok::<HookCmd, String>(HookCmd::Generate),
            s@ == "check"@ ==> r == Ok::<HookCmd, String>(HookCmd::Check),
            s@ != "generate"@ && s@ != "check"@ ==> (r matches Err(m) && m@
                == unknown_hook_cmd_message(s@)),
    {
        proof {
            reveal_strlit("generate");
            reveal_strlit("check");
            assert("generate"@.len() != "check"@.len());
        }
        if same_text(s, "generate") {
            Ok(HookCmd::Generate)
        } else if same_text(s, "check") {
            Ok(HookCmd::Check)
        } else {
            let mut m = "Unknown hook command: ".to_owned();
            m.append(s);
            Err(m)
        }
    }

    /// The name of the hook command on the command line.
    pub fn name(&self) -> (r: String)
        ensures
            r@ == hook_cmd_text(*self),
    {
        match self {
            HookCmd::Generate => "generate".to_owned(),
            HookCmd::Check => "check".to_owned(),
        }
    }
}

impl std::str::FromStr for HookCmd {
    type Err = String;

    fn from_str(s: &str) -> Result<HookCmd, String> {
        HookCmd::parse(s)
    }
}

fn clone_text(p: &Option<String>) -> (r: Option<String>)
    ensures
        r == *p,
{
    match p {
        Some(s) => Some(s.clone()),
        None => None,
    }
}

impl Subcommand {
    /// The steps that this subcommand performs, in order: `generate` as its
    /// options say, `check` loads the configuration and checks, aborting on
    /// changes, and `hook` writes the hook script.
    pub fn run(&self) -> (r: Vec<Step>)
        ensures
            r@ == steps_of(*self),
    {
        match self {
            Subcommand::Generate(a) => generate_plan(&a.config, a.force, a.only_stage, a.skip_check),
            Subcommand::Check(a) => {
                let mut r: Vec<Step> = Vec::new();
                r.push(Step::LoadConfig(clone_text(&a.config)));
                r.push(Step::Check { abort_on_violation: true });
                assert(r@ =~= steps_of(*self));
                r
            },
            Subcommand::Hook(a) => {
                let mut r: Vec<Step> = Vec::new();
                r.push(
                    Step::WriteHook {
                        dir: clone_text(&a.hook_dir),
                        name: a.hook_name.clone(),
                        cmd: a.hook_cmd,
                    },
                );
                assert(r@ =~= steps_of(*self));
                r
            },
        }
    }
}

} // verus!
