//! The shell command handler's decision logic: what to spawn for a
//! given payload, and the outcome report strings.
use vstd::prelude::*;
use vstd::string::StringExecFns;

verus! {

/// The decoded `shell` payload: the command as argument vector, and
/// optional environment overrides.
pub struct ShellParam {
    /// The program followed by its arguments; an empty list is a
    /// no-op.
    pub command: Vec<String>,
    /// Environment variables merged over the current environment.
    pub env: Option<Vec<(String, String)>>,
}

/// What a `shell` command asks the process layer to run.
pub struct SpawnSpec {
    pub program: String,
    pub args: Vec<String>,
    pub env: Vec<(String, String)>,
}

/// The handler's decision for one payload.
pub enum ShellAction {
    /// The command list was empty: log it, spawn nothing, report
    /// nothing.
    Noop,
    /// Spawn the child process, inheriting the standard streams, and
    /// wait for it.
    Spawn(SpawnSpec),
}

/// The environment overrides as a sequence of key/value pairs; absent
/// overrides mean none.
pub open spec fn spec_env_pairs(e: Option<Vec<(String, String)>>) -> Seq<(Seq<char>, Seq<char>)> {
    match e {
        Some(v) => v.deep_view(),
        None => Seq::<(Seq<char>, Seq<char>)>::empty(),
    }
}

/// Decides what to run for `p`: nothing for an empty command list,
/// else the first entry as program with the rest as arguments and the
/// overrides as given.
pub fn shell_plan(p: ShellParam) -> (a: ShellAction)
    ensures
        p.command@.len() == 0 <==> a is Noop,
        a matches ShellAction::Spawn(s) ==> {
            &&& s.program@ == p.command.deep_view()[0]
            &&& s.args.deep_view() == p.command.deep_view().drop_first()
            &&& s.env.deep_view() == spec_env_pairs(p.env)
        },
{
    if p.command.len() == 0 {
        return ShellAction::Noop;
    }
    let program = p.command[0].clone();
    let mut args: Vec<String> = Vec::new();
    let mut i: usize = 1;
    while i < p.command.len()
        invariant
            1 <= i <= p.command@.len(),
            args@.len() == i - 1,
            forall|j: int| 0 <= j < i - 1 ==> args@[j] == p.command@[j + 1],
        decreases p.command@.len() - i,
    {
        args.push(p.command[i].clone());
        i = i + 1;
    }
    let env: Vec<(String, String)> = match p.env {
        Some(v) => v,
        None => Vec::new(),
    };
    proof {
        assert(args.deep_view() =~= p.command.deep_view().drop_first());
        assert(env.deep_view() =~= spec_env_pairs(p.env));
    }
    ShellAction::Spawn(SpawnSpec { program, args, env })
}

/// How a spawned shell command ended, as the process layer observed
/// it.
pub enum ShellOutcome {
    /// The child was awaited to completion: whether its exit status
    /// was success, and that status rendered as text.
    Completed { success: bool, status: String },
    /// The child could not be spawned.
    SpawnFailed { error: String },
    /// The child was spawned but could not be awaited.
    WaitFailed { error: String },
}

/// The report text for each way a shell command can end.
pub fn shell_report(o: &ShellOutcome) -> (r: String)
    ensures
        o matches ShellOutcome::Completed { success, status } ==> r@ == (if *success {
            "[shell] Command executed successfully"@
        } else {
            "[shell] Command exited with status: "@ + status@
        }),
        o matches ShellOutcome::SpawnFailed { error } ==> r@
            == "[shell] Failed to execute command: "@ + error@,
        o matches ShellOutcome::WaitFailed { error } ==> r@
            == "[shell] Failed to wait on child process: "@ + error@,
{
    match o {
        ShellOutcome::Completed { success, status } => {
            if *success {
                "[shell] Command executed successfully".to_owned()
            } else {
                let mut r = "[shell] Command exited with status: ".to_owned();
                r.append(status.as_str());
                r
            }
        },
        ShellOutcome::SpawnFailed { error } => {
            let mut r = "[shell] Failed to execute command: ".to_owned();
            r.append(error.as_str());
            r
        },
        ShellOutcome::WaitFailed { error } => {
            let mut r = "[shell] Failed to wait on child process: ".to_owned();
            r.append(error.as_str());
            r
        },
    }
}

/// The success report is distinct from every failure report: whatever
/// the rendered exit status says, a reader can tell the two apart.
pub proof fn lemma_shell_reports_distinct(status: Seq<char>)
    ensures
        "[shell] Command executed successfully"@ != "[shell] Command exited with status: "@
            + status,
{
    reveal_strlit("[shell] Command executed successfully");
    reveal_strlit("[shell] Command exited with status: ");
    let a = "[shell] Command executed successfully"@;
    let b = "[shell] Command exited with status: "@ + status;
    assert(a[18] == 'e');
    assert(b[18] == 'i');
}

} // verus!
