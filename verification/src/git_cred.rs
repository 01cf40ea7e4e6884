//! The git-credential handler's decision logic: when the higher-level
//! helper is used, and exactly which processes are run with which
//! input text.
use vstd::prelude::*;
use vstd::string::StringExecFns;

use crate::text::str_eq;

verus! {

/// The decoded `git-credential` payload.
pub struct GitCredential {
    pub protocol: String,
    pub host: String,
    pub username: String,
    /// Secret: it is written only to a child process's input stream,
    /// never to a report or display string.
    pub password: String,
}

/// One child process the handler runs: the program, its arguments,
/// and the text written to its input stream before it is closed. The
/// standard output and error streams are inherited.
pub struct ProcessStep {
    pub program: String,
    pub args: Vec<String>,
    pub input: String,
}

/// The credential is one the higher-level helper recognises.
pub open spec fn spec_wants_helper(c: GitCredential) -> bool {
    c.host@ == "github.com"@ && c.protocol@ == "https"@
}

/// The line-oriented description handed to the standard credential
/// store's approval step.
pub open spec fn spec_approve_input(c: GitCredential) -> Seq<char> {
    "protocol="@ + c.protocol@ + "\nhost="@ + c.host@ + "\nusername="@ + c.username@
        + "\npassword="@ + c.password@ + "\n\n"@
}

/// Relies on which::which: searches the directories of the system
/// path for an executable of the given name. The outcome depends on
/// the environment, so nothing is promised of it.
#[verifier::external_body]
fn executable_on_path(name: &str) -> (r: bool) {
    which::which(name).is_ok()
}

impl GitCredential {
    /// Whether the higher-level helper applies to this credential.
    pub fn wants_helper(&self) -> (r: bool)
        ensures
            r == spec_wants_helper(*self),
    {
        str_eq(self.host.as_str(), "github.com") && str_eq(self.protocol.as_str(), "https")
    }

    /// The approval text for the standard credential store.
    pub fn approve_input(&self) -> (r: String)
        ensures
            r@ == spec_approve_input(*self),
    {
        let mut r = "protocol=".to_owned();
        r.append(self.protocol.as_str());
        r.append("\nhost=");
        r.append(self.host.as_str());
        r.append("\nusername=");
        r.append(self.username.as_str());
        r.append("\npassword=");
        r.append(self.password.as_str());
        r.append("\n\n");
        proof {
            assert(r@ =~= spec_approve_input(*self));
        }
        r
    }
}

/// The processes the handler runs for `c`, in order. The last step is
/// always the standard approval step; a helper step stands before it
/// only when the credential is one the helper recognises and the
/// helper executable was found on the system path. Helper failures do
/// not short-circuit: the approval step runs either way.
pub fn credential_plan(c: &GitCredential) -> (steps: Vec<ProcessStep>)
    ensures
        1 <= steps@.len() <= 2,
        !spec_wants_helper(*c) ==> steps@.len() == 1,
        steps@.len() == 2 ==> {
            &&& spec_wants_helper(*c)
            &&& steps@[0].program@ == "gh"@
            &&& steps@[0].args.deep_view() == seq!["auth"@, "login"@, "--with-token"@]
            &&& steps@[0].input@ == c.password@
        },
        steps@.last().program@ == "git"@,
        steps@.last().args.deep_view() == seq!["credential"@, "approve"@],
        steps@.last().input@ == spec_approve_input(*c),
{
    let mut steps: Vec<ProcessStep> = Vec::new();
    if c.wants_helper() && executable_on_path("gh") {
        let mut gh_args: Vec<String> = Vec::new();
        gh_args.push("auth".to_owned());
        gh_args.push("login".to_owned());
        gh_args.push("--with-token".to_owned());
        proof {
            assert(gh_args.deep_view() =~= seq!["auth"@, "login"@, "--with-token"@]);
        }
        steps.push(
            ProcessStep {
                program: "gh".to_owned(),
                args: gh_args,
                input: c.password.clone(),
            },
        );
    }
    let mut git_args: Vec<String> = Vec::new();
    git_args.push("credential".to_owned());
    git_args.push("approve".to_owned());
    proof {
        assert(git_args.deep_view() =~= seq!["credential"@, "approve"@]);
    }
    steps.push(
        ProcessStep {
            program: "git".to_owned(),
            args: git_args,
            input: c.approve_input(),
        },
    );
    steps
}

} // verus!
