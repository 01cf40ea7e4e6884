//! The envelope dispatcher: self-echo suppression, routing by method
//! name, and the local-error reports for missing or malformed
//! payloads.
use vstd::prelude::*;

use crate::git_cred::GitCredential;
use crate::shell::ShellParam;
use crate::text::str_eq;

verus! {

/// A decoded wire message: who sent it, which method it requests, and
/// the method-specific payload text, if any.
pub struct Envelope {
    pub sender: String,
    pub method: String,
    pub payload: Option<String>,
}

/// The closed set of known methods.
#[derive(Clone, Copy, PartialEq, Eq, Structural, Debug)]
pub enum Method {
    GitCredential,
    Shell,
    Test,
}

/// Which known method a method name denotes, if any.
pub open spec fn spec_method_of(m: Seq<char>) -> Option<Method> {
    if m == "git-credential"@ {
        Some(Method::GitCredential)
    } else if m == "shell"@ {
        Some(Method::Shell)
    } else if m == "test"@ {
        Some(Method::Test)
    } else {
        None
    }
}

/// Where one envelope goes. No state is retained across envelopes.
pub enum Route {
    /// The sender is this client itself: a broadcast echoed back.
    /// Discarded silently, whatever the method.
    Suppressed,
    /// A known method: hand the payload to its handler.
    Invoke { method: Method, payload: Option<String> },
    /// An unknown method: logged and dropped, no handler and no
    /// report.
    DropUnknown,
}

/// The routing decision for `env` received by the client named `own`.
pub open spec fn spec_route(env: Envelope, own: Seq<char>) -> Route {
    if env.sender@ == own {
        Route::Suppressed
    } else {
        match spec_method_of(env.method@) {
            Some(m) => Route::Invoke { method: m, payload: env.payload },
            None => Route::DropUnknown,
        }
    }
}

/// Routes one envelope, exactly as `spec_route` says.
pub fn route_envelope(env: Envelope, own: &str) -> (r: Route)
    ensures
        r == spec_route(env, own@),
{
    if str_eq(env.sender.as_str(), own) {
        Route::Suppressed
    } else if str_eq(env.method.as_str(), "git-credential") {
        Route::Invoke { method: Method::GitCredential, payload: env.payload }
    } else if str_eq(env.method.as_str(), "shell") {
        Route::Invoke { method: Method::Shell, payload: env.payload }
    } else if str_eq(env.method.as_str(), "test") {
        Route::Invoke { method: Method::Test, payload: env.payload }
    } else {
        Route::DropUnknown
    }
}

/// Self-echo suppression: an envelope whose sender is this client is
/// never routed to any handler, whatever its method or payload.
pub proof fn lemma_self_echo_suppressed(env: Envelope, own: Seq<char>)
    requires
        env.sender@ == own,
    ensures
        spec_route(env, own) is Suppressed,
{
}

/// An envelope from another sender with an unknown method is dropped:
/// no handler is invoked and nothing is reported.
pub proof fn lemma_unknown_method_dropped(env: Envelope, own: Seq<char>)
    requires
        env.sender@ != own,
        spec_method_of(env.method@) is None,
    ensures
        spec_route(env, own) is DropUnknown,
{
}

/// Whatever the payload holds (present, absent, or malformed), an
/// envelope from another sender whose method is `test` is routed to
/// the test handler, which reports the one fixed acknowledgment.
pub proof fn lemma_test_method_always_acks(env: Envelope, own: Seq<char>)
    requires
        env.sender@ != own,
        env.method@ == "test"@,
    ensures
        (spec_route(env, own) matches Route::Invoke { method, .. } && method is Test),
{
    reveal_strlit("test");
    reveal_strlit("shell");
    reveal_strlit("git-credential");
    assert(env.method@ != "git-credential"@) by {
        assert("test"@.len() == 4);
        assert("git-credential"@.len() == 14);
    }
    assert(env.method@ != "shell"@) by {
        assert("test"@.len() == 4);
        assert("shell"@.len() == 5);
    }
}

/// The outcome of handing a payload to the git-credential handler.
pub enum GitStep {
    /// The payload decoded: run the handler on it.
    Run(GitCredential),
    /// The payload was missing or malformed: log, and report this
    /// text; nothing propagates further.
    ReportInvalid(String),
}

/// Decides the git-credential step from the payload decode outcome:
/// a decoded credential is handed on unchanged, anything else yields
/// the method-tagged error report.
pub fn git_credential_step(parsed: Option<GitCredential>) -> (s: GitStep)
    ensures
        parsed matches Some(c0) ==> (s matches GitStep::Run(c) && c == c0),
        parsed is None ==> (s matches GitStep::ReportInvalid(t) && t@
            == "[git-credential] Invalid git credential JSON"@),
{
    match parsed {
        Some(c) => GitStep::Run(c),
        None => GitStep::ReportInvalid("[git-credential] Invalid git credential JSON".to_owned()),
    }
}

/// The outcome of handing a payload to the shell handler.
pub enum ShellStep {
    /// The payload decoded: run the handler on it.
    Run(ShellParam),
    /// The payload was missing or malformed: log, and report this
    /// text; nothing propagates further.
    ReportInvalid(String),
}

/// Decides the shell step from the payload decode outcome: a decoded
/// parameter set is handed on unchanged, anything else yields the
/// method-tagged error report.
pub fn shell_step(parsed: Option<ShellParam>) -> (s: ShellStep)
    ensures
        parsed matches Some(p0) ==> (s matches ShellStep::Run(p) && p == p0),
        parsed is None ==> (s matches ShellStep::ReportInvalid(t) && t@
            == "[shell] Invalid shell JSON"@),
{
    match parsed {
        Some(p) => ShellStep::Run(p),
        None => ShellStep::ReportInvalid("[shell] Invalid shell JSON".to_owned()),
    }
}

/// The fixed acknowledgment text the `test` method reports: one
/// report, the same whatever the payload held.
pub fn test_ack() -> (r: String)
    ensures
        r@ == "Test message received"@,
{
    "Test message received".to_owned()
}

} // verus!
