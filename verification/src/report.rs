//! The result reporter's plan: the fixed local broker address, the
//! fixed logging exchange, and the per-client routing key under which
//! an outcome text is published.
use vstd::prelude::*;
use vstd::string::StringExecFns;

verus! {

/// Everything a fire-and-forget publish needs: where to connect,
/// which topic exchange to declare, and under which key to publish
/// which text. Failures while carrying it out are logged and
/// swallowed; reporting is diagnostic, never load-bearing.
pub struct ReportPlan {
    pub addr: String,
    pub exchange: String,
    pub routing_key: String,
    pub body: String,
}

/// The routing key under which `client_name`'s reports are published.
pub open spec fn spec_report_key(client_name: Seq<char>) -> Seq<char> {
    "logging.rpc."@ + client_name
}

/// The plan for publishing `text` as a report of `client_name`: the
/// fixed local broker address and `logging` exchange, the client's
/// report routing key, and the text itself, unchanged.
pub fn report_plan(client_name: &str, text: &str) -> (p: ReportPlan)
    ensures
        p.addr@ == "amqp://127.0.0.1:5672/%2f"@,
        p.exchange@ == "logging"@,
        p.routing_key@ == spec_report_key(client_name@),
        p.body@ == text@,
{
    let mut routing_key = "logging.rpc.".to_owned();
    routing_key.append(client_name);
    ReportPlan {
        addr: "amqp://127.0.0.1:5672/%2f".to_owned(),
        exchange: "logging".to_owned(),
        routing_key,
        body: text.to_owned(),
    }
}

} // verus!
