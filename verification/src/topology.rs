//! Routing topology: the per-client exchange and binding key, the
//! fixed broadcast channel, and the ordered declaration plan that sets
//! them up on a fresh connection.
use vstd::prelude::*;
use vstd::string::StringExecFns;

use crate::text::{first_segment, spec_first_segment};

verus! {

/// The names and keys that address one client on the broker.
pub struct RoutingTopology {
    /// The first dot-separated segment of the client identity.
    pub client_exchange: String,
    /// `{client_name}.#`.
    pub routing_key: String,
    /// The fixed broadcast channel name.
    pub broadcast_exchange: String,
    /// `all.#`.
    pub broadcast_key: String,
}

/// `t` addresses the client named `name`.
pub open spec fn spec_topology_for(t: RoutingTopology, name: Seq<char>) -> bool {
    &&& t.client_exchange@ == spec_first_segment(name)
    &&& t.routing_key@ == name + ".#"@
    &&& t.broadcast_exchange@ == "all"@
    &&& t.broadcast_key@ == "all.#"@
}

impl RoutingTopology {
    /// Derives the routing topology for the client named `name`.
    pub fn derive(name: &str) -> (t: RoutingTopology)
        ensures
            spec_topology_for(t, name@),
    {
        let mut routing_key = name.to_owned();
        routing_key.append(".#");
        RoutingTopology {
            client_exchange: first_segment(name),
            routing_key,
            broadcast_exchange: "all".to_owned(),
            broadcast_key: "all.#".to_owned(),
        }
    }
}

/// The client exchange is the first dot-separated segment of the
/// routing key `{client_name}.#` itself, not only of the client name:
/// the appended `.#` begins with a dot, so it never extends the
/// segment.
pub proof fn lemma_client_exchange_from_routing_key(t: RoutingTopology, name: Seq<char>)
    requires
        spec_topology_for(t, name),
    ensures
        t.client_exchange@ == spec_first_segment(t.routing_key@),
{
    reveal_strlit(".#");
    crate::text::lemma_first_segment_append_dotted(name, ".#"@);
}

/// One idempotent step of the topology setup, in terms the broker
/// session understands.
pub enum TopologyOp {
    /// Declare an exclusive, auto-named queue scoped to this
    /// connection.
    DeclareExclusiveQueue,
    /// Declare the named exchange with the topic kind.
    DeclareTopicExchange { name: String },
    /// Bind the queue declared by the first step to the named exchange
    /// under the given binding key.
    BindQueue { exchange: String, key: String },
}

/// The ordered setup plan for `t`: queue first, then both exchanges,
/// then both bindings. Any step failing discards the connection
/// wholesale, so partial declaration needs no cleanup step here.
pub fn topology_plan(t: &RoutingTopology) -> (ops: Vec<TopologyOp>)
    ensures
        ops@.len() == 5,
        ops@[0] is DeclareExclusiveQueue,
        (ops@[1] matches TopologyOp::DeclareTopicExchange { name } && name@
            == t.client_exchange@),
        (ops@[2] matches TopologyOp::DeclareTopicExchange { name } && name@
            == t.broadcast_exchange@),
        (ops@[3] matches TopologyOp::BindQueue { exchange, key } && exchange@
            == t.client_exchange@ && key@ == t.routing_key@),
        (ops@[4] matches TopologyOp::BindQueue { exchange, key } && exchange@
            == t.broadcast_exchange@ && key@ == t.broadcast_key@),
{
    let mut ops: Vec<TopologyOp> = Vec::new();
    ops.push(TopologyOp::DeclareExclusiveQueue);
    ops.push(TopologyOp::DeclareTopicExchange { name: t.client_exchange.clone() });
    ops.push(TopologyOp::DeclareTopicExchange { name: t.broadcast_exchange.clone() });
    ops.push(
        TopologyOp::BindQueue {
            exchange: t.client_exchange.clone(),
            key: t.routing_key.clone(),
        },
    );
    ops.push(
        TopologyOp::BindQueue {
            exchange: t.broadcast_exchange.clone(),
            key: t.broadcast_key.clone(),
        },
    );
    ops
}

} // verus!
