use mq_agent::text::{first_segment, u16_to_string};
use mq_agent::topology::{topology_plan, RoutingTopology, TopologyOp};

#[test]
fn bob_worker_topology() {
    let t = RoutingTopology::derive("bob.worker");
    assert_eq!(t.client_exchange, "bob");
    assert_eq!(t.routing_key, "bob.worker.#");
    assert_eq!(t.broadcast_exchange, "all");
    assert_eq!(t.broadcast_key, "all.#");
}

#[test]
fn dotless_name_topology() {
    let t = RoutingTopology::derive("alice");
    assert_eq!(t.client_exchange, "alice");
    assert_eq!(t.routing_key, "alice.#");
    assert_eq!(t.broadcast_exchange, "all");
    assert_eq!(t.broadcast_key, "all.#");
}

#[test]
fn topology_plan_order() {
    let t = RoutingTopology::derive("bob.worker");
    let ops = topology_plan(&t);
    assert_eq!(ops.len(), 5);
    assert!(matches!(&ops[0], TopologyOp::DeclareExclusiveQueue));
    match &ops[1] {
        TopologyOp::DeclareTopicExchange { name } => assert_eq!(name, "bob"),
        _ => panic!("expected client exchange declaration"),
    }
    match &ops[2] {
        TopologyOp::DeclareTopicExchange { name } => assert_eq!(name, "all"),
        _ => panic!("expected broadcast exchange declaration"),
    }
    match &ops[3] {
        TopologyOp::BindQueue { exchange, key } => {
            assert_eq!(exchange, "bob");
            assert_eq!(key, "bob.worker.#");
        }
        _ => panic!("expected client binding"),
    }
    match &ops[4] {
        TopologyOp::BindQueue { exchange, key } => {
            assert_eq!(exchange, "all");
            assert_eq!(key, "all.#");
        }
        _ => panic!("expected broadcast binding"),
    }
}

#[test]
fn client_exchange_is_first_segment_of_routing_key() {
    for name in ["bob.worker", "alice", "a.b.c"] {
        let t = RoutingTopology::derive(name);
        assert_eq!(first_segment(&t.routing_key), t.client_exchange);
    }
}

#[test]
fn first_segment_variants() {
    assert_eq!(first_segment("bob.worker"), "bob");
    assert_eq!(first_segment("bob.worker.#"), "bob");
    assert_eq!(first_segment("alice"), "alice");
    assert_eq!(first_segment(""), "");
    assert_eq!(first_segment(".hidden"), "");
}

#[test]
fn decimal_rendering() {
    assert_eq!(u16_to_string(0), "0");
    assert_eq!(u16_to_string(7), "7");
    assert_eq!(u16_to_string(5671), "5671");
    assert_eq!(u16_to_string(5672), "5672");
    assert_eq!(u16_to_string(65535), "65535");
}
