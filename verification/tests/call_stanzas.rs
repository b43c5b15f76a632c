//! Stanzas in, reactions out.
use call_handler::address::Jid;
use call_handler::handler::{CallHandler, Handling, Reaction};
use call_handler::plan::{perform_on_registry, MissedCall, MissedReason, Step};
use call_handler::registry::{
    end_call, is_registered, new_registry, rekey, take_dismiss_targets,
};
use call_handler::stanza::{offer_ack_receipt, Dismissal, Elsewhere};
use wacore::types::call::IncomingCall;
use wacore::voip::{CallRegistry, CallSession};
use wacore_binary::builder::NodeBuilder;
use wacore_binary::Jid as WireJid;
use wacore_binary::{marshal, Node, OwnedNodeRef, Server};

/// What performing the steps of a reaction comes to.
#[derive(Default)]
struct Log {
    handled: bool,
    missed: Vec<MissedCall>,
    rekeys: Vec<(String, String)>,
    sent: Vec<Node>,
    ended: Vec<String>,
    delivered: Vec<IncomingCall>,
    order: Vec<&'static str>,
}

fn received(node: &Node) -> OwnedNodeRef {
    let bytes = marshal(node).expect("stanza should encode");
    OwnedNodeRef::new(bytes[1..].to_vec()).expect("stanza should decode")
}

fn handle(registry: &mut CallRegistry, node: &Node) -> Handling {
    CallHandler.handle(registry, received(node).get())
}

fn run(registry: &mut CallRegistry, node: &Node) -> Log {
    let handling = handle(registry, node);
    let mut log = Log {
        handled: handling.handled,
        ..Log::default()
    };
    if let Reaction::Act { call, steps } = handling.reaction {
        for step in steps {
            perform_on_registry(registry, &step);
            match step {
                Step::Missed(missed) => {
                    log.missed.push(missed);
                    log.order.push("missed");
                }
                Step::AckOffer => {
                    let receipt = offer_ack_receipt(&call, &None, &None);
                    log.sent.push(receipt.expect("an offer has a receipt"));
                    log.order.push("ack");
                }
                Step::Rekey { call_id, answering } => {
                    log.rekeys.push((call_id, answering));
                    log.order.push("rekey");
                }
                Step::Dismiss(dismissal) => {
                    let id = format!("REQUEST-{}", log.sent.len());
                    log.sent.push(dismissal.stanza(&id));
                    log.order.push("dismiss");
                }
                Step::EndCall { call_id } => {
                    log.ended.push(call_id);
                    log.order.push("end");
                }
                Step::Deliver => {
                    log.delivered.push(call.clone());
                    log.order.push("deliver");
                }
            }
        }
    }
    log
}

fn fake_caller_lid() -> WireJid {
    WireJid::new("111111111111111", Server::Lid)
}

fn peer() -> WireJid {
    WireJid::new("222222222222222", Server::Lid)
}

fn offer_stanza() -> Node {
    NodeBuilder::new("call")
        .attr("from", fake_caller_lid())
        .attr("id", "STANZA-ID-0001")
        .attr("t", "1766847151")
        .children([NodeBuilder::new("offer")
            .attr("call-creator", fake_caller_lid())
            .attr("call-id", "CALL-ID-0001")
            .children([NodeBuilder::new("audio")
                .attr("enc", "opus")
                .attr("rate", "16000")
                .build()])
            .build()])
        .build()
}

fn offline_offer_stanza() -> Node {
    let mut stanza = offer_stanza();
    stanza.attrs.insert("offline", "1");
    stanza
}

fn action_stanza(tag: &'static str, from: &WireJid, call_id: &str) -> Node {
    NodeBuilder::new("call")
        .attr("from", from)
        .attr("id", "STANZA-ACTION")
        .attr("t", "1766847151")
        .children([NodeBuilder::new(tag)
            .attr("call-creator", fake_caller_lid())
            .attr("call-id", call_id)
            .build()])
        .build()
}

fn ring(registry: &CallRegistry, call_id: &str, devices: Vec<WireJid>) {
    let mut session = CallSession::new_outgoing(call_id, peer(), fake_caller_lid());
    session.ring_devices = devices;
    registry.insert(session);
}

fn addressees(nodes: &[Node]) -> Vec<String> {
    nodes
        .iter()
        .map(|node| node.attrs.get("to").expect("addressed").to_string())
        .collect()
}

#[test]
fn offer_dispatches_event() {
    let mut registry = CallRegistry::new();
    let log = run(&mut registry, &offer_stanza());
    assert!(log.handled);
    assert!(
        log.delivered
            .iter()
            .any(|call| call.action.call_id() == "CALL-ID-0001"),
        "IncomingCall event must be dispatched"
    );
}

#[test]
fn unrecognized_action_does_not_dispatch() {
    let mut registry = CallRegistry::new();
    let stanza = NodeBuilder::new("call")
        .attr("from", fake_caller_lid())
        .attr("id", "S")
        .attr("t", "1766847151")
        .children([NodeBuilder::new("surprise").build()])
        .build();
    let log = run(&mut registry, &stanza);
    assert!(log.handled);
    assert!(
        log.delivered.is_empty(),
        "must not dispatch IncomingCall for unknown action"
    );
    assert!(matches!(
        handle(&mut registry, &stanza).reaction,
        Reaction::Unrecognized
    ));
}

#[test]
fn offer_triggers_outbound_send() {
    let mut registry = CallRegistry::new();
    let log = run(&mut registry, &offer_stanza());
    assert!(log.handled);
    assert!(
        log.sent.len() >= 1,
        "handler must invoke the outbound send path for offer ack receipts"
    );
    assert_eq!(log.sent.len(), 1);
    assert_eq!(log.order, vec!["ack", "deliver"]);
}

#[test]
fn malformed_stanza_does_not_error_or_dispatch() {
    let mut registry = CallRegistry::new();
    let stanza = NodeBuilder::new("call")
        .attr("from", fake_caller_lid())
        .attr("id", "S")
        .children([NodeBuilder::new("offer")
            .attr("call-creator", fake_caller_lid())
            .attr("call-id", "X")
            .build()])
        .build();
    let log = run(&mut registry, &stanza);
    assert!(log.handled);
    assert!(log.delivered.is_empty());
    assert!(matches!(
        handle(&mut registry, &stanza).reaction,
        Reaction::Malformed(_)
    ));
}

#[test]
fn accept_dismisses_other_callee_device() {
    let mut registry = CallRegistry::new();
    let creator = fake_caller_lid();
    let (sibling, accepting) = (peer().with_device(1), peer().with_device(2));
    ring(
        &registry,
        "CALL-ID-0001",
        vec![sibling.clone(), accepting.clone()],
    );

    let accept = NodeBuilder::new("call")
        .attr("from", accepting.clone())
        .attr("id", "STANZA-ACCEPT")
        .attr("t", "1766847151")
        .children([NodeBuilder::new("accept")
            .attr("call-creator", creator.clone())
            .attr("call-id", "CALL-ID-0001")
            .build()])
        .build();
    let log = run(&mut registry, &accept);
    assert!(log.handled);

    assert_eq!(log.sent.len(), 1, "a dismiss <terminate> must be sent");
    let sent = &log.sent[0];
    let r = sent.as_node_ref();
    assert_eq!(r.tag, "call");
    assert_eq!(
        r.attrs().optional_string("to").as_deref(),
        Some(sibling.to_string().as_str())
    );
    assert!(
        r.attrs().optional_string("id").is_some(),
        "wrapper needs an id"
    );
    let term = &r.children().unwrap()[0];
    assert_eq!(term.tag, "terminate");
    assert_eq!(
        term.attrs().optional_string("reason").as_deref(),
        Some("accepted_elsewhere")
    );
    assert!(
        term.get_optional_child("destination").is_none(),
        "terminate must not use a <destination> block"
    );
    assert!(
        take_dismiss_targets(&mut registry, "CALL-ID-0001").is_none(),
        "the rung device set must be consumed one-shot"
    );
    assert!(registry.take_dismiss_targets("CALL-ID-0001").is_none());
}

#[test]
fn terminate_tears_down_the_call() {
    let mut registry = CallRegistry::new();
    let creator = fake_caller_lid();
    registry.insert(CallSession::new_outgoing(
        "CALL-ID-0001",
        peer(),
        creator.clone(),
    ));
    assert!(
        registry.generation_of("CALL-ID-0001").is_some(),
        "precondition: the call is registered"
    );

    let terminate = NodeBuilder::new("call")
        .attr("from", peer().with_device(1))
        .attr("id", "STANZA-TERM")
        .attr("t", "1766847151")
        .children([NodeBuilder::new("terminate")
            .attr("call-creator", creator.clone())
            .attr("call-id", "CALL-ID-0001")
            .build()])
        .build();
    let log = run(&mut registry, &terminate);
    assert!(log.handled);
    assert!(
        registry.generation_of("CALL-ID-0001").is_none(),
        "a peer <terminate> must remove the call from the registry"
    );
    assert!(log.missed.is_empty());
    assert_eq!(log.order, vec!["end", "deliver"]);
}

#[test]
fn unanswered_terminate_surfaces_missed_call() {
    let mut registry = CallRegistry::new();
    let terminate = NodeBuilder::new("call")
        .attr("from", fake_caller_lid())
        .attr("id", "STANZA-TERM")
        .attr("t", "1766847151")
        .children([NodeBuilder::new("terminate")
            .attr("call-creator", fake_caller_lid())
            .attr("call-id", "CALL-ID-0001")
            .build()])
        .build();
    let log = run(&mut registry, &terminate);
    assert!(log.handled);
    assert!(
        log.missed
            .iter()
            .any(|m| m.call_id == "CALL-ID-0001" && matches!(m.reason, MissedReason::Remote)),
        "an unanswered <terminate> must surface a MissedCall(Remote)"
    );
    assert_eq!(log.order, vec!["missed", "end", "deliver"]);
}

#[test]
fn tag_is_call() {
    assert_eq!(CallHandler.tag(), "call");
    assert_eq!(CallHandler::default().tag(), "call");
}

#[test]
fn offline_offer_is_missed_and_nothing_else() {
    let mut registry = CallRegistry::new();
    let log = run(&mut registry, &offline_offer_stanza());
    assert!(log.handled);
    assert_eq!(log.order, vec!["missed"]);
    let missed = &log.missed[0];
    assert_eq!(missed.call_id, "CALL-ID-0001");
    assert_eq!(missed.timestamp, 1766847151);
    assert_eq!(missed.reason, MissedReason::Offline);
    assert_eq!(missed.from.user, "111111111111111");
}

#[test]
fn offline_mark_only_matters_on_offers() {
    let mut registry = CallRegistry::new();
    let mut stanza = action_stanza("accept", &peer().with_device(2), "C");
    stanza.attrs.insert("offline", "1");
    let log = run(&mut registry, &stanza);
    assert_eq!(log.order, vec!["rekey", "deliver"]);
}

#[test]
fn other_actions_are_only_delivered() {
    for tag in ["preaccept", "offer_notice", "transport", "relaylatency"] {
        let mut registry = CallRegistry::new();
        ring(&registry, "C", vec![peer().with_device(1)]);
        let log = run(&mut registry, &action_stanza(tag, &peer(), "C"));
        assert_eq!(log.order, vec!["deliver"]);
        assert!(is_registered(&mut registry, "C"));
        assert!(take_dismiss_targets(&mut registry, "C").is_some());
    }
}

#[test]
fn wrong_tag_and_missing_attributes_are_malformed() {
    let mut registry = CallRegistry::new();
    let wrong_tag = NodeBuilder::new("message")
        .attr("from", peer())
        .attr("t", "1766847151")
        .build();
    let no_from = NodeBuilder::new("call")
        .attr("t", "1766847151")
        .children([NodeBuilder::new("reject")
            .attr("call-creator", peer())
            .attr("call-id", "C")
            .build()])
        .build();
    let no_call_id = NodeBuilder::new("call")
        .attr("from", peer())
        .attr("t", "1766847151")
        .children([NodeBuilder::new("reject")
            .attr("call-creator", peer())
            .build()])
        .build();
    for stanza in [wrong_tag, no_from, no_call_id] {
        let handling = handle(&mut registry, &stanza);
        assert!(handling.handled);
        match handling.reaction {
            Reaction::Malformed(error) => assert!(!error.cause.to_string().is_empty()),
            _ => panic!("stanza should be malformed"),
        }
    }
}

#[test]
fn call_without_children_is_unrecognized() {
    let mut registry = CallRegistry::new();
    let stanza = NodeBuilder::new("call").attr("from", peer()).build();
    assert!(matches!(
        handle(&mut registry, &stanza).reaction,
        Reaction::Unrecognized
    ));
}

#[test]
fn accept_rekeys_to_the_answering_device_before_dismissing() {
    let mut registry = CallRegistry::new();
    let devices: Vec<WireJid> = (0..4).map(|n| peer().with_device(n)).collect();
    ring(&registry, "C", devices.clone());
    let log = run(&mut registry, &action_stanza("accept", &devices[2], "C"));
    assert_eq!(
        log.rekeys,
        vec![("C".to_string(), "222222222222222:2@lid".to_string())]
    );
    assert_eq!(
        log.order,
        vec!["rekey", "dismiss", "dismiss", "dismiss", "deliver"]
    );
    assert_eq!(
        addressees(&log.sent),
        vec![
            "222222222222222@lid",
            "222222222222222:1@lid",
            "222222222222222:3@lid"
        ]
    );
}

#[test]
fn accepted_call_stays_registered_under_its_generation() {
    let mut registry = CallRegistry::new();
    ring(
        &registry,
        "C",
        vec![peer().with_device(1), peer().with_device(2)],
    );
    let generation = registry.generation_of("C");
    run(
        &mut registry,
        &action_stanza("accept", &peer().with_device(1), "C"),
    );
    assert!(is_registered(&mut registry, "C"));
    assert_eq!(registry.generation_of("C"), generation);
}

#[test]
fn second_answer_dismisses_nobody() {
    let mut registry = CallRegistry::new();
    let (first, second) = (peer().with_device(1), peer().with_device(2));
    ring(&registry, "C", vec![first.clone(), second.clone()]);
    let log = run(&mut registry, &action_stanza("accept", &first, "C"));
    assert_eq!(addressees(&log.sent), vec!["222222222222222:2@lid"]);
    let log = run(&mut registry, &action_stanza("accept", &second, "C"));
    assert!(log.sent.is_empty());
    assert_eq!(log.order, vec!["rekey", "deliver"]);
    let log = run(&mut registry, &action_stanza("reject", &second, "C"));
    assert!(log.sent.is_empty());
    assert_eq!(log.order, vec!["end", "deliver"]);
}

#[test]
fn answer_of_an_unlisted_device_dismisses_all() {
    let mut registry = CallRegistry::new();
    ring(
        &registry,
        "C",
        vec![peer().with_device(1), peer().with_device(2)],
    );
    let log = run(
        &mut registry,
        &action_stanza("accept", &peer().with_device(9), "C"),
    );
    assert_eq!(log.sent.len(), 2);
}

#[test]
fn answering_device_is_known_by_user_server_and_number() {
    let mut registry = CallRegistry::new();
    let bare = peer().with_device(2);
    let mut spelled = bare.clone();
    spelled.agent = 5;
    spelled.integrator = 6;
    assert_ne!(spelled, bare);
    ring(&registry, "C", vec![spelled, peer().with_device(1)]);
    let log = run(&mut registry, &action_stanza("accept", &bare, "C"));
    assert_eq!(addressees(&log.sent), vec!["222222222222222:1@lid"]);
}

#[test]
fn reject_dismisses_siblings_and_then_ends_the_call() {
    let mut registry = CallRegistry::new();
    ring(
        &registry,
        "C",
        vec![peer().with_device(1), peer().with_device(2)],
    );
    let log = run(
        &mut registry,
        &action_stanza("reject", &peer().with_device(1), "C"),
    );
    assert_eq!(log.order, vec!["dismiss", "end", "deliver"]);
    assert_eq!(log.ended, vec!["C"]);
    assert_eq!(addressees(&log.sent), vec!["222222222222222:2@lid"]);
    let term = log.sent[0].children().unwrap()[0].clone();
    assert_eq!(term.attrs.get("reason").unwrap(), "rejected_elsewhere");
    assert!(!is_registered(&mut registry, "C"));
}

#[test]
fn terminate_after_the_end_reads_as_missed() {
    let mut registry = CallRegistry::new();
    ring(&registry, "C", vec![peer().with_device(1)]);
    let stanza = action_stanza("terminate", &peer().with_device(1), "C");
    assert!(run(&mut registry, &stanza).missed.is_empty());
    let log = run(&mut registry, &stanza);
    assert_eq!(log.missed.len(), 1);
    assert_eq!(log.missed[0].reason, MissedReason::Remote);
    assert_eq!(log.missed[0].timestamp, 1766847151);
    assert_eq!(log.missed[0].from.device, 1);
}

#[test]
fn other_calls_are_left_alone() {
    let mut registry = CallRegistry::new();
    let devices = vec![peer().with_device(1), peer().with_device(2)];
    ring(&registry, "C", devices.clone());
    ring(&registry, "D", devices.clone());
    let generation = registry.generation_of("D");
    run(&mut registry, &action_stanza("accept", &devices[0], "C"));
    run(&mut registry, &action_stanza("terminate", &devices[0], "C"));
    assert_eq!(registry.generation_of("D"), generation);
    let (creator, rung) = take_dismiss_targets(&mut registry, "D").expect("still rung");
    assert_eq!(creator.text(), "111111111111111@lid");
    let rung: Vec<String> = rung.iter().map(Jid::text).collect();
    assert_eq!(
        rung,
        vec!["222222222222222:1@lid", "222222222222222:2@lid"]
    );
}

#[test]
fn ending_a_call_tells_whether_it_was_ongoing() {
    let mut registry = CallRegistry::new();
    ring(&registry, "C", vec![]);
    assert!(is_registered(&mut registry, "C"));
    assert!(!is_registered(&mut registry, "D"));
    assert!(end_call(&mut registry, "C"));
    assert!(!end_call(&mut registry, "C"));
    assert!(!is_registered(&mut registry, "C"));
}

#[test]
fn call_that_rang_nobody_has_no_targets() {
    let mut registry = CallRegistry::new();
    ring(&registry, "C", vec![]);
    assert!(take_dismiss_targets(&mut registry, "C").is_none());
    assert!(take_dismiss_targets(&mut registry, "unknown").is_none());
}

#[test]
fn dismissal_stanza_is_addressed_to_one_device() {
    let dismissal = Dismissal {
        to: Jid::read(&peer().with_device(7)),
        call_id: "C".to_string(),
        call_creator: Jid::read(&fake_caller_lid()),
        reason: Elsewhere::Rejected,
    };
    let expected = NodeBuilder::new("call")
        .attr("to", peer().with_device(7))
        .attr("id", "REQ")
        .children([NodeBuilder::new("terminate")
            .attr("call-id", "C")
            .attr("call-creator", fake_caller_lid())
            .attr("reason", "rejected_elsewhere")
            .build()])
        .build();
    assert_eq!(dismissal.stanza("REQ"), expected);
}

#[test]
fn whole_call_is_handed_on() {
    let mut registry = CallRegistry::new();
    let stanza = NodeBuilder::new("call")
        .attr("from", peer())
        .attr("id", "STANZA-VIDEO")
        .attr("t", "1766847151")
        .attr("participant", peer().with_device(3))
        .attr("notify", "Peer")
        .children([NodeBuilder::new("video")
            .attr("call-creator", fake_caller_lid())
            .attr("call-id", "C")
            .attr("state", "3")
            .attr("device_orientation", "2")
            .attr("dec", "H264")
            .build()])
        .build();
    let parsed = wacore::stanza::call::parse_call_stanza(received(&stanza).get())
        .expect("well formed")
        .expect("known action");
    let log = run(&mut registry, &stanza);
    assert_eq!(log.delivered.len(), 1);
    assert_eq!(format!("{:?}", log.delivered[0]), format!("{parsed:?}"));
    assert_eq!(log.delivered[0].action.wire_tag(), "video");
    assert_eq!(log.delivered[0].participant, Some(peer().with_device(3)));
}

#[test]
fn offer_is_handed_on_with_its_audio() {
    let mut registry = CallRegistry::new();
    let parsed = wacore::stanza::call::parse_call_stanza(received(&offer_stanza()).get())
        .expect("well formed")
        .expect("known action");
    let log = run(&mut registry, &offer_stanza());
    assert_eq!(format!("{:?}", log.delivered[0]), format!("{parsed:?}"));
    assert!(format!("{:?}", log.delivered[0]).contains("16000"));
}

#[test]
fn reaction_follows_the_outcome_of_the_parser() {
    let mut registry = CallRegistry::new();
    let call = wacore::stanza::call::parse_call_stanza(received(&offer_stanza()).get());
    match CallHandler.react(&mut registry, call) {
        Reaction::Act { call, steps } => {
            assert_eq!(call.action.call_id(), "CALL-ID-0001");
            assert!(matches!(steps.as_slice(), [Step::AckOffer, Step::Deliver]));
        }
        _ => panic!("an offer is acted on"),
    }
    assert!(matches!(
        CallHandler.react(&mut registry, Ok(None)),
        Reaction::Unrecognized
    ));
    match CallHandler.react(&mut registry, Err(anyhow::Error::msg("no such luck"))) {
        Reaction::Malformed(error) => assert_eq!(error.cause.to_string(), "no such luck"),
        _ => panic!("an error is handed on"),
    }
}

#[test]
fn first_accept_tells_the_media_side_and_later_ones_do_not() {
    let mut registry = CallRegistry::new();
    ring(
        &registry,
        "C",
        vec![peer().with_device(1), peer().with_device(2)],
    );
    let generation = registry.generation_of("C").expect("registered");
    let (tx, rx) = async_channel::bounded::<String>(4);
    registry.set_rekey_sender("C", generation, tx);
    run(
        &mut registry,
        &action_stanza("accept", &peer().with_device(2), "C"),
    );
    run(
        &mut registry,
        &action_stanza("accept", &peer().with_device(1), "C"),
    );
    assert_eq!(rx.try_recv().as_deref(), Ok("222222222222222:2@lid"));
    assert!(rx.try_recv().is_err());
}

#[test]
fn rekey_without_a_waiting_media_side_changes_nothing() {
    let mut registry = CallRegistry::new();
    ring(&registry, "C", vec![peer().with_device(1)]);
    let generation = registry.generation_of("C");
    rekey(&mut registry, "C", &"222:1@lid".to_string());
    rekey(&mut registry, "unknown", &"222:1@lid".to_string());
    assert_eq!(registry.generation_of("C"), generation);
    assert_eq!(registry.active_count(), 1);
    assert!(take_dismiss_targets(&mut registry, "C").is_some());
}

#[test]
fn only_ending_and_rekeying_touch_the_registry() {
    let mut registry = CallRegistry::new();
    ring(&registry, "C", vec![peer().with_device(1)]);
    perform_on_registry(&mut registry, &Step::AckOffer);
    perform_on_registry(&mut registry, &Step::Deliver);
    assert!(is_registered(&mut registry, "C"));
    perform_on_registry(
        &mut registry,
        &Step::EndCall {
            call_id: "C".to_string(),
        },
    );
    assert!(!is_registered(&mut registry, "C"));
}

#[test]
fn new_registry_holds_no_call() {
    let mut registry = new_registry();
    assert_eq!(registry.active_count(), 0);
    assert!(!is_registered(&mut registry, "C"));
    assert!(!end_call(&mut registry, "C"));
    assert!(take_dismiss_targets(&mut registry, "C").is_none());
    let log = run(
        &mut registry,
        &action_stanza("terminate", &peer().with_device(1), "C"),
    );
    assert_eq!(log.order, ["missed", "end", "deliver"]);
}

#[test]
fn rekey_hands_on_the_address_it_is_given() {
    let mut registry = new_registry();
    ring(&registry, "C", vec![peer().with_device(1)]);
    ring(&registry, "D", vec![peer().with_device(1)]);
    let mut channels = Vec::new();
    for call_id in ["C", "D"] {
        let generation = registry.generation_of(call_id).expect("registered");
        let (tx, rx) = async_channel::bounded::<String>(4);
        registry.set_rekey_sender(call_id, generation, tx);
        channels.push(rx);
    }
    rekey(&mut registry, "C", &"222:7@lid".to_string());
    assert_eq!(channels[0].try_recv().as_deref(), Ok("222:7@lid"));
    assert!(channels[1].try_recv().is_err());
    perform_on_registry(
        &mut registry,
        &Step::Rekey {
            call_id: "D".to_string(),
            answering: "222:8@lid".to_string(),
        },
    );
    assert_eq!(channels[1].try_recv().as_deref(), Ok("222:8@lid"));
    assert!(channels[0].try_recv().is_err());
}
