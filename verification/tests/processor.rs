use tx_processor::correlation::generate_correlation_id;
use tx_processor::dispatch::Event;
use tx_processor::dispatch::ProcessorState;
use tx_processor::dispatch::SendOutcome;
use tx_processor::dispatch::TransactionProcessor;
use tx_processor::handler::ApplyError;
use tx_processor::handler::HandlerInfo;
use tx_processor::protocol::reply_for_no_handler;
use tx_processor::protocol::reply_for_request;
use tx_processor::protocol::reply_for_unsupported;
use tx_processor::protocol::response_for_apply;
use tx_processor::protocol::unsupported_response;
use tx_processor::protocol::ProcessRequest;
use tx_processor::protocol::ResponseStatus;
use tx_processor::registrar::registration_requests;
use tx_processor::registrar::Registrar;

fn handler(family: &str, versions: &[&str], namespaces: &[&str]) -> HandlerInfo {
    HandlerInfo {
        family_name: family.to_string(),
        family_versions: versions.iter().map(|v| v.to_string()).collect(),
        namespaces: namespaces.iter().map(|n| n.to_string()).collect(),
    }
}

#[test]
fn correlation_id_is_sixteen_alphanumeric_chars() {
    let id = generate_correlation_id();
    assert_eq!(id.len(), 16);
    assert!(id.chars().all(|c| c.is_ascii_alphanumeric()));
}

#[test]
fn correlation_ids_differ_between_draws() {
    let a = generate_correlation_id();
    let b = generate_correlation_id();
    assert_ne!(a, b);
}

#[test]
fn registration_plan_for_one_handler() {
    let handlers = vec![handler("F", &["1.0"], &["ns"])];
    let plan = registration_requests(&handlers);
    assert_eq!(plan.len(), 1);
    assert_eq!(plan[0].family, "F");
    assert_eq!(plan[0].version, "1.0");
    assert_eq!(plan[0].namespaces, vec!["ns".to_string()]);
}

#[test]
fn registration_plan_keeps_registry_order() {
    let handlers = vec![
        handler("intkey", &["1.0", "2.0"], &["1cf126"]),
        handler("xo", &["0.9"], &["5b7349", "ab1234"]),
    ];
    let plan = registration_requests(&handlers);
    assert_eq!(plan.len(), 3);
    assert_eq!((plan[0].family.as_str(), plan[0].version.as_str()), ("intkey", "1.0"));
    assert_eq!((plan[1].family.as_str(), plan[1].version.as_str()), ("intkey", "2.0"));
    assert_eq!((plan[2].family.as_str(), plan[2].version.as_str()), ("xo", "0.9"));
    assert_eq!(plan[1].namespaces, vec!["1cf126".to_string()]);
    assert_eq!(plan[2].namespaces, vec!["5b7349".to_string(), "ab1234".to_string()]);
}

#[test]
fn registrar_acknowledges_every_pair_in_order() {
    let handlers = vec![
        handler("intkey", &["1.0", "2.0"], &["1cf126"]),
        handler("xo", &["0.9"], &["5b7349"]),
    ];
    let mut reg = Registrar::new(&handlers);
    let mut seen: Vec<(String, String)> = Vec::new();
    while let Some(req) = reg.next_request() {
        seen.push((req.family.clone(), req.version.clone()));
        reg.record_ack();
    }
    assert_eq!(reg.outcome(), Some(true));
    assert_eq!(
        seen,
        vec![
            ("intkey".to_string(), "1.0".to_string()),
            ("intkey".to_string(), "2.0".to_string()),
            ("xo".to_string(), "0.9".to_string()),
        ]
    );
}

#[test]
fn registrar_stops_at_first_failure() {
    let handlers = vec![
        handler("intkey", &["1.0", "2.0"], &["1cf126"]),
        handler("xo", &["0.9"], &["5b7349"]),
    ];
    let mut reg = Registrar::new(&handlers);
    let first = reg.next_request().expect("a first request is owed");
    assert_eq!(first.family, "intkey");
    assert_eq!(first.version, "1.0");
    reg.record_failure();
    assert!(reg.next_request().is_none());
    assert_eq!(reg.outcome(), Some(false));
}

#[test]
fn registrar_with_empty_registry_succeeds_vacuously() {
    let handlers: Vec<HandlerInfo> = Vec::new();
    let reg = Registrar::new(&handlers);
    assert!(reg.next_request().is_none());
    assert_eq!(reg.outcome(), Some(true));
}

#[test]
fn apply_success_maps_to_okay_without_message() {
    let r = response_for_apply(&Ok(()));
    assert_eq!(r.status, ResponseStatus::Okay);
    assert!(r.message.is_none());
}

#[test]
fn invalid_transaction_keeps_its_message_verbatim() {
    let r = response_for_apply(&Err(ApplyError::InvalidTransaction("bad sig".to_string())));
    assert_eq!(r.status, ResponseStatus::InvalidTransaction);
    assert_eq!(r.message.as_deref(), Some("bad sig"));
}

#[test]
fn other_errors_map_to_internal_error_with_description() {
    let r = response_for_apply(&Err(ApplyError::InternalError("state unavailable".to_string())));
    assert_eq!(r.status, ResponseStatus::InternalError);
    assert_eq!(r.message.as_deref(), Some("state unavailable"));
}

#[test]
fn unsupported_message_type_gets_not_implemented() {
    let r = unsupported_response();
    assert_eq!(r.status, ResponseStatus::InternalError);
    assert_eq!(r.message.as_deref(), Some("not implemented..."));
}

#[test]
fn reply_carries_the_request_correlation_id() {
    let reply = reply_for_request("ctx1-corr-0001".to_string(), &Ok(()));
    assert_eq!(reply.correlation_id, "ctx1-corr-0001");
    assert_eq!(reply.response.status, ResponseStatus::Okay);
    assert!(reply.response.message.is_none());
}

#[test]
fn invalid_transaction_reply_scenario() {
    let reply = reply_for_request(
        "corr-77".to_string(),
        &Err(ApplyError::InvalidTransaction("bad sig".to_string())),
    );
    assert_eq!(reply.correlation_id, "corr-77");
    assert_eq!(reply.response.status, ResponseStatus::InvalidTransaction);
    assert_eq!(reply.response.message.as_deref(), Some("bad sig"));
}

#[test]
fn unsupported_reply_keeps_correlation_id() {
    let reply = reply_for_unsupported("corr-misc".to_string());
    assert_eq!(reply.correlation_id, "corr-misc");
    assert_eq!(reply.response.status, ResponseStatus::InternalError);
    assert_eq!(reply.response.message.as_deref(), Some("not implemented..."));
}

#[test]
fn new_processor_starts_connecting_with_empty_registry() {
    let p = TransactionProcessor::new("tcp://validator:4004");
    assert_eq!(p.state(), ProcessorState::Connecting);
    assert_eq!(p.endpoint(), "tcp://validator:4004");
    assert!(p.handlers().is_empty());
    assert!(p.route_request(&"F".to_string(), &"1.0".to_string()).is_none());
}

#[test]
fn add_handler_keeps_insertion_order() {
    let mut p = TransactionProcessor::new("tcp://validator:4004");
    p.add_handler(handler("intkey", &["1.0"], &["1cf126"]));
    p.add_handler(handler("xo", &["0.9"], &["5b7349"]));
    let hs = p.handlers();
    assert_eq!(hs.len(), 2);
    assert_eq!(hs[0].family_name, "intkey");
    assert_eq!(hs[1].family_name, "xo");
}

#[test]
fn routing_matches_family_and_version() {
    let mut p = TransactionProcessor::new("tcp://validator:4004");
    p.add_handler(handler("intkey", &["1.0", "2.0"], &["1cf126"]));
    p.add_handler(handler("xo", &["0.9"], &["5b7349"]));
    assert_eq!(p.route_request(&"intkey".to_string(), &"2.0".to_string()), Some(0));
    assert_eq!(p.route_request(&"xo".to_string(), &"0.9".to_string()), Some(1));
    assert_eq!(p.route_request(&"intkey".to_string(), &"9.9".to_string()), None);
    assert_eq!(p.route_request(&"settings".to_string(), &"1.0".to_string()), None);
}

#[test]
fn routing_picks_the_first_matching_entry() {
    let mut p = TransactionProcessor::new("tcp://validator:4004");
    p.add_handler(handler("F", &["1.0"], &["aa"]));
    p.add_handler(handler("F", &["1.0", "2.0"], &["bb"]));
    assert_eq!(p.route_request(&"F".to_string(), &"1.0".to_string()), Some(0));
    assert_eq!(p.route_request(&"F".to_string(), &"2.0".to_string()), Some(1));
}

#[test]
fn unroutable_request_reply_names_the_missing_handler() {
    let reply = reply_for_no_handler("corr-0".to_string());
    assert_eq!(reply.correlation_id, "corr-0");
    assert_eq!(reply.response.status, ResponseStatus::InternalError);
    assert_eq!(
        reply.response.message.as_deref(),
        Some("no handler matches this family and version")
    );
}

#[test]
fn successful_registration_admits_serving() {
    let mut p = TransactionProcessor::new("tcp://validator:4004");
    p.add_handler(handler("F", &["1.0"], &["ns"]));
    p.step(Event::Connected);
    assert_eq!(p.state(), ProcessorState::Registering);
    p.step(Event::RegistrationFinished(true));
    assert_eq!(p.state(), ProcessorState::Serving);
}

#[test]
fn failed_registration_forces_reconnect() {
    let mut p = TransactionProcessor::new("tcp://validator:4004");
    p.step(Event::Connected);
    p.step(Event::RegistrationFinished(false));
    assert_eq!(p.state(), ProcessorState::Connecting);
    assert!(p.is_running());
}

#[test]
fn disconnect_while_serving_reconnects_and_reregisters() {
    let mut p = TransactionProcessor::new("tcp://validator:4004");
    p.step(Event::Connected);
    p.step(Event::RegistrationFinished(true));
    assert_eq!(p.state(), ProcessorState::Serving);
    p.step(Event::ReceiveDisconnected);
    assert_eq!(p.state(), ProcessorState::Connecting);
    assert_eq!(p.endpoint(), "tcp://validator:4004");
    assert!(p.is_running());
    p.step(Event::Connected);
    assert_eq!(p.state(), ProcessorState::Registering);
    p.step(Event::RegistrationFinished(true));
    assert_eq!(p.state(), ProcessorState::Serving);
}

#[test]
fn reply_disconnect_also_reconnects() {
    let mut p = TransactionProcessor::new("tcp://validator:4004");
    p.step(Event::Connected);
    p.step(Event::RegistrationFinished(true));
    p.step(Event::ReplyAttempted(SendOutcome::Disconnected));
    assert_eq!(p.state(), ProcessorState::Connecting);
}

#[test]
fn unknown_send_error_terminates_for_good() {
    let mut p = TransactionProcessor::new("tcp://validator:4004");
    p.step(Event::Connected);
    p.step(Event::RegistrationFinished(true));
    p.step(Event::ReplyAttempted(SendOutcome::Unknown));
    assert_eq!(p.state(), ProcessorState::Terminated);
    assert!(!p.is_running());
    p.step(Event::Connected);
    p.step(Event::ReceiveDisconnected);
    assert_eq!(p.state(), ProcessorState::Terminated);
}

#[test]
fn nonfatal_incidents_keep_the_loop_serving() {
    let mut p = TransactionProcessor::new("tcp://validator:4004");
    p.step(Event::Connected);
    p.step(Event::RegistrationFinished(true));
    p.step(Event::ReceiveFault);
    assert_eq!(p.state(), ProcessorState::Serving);
    p.step(Event::RequestDropped);
    assert_eq!(p.state(), ProcessorState::Serving);
    p.step(Event::ReplyAttempted(SendOutcome::Sent));
    assert_eq!(p.state(), ProcessorState::Serving);
    p.step(Event::ReplyAttempted(SendOutcome::Timeout));
    assert_eq!(p.state(), ProcessorState::Serving);
}

#[test]
fn process_request_carries_context_id_and_payload() {
    let req = ProcessRequest { context_id: "ctx1".to_string(), payload: vec![1, 2, 3] };
    assert_eq!(req.context_id, "ctx1");
    assert_eq!(req.payload, vec![1, 2, 3]);
}
