use webview::bridge::{
    accept_inbound, finish_inbound, prepare_request, settle_call, BridgeError, CallWait,
    InboundDecision, BRIDGE_CALL_TIMEOUT_SECS,
};
use webview::browser::HandlerSlot;
use webview::correlate::CorrelationSlot;

fn empty_slot() -> HandlerSlot<&'static str> {
    HandlerSlot::new()
}

fn registered_slot() -> HandlerSlot<&'static str> {
    let mut slot = HandlerSlot::new();
    slot.register("the handler");
    slot
}

#[test]
fn replied_payload_comes_back_unchanged() {
    let r = settle_call(CallWait::Replied(Some("{\"pong\":1}".to_string())));
    assert_eq!(r, Ok(Some("{\"pong\":1}".to_string())));
}

#[test]
fn replied_absence_marker_is_ok_none() {
    let r = settle_call(CallWait::Replied(None));
    assert_eq!(r, Ok(None));
}

#[test]
fn timeout_settles_to_timeout_error() {
    assert_eq!(settle_call(CallWait::TimedOut), Err(BridgeError::Timeout));
    assert_eq!(BRIDGE_CALL_TIMEOUT_SECS, 10);
}

#[test]
fn closed_channel_settles_to_call_error() {
    assert_eq!(settle_call(CallWait::ChannelClosed), Err(BridgeError::CallError));
}

#[test]
fn prepare_request_encodes_for_native() {
    let buf = prepare_request("{\"a\":1}").unwrap();
    assert_eq!(buf.as_bytes().as_slice(), b"{\"a\":1}\0");
}

#[test]
fn prepare_request_maps_encoding_failure_to_serde_error() {
    assert!(matches!(prepare_request("bad\0payload"), Err(BridgeError::SerdeError)));
}

#[test]
fn finish_inbound_success_fills_only_the_success_slot() {
    let rep = finish_inbound(42, Ok("\"done\"".to_string()));
    assert_eq!(rep.token, 42);
    assert!(rep.failure.is_none());
    assert_eq!(rep.success.unwrap().as_bytes().as_slice(), b"\"done\"\0");
}

#[test]
fn finish_inbound_error_fills_only_the_failure_slot() {
    let rep = finish_inbound(43, Err("boom".to_string()));
    assert_eq!(rep.token, 43);
    assert!(rep.success.is_none());
    assert_eq!(rep.failure.unwrap().as_bytes().as_slice(), b"boom\0");
}

#[test]
fn accept_inbound_null_request_is_dropped() {
    let slot = registered_slot();
    assert!(matches!(accept_inbound(&slot, None, 1), InboundDecision::Drop));
}

#[test]
fn accept_inbound_invalid_utf8_is_dropped() {
    let slot = registered_slot();
    assert!(matches!(accept_inbound(&slot, Some(vec![0xff, 0x00]), 1), InboundDecision::Drop));
}

#[test]
fn accept_inbound_without_handler_answers_no_handler() {
    let slot = empty_slot();
    match accept_inbound(&slot, Some(b"{\"q\":2}".to_vec()), 9) {
        InboundDecision::ReplyNoHandler(rep) => {
            assert_eq!(rep.token, 9);
            assert!(rep.success.is_none());
            assert_eq!(rep.failure.unwrap().as_bytes().as_slice(), b"no handler\0");
        }
        _ => panic!("expected the no-handler reply"),
    }
}

#[test]
fn accept_inbound_with_handler_runs_it() {
    let slot = registered_slot();
    match accept_inbound(&slot, Some(b"{\"q\":2}".to_vec()), 9) {
        InboundDecision::Run(handler, req) => {
            assert_eq!(*handler, "the handler");
            assert_eq!(req.token, 9);
            assert_eq!(req.body, "{\"q\":2}");
        }
        _ => panic!("expected the request to reach the handler"),
    }
}

#[test]
fn request_after_reregistration_reaches_the_new_handler_only() {
    let mut slot = empty_slot();
    slot.register("old handler");
    slot.register("new handler");
    match accept_inbound(&slot, Some(b"\"ping\"".to_vec()), 4) {
        InboundDecision::Run(handler, req) => {
            assert_eq!(*handler, "new handler");
            assert_eq!(req.body, "\"ping\"");
        }
        _ => panic!("expected the request to reach the new handler"),
    }
}

#[test]
fn concurrent_inbound_requests_do_not_cross() {
    // Three requests in flight at once; their handlers finish in an order
    // unlike the arrival order.  Every reply still carries its own token.
    let reqs = [
        (11usize, Ok("first".to_string())),
        (22usize, Err("second failed".to_string())),
        (33usize, Ok("third".to_string())),
    ];
    let completion_order = [2usize, 0, 1];
    let mut seen = Vec::new();
    for &i in completion_order.iter() {
        let (token, outcome) = &reqs[i];
        let rep = finish_inbound(*token, outcome.clone());
        assert_eq!(rep.token, *token);
        assert!(rep.success.is_some() != rep.failure.is_some());
        seen.push(rep.token);
    }
    seen.sort();
    assert_eq!(seen, vec![11, 22, 33]);
}

#[test]
fn outbound_round_trip_with_cooperative_stub() {
    // The whole outbound pipeline against a stub that answers once.
    let request = prepare_request("{\"ping\":true}").unwrap();
    let mut slot: CorrelationSlot<Option<String>> = CorrelationSlot::new();
    // The stub reads the request buffer and answers exactly once.
    assert_eq!(request.as_bytes().last(), Some(&0));
    assert!(slot.complete(Some("{\"pong\":true}".to_string())));
    assert!(!slot.complete(Some("{\"pong\":true}".to_string())));
    let wait = match slot.take() {
        Some(payload) => CallWait::Replied(payload),
        None => CallWait::ChannelClosed,
    };
    assert_eq!(settle_call(wait), Ok(Some("{\"pong\":true}".to_string())));
}

#[test]
fn outbound_call_against_silent_stub_times_out() {
    // The stub never replies: the wait ends at the ceiling, the slot is
    // abandoned, and the call resolves to the timeout error.
    let mut slot: CorrelationSlot<Option<String>> = CorrelationSlot::new();
    assert_eq!(slot.take(), None);
    slot.abandon();
    assert_eq!(settle_call(CallWait::TimedOut), Err(BridgeError::Timeout));
    // The stub's late reply is refused quietly — no crash, nothing freed
    // twice, nothing delivered.
    assert!(!slot.complete(Some("late".to_string())));
    assert_eq!(slot.take(), None);
}

#[test]
fn describe_names_each_error() {
    assert_eq!(BridgeError::SerdeError.describe(), "SerdeError");
    assert_eq!(BridgeError::Timeout.describe(), "Timeout");
    assert_eq!(BridgeError::CallError.describe(), "CallError");
}
