use substrate_api_explorer::explorer::new_session;
use substrate_api_explorer::metadata::{MetadataTree, Pallet};
use substrate_api_explorer::timeout::Timeout;

fn empty_tree() -> MetadataTree {
    MetadataTree {
        pallets: vec![Pallet {
            name: "System".to_string(),
            docs: vec![],
            storage: None,
            calls: None,
            events: None,
            errors: None,
        }],
    }
}

#[test]
fn fresh_timeout_reads_as_passed() {
    let t = Timeout::default();
    assert!(t.passed(0));
    assert!(t.passed(123_456));
}

#[test]
fn started_timeout_passes_only_after_five_seconds() {
    let mut t = Timeout::default();
    t.start(1_000);
    assert!(!t.passed(1_000));
    assert!(!t.passed(6_000));
    assert!(t.passed(6_001));
    assert_eq!(t.remaining(3_000), 3_000);
    t.reset();
    assert!(t.passed(1_000));
}

#[test]
fn invalid_url_disables_trigger_and_sends_nothing() {
    let (mut explorer, mut url_rx, _result_tx) = new_session("not a url".to_string());
    let panel = explorer.render_request(true, 0);
    assert!(!panel.trigger_enabled);
    assert!(panel.show_invalid);
    assert_eq!(panel.error_text, None);
    assert!(url_rx.try_recv().is_err());
}

#[test]
fn empty_url_is_not_flagged_invalid() {
    let (mut explorer, _url_rx, _result_tx) = new_session(String::new());
    let panel = explorer.render_request(false, 0);
    assert!(!panel.trigger_enabled);
    assert!(!panel.show_invalid);
}

#[test]
fn trigger_sends_exactly_one_message_and_starts_the_wait() {
    let (mut explorer, mut url_rx, _result_tx) = new_session("ws://127.0.0.1:9944".to_string());
    let panel = explorer.render_request(true, 1_000);
    assert!(panel.trigger_enabled);
    assert_eq!(panel.error_text, None);
    assert_eq!(url_rx.try_recv().unwrap(), "ws://127.0.0.1:9944");
    assert!(url_rx.try_recv().is_err());
    assert_eq!(explorer.check_timeout_disable(1_000), Some(6));
    assert_eq!(explorer.check_timeout_disable(4_500), Some(2));
}

#[test]
fn untriggered_frame_sends_nothing() {
    let (mut explorer, mut url_rx, _result_tx) = new_session("ws://127.0.0.1:9944".to_string());
    let panel = explorer.render_request(false, 0);
    assert!(panel.trigger_enabled);
    assert!(url_rx.try_recv().is_err());
}

#[test]
fn success_reply_is_displayed_and_reenables() {
    let (mut explorer, _url_rx, result_tx) = new_session("ws://127.0.0.1:9944".to_string());
    explorer.render_request(true, 1_000);
    result_tx.send(Ok(empty_tree())).unwrap();
    let sections = explorer.render_response().expect("a tree is drawn");
    assert_eq!(sections.len(), 1);
    assert_eq!(sections[0].name, "System");
    assert_eq!(explorer.response, Some(empty_tree()));
    assert_eq!(explorer.request_error, None);
    assert!(explorer.timeout.passed(1_001));
}

#[test]
fn failure_reply_is_shown_inline_and_reenables() {
    let (mut explorer, _url_rx, result_tx) = new_session("ws://127.0.0.1:9944".to_string());
    explorer.render_request(true, 1_000);
    result_tx.send(Err("connection refused".to_string())).unwrap();
    assert_eq!(explorer.render_response(), None);
    assert_eq!(explorer.request_error, Some("connection refused".to_string()));
    assert_eq!(explorer.response, None);
    assert!(explorer.timeout.passed(1_001));
    let panel = explorer.render_request(false, 2_000);
    assert_eq!(panel.error_text, Some("connection refused".to_string()));
}

#[test]
fn polling_an_empty_channel_changes_nothing() {
    let (mut explorer, _url_rx, _result_tx) = new_session("ws://127.0.0.1:9944".to_string());
    explorer.render_request(true, 1_000);
    assert_eq!(explorer.render_response(), None);
    assert_eq!(explorer.response, None);
    assert_eq!(explorer.request_error, None);
    assert!(!explorer.timeout.passed(1_500));
    assert_eq!(explorer.render_response(), None);
    assert_eq!(explorer.request_error, None);
}

#[test]
fn silence_past_the_budget_reenables_with_nothing_stored() {
    let (mut explorer, _url_rx, _result_tx) = new_session("ws://127.0.0.1:9944".to_string());
    explorer.render_request(true, 1_000);
    let frame = explorer.update(false, 6_001);
    assert_eq!(frame.waiting_secs, None);
    assert_eq!(frame.sections, None);
    assert_eq!(explorer.response, None);
    assert_eq!(explorer.request_error, None);
    assert_eq!(explorer.check_timeout_disable(6_001), None);
}

#[test]
fn waiting_frame_shows_a_countdown() {
    let (mut explorer, _url_rx, _result_tx) = new_session("ws://127.0.0.1:9944".to_string());
    explorer.render_request(true, 1_000);
    let frame = explorer.update(false, 2_500);
    assert_eq!(frame.waiting_secs, Some(4));
}

#[test]
fn disconnected_worker_is_reported_as_fatal() {
    let (mut explorer, _url_rx, result_tx) = new_session("ws://127.0.0.1:9944".to_string());
    drop(result_tx);
    assert_eq!(explorer.render_response(), None);
    assert_eq!(
        explorer.request_error,
        Some("The sender disconnected! Please, restart the app".to_string())
    );
}

#[test]
fn closed_outbound_channel_fails_the_send() {
    let (mut explorer, url_rx, _result_tx) = new_session("ws://127.0.0.1:9944".to_string());
    drop(url_rx);
    let panel = explorer.render_request(true, 1_000);
    assert_eq!(panel.error_text, Some("channel closed".to_string()));
    assert_eq!(explorer.check_timeout_disable(1_000), None);
}

#[test]
fn late_reply_is_still_stored_on_the_next_poll() {
    let (mut explorer, _url_rx, result_tx) = new_session("ws://127.0.0.1:9944".to_string());
    explorer.render_request(true, 1_000);
    explorer.update(false, 7_000);
    assert_eq!(explorer.response, None);
    result_tx.send(Ok(empty_tree())).unwrap();
    let frame = explorer.update(false, 8_000);
    assert!(frame.sections.is_some());
    assert_eq!(explorer.response, Some(empty_tree()));
}

#[test]
fn saved_url_reloads_exactly() {
    let (explorer, _url_rx, _result_tx) = new_session("wss://rpc.polkadot.io:443/x?y=1".to_string());
    let saved = explorer.save();
    let (reloaded, _rx2, _tx2) = new_session(saved);
    assert_eq!(reloaded.save(), "wss://rpc.polkadot.io:443/x?y=1");
    assert_eq!(reloaded.response, None);
    assert_eq!(reloaded.request_error, None);
}

#[test]
fn editing_the_url_touches_nothing_else() {
    let (mut explorer, _url_rx, _result_tx) = new_session("ws://a".to_string());
    explorer.set_url("ws://b".to_string());
    assert_eq!(explorer.save(), "ws://b");
    assert_eq!(explorer.response, None);
    assert_eq!(explorer.request_error, None);
}
