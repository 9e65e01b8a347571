use interface_monitor::activity::State;
use interface_monitor::ingest::{ingest, read_delivery, take_step, Flow, Step};
use interface_monitor::report::InterfaceState;
use interface_monitor::table::App;

#[test]
fn payload_with_report_is_applied() {
    let app = ingest(
        App::new(),
        r#"{"name":"subscriber 2","interface_type":"subscriber","state":"Active"}"#,
    );
    assert_eq!(app.subscriber_states, vec![State::Inactive, State::Active]);
    assert!(app.server_states.is_empty());
    assert!(app.publisher_states.is_empty());
}

#[test]
fn malformed_payload_is_dropped_and_the_next_is_applied() {
    let app = ingest(App::new(), r#"{"name":"server 1","interface_type":"server","state":"Active"}"#);
    let step = read_delivery(Some("{\"name\": \"server 2\", \"interface_type\": "));
    assert!(matches!(step, Step::Skip));
    let (app, flow) = take_step(app, step);
    assert_eq!(flow, Flow::Continue);
    assert_eq!(app.server_states, vec![State::Active]);
    assert!(app.publisher_states.is_empty());
    assert!(app.subscriber_states.is_empty());
    let step = read_delivery(Some(r#"{"name":"server 2","interface_type":"server","state":"Active"}"#));
    let (app, flow) = take_step(app, step);
    assert_eq!(flow, Flow::Continue);
    assert_eq!(app.server_states, vec![State::Active, State::Active]);
}

#[test]
fn ingest_leaves_table_alone_on_bad_payloads() {
    let start = ingest(App::new(), r#"{"name":"publisher 2","interface_type":"publisher","state":"Active"}"#);
    for payload in ["", "garbage", "[]", "{}", r#"{"name":"publisher 3"}"#, r#"{"name":5,"interface_type":"publisher","state":"Active"}"#] {
        let app = ingest(start.snapshot(), payload);
        assert_eq!(app.publisher_states, vec![State::Inactive, State::Active], "{:?}", payload);
        assert!(app.server_states.is_empty());
        assert!(app.subscriber_states.is_empty());
    }
}

#[test]
fn decoded_report_with_unusable_content_is_a_no_op() {
    let start = ingest(App::new(), r#"{"name":"server 2","interface_type":"server","state":"Active"}"#);
    let app = ingest(start, r#"{"name":"server two","interface_type":"server","state":"Active"}"#);
    let app = ingest(app, r#"{"name":"server 0","interface_type":"server","state":"Active"}"#);
    let app = ingest(app, r#"{"name":"server 9","interface_type":"gateway","state":"Active"}"#);
    assert_eq!(app.server_states, vec![State::Inactive, State::Active]);
    assert!(app.publisher_states.is_empty());
    assert!(app.subscriber_states.is_empty());
}

#[test]
fn read_delivery_decodes_the_payload() {
    let step = read_delivery(Some(r#"{"name":"server 3","interface_type":"server","state":"Active"}"#));
    match step {
        Step::Apply(report) => {
            assert_eq!(report.name, "server 3");
            assert_eq!(report.interface_type, "server");
            assert_eq!(report.state, "Active");
        }
        other => panic!("expected a report, got {:?}", other),
    }
}

#[test]
fn end_of_stream_stops_the_consumer() {
    let app = App::new().update_state(InterfaceState::new("server 1", "server", "Active"));
    let step = read_delivery(None);
    assert!(matches!(step, Step::Stop));
    let (app, flow) = take_step(app, step);
    assert_eq!(flow, Flow::Stop);
    assert_eq!(app.server_states, vec![State::Active]);
}

#[test]
fn take_step_applies_a_report() {
    let step = Step::Apply(InterfaceState::new("publisher 1", "publisher", "Active"));
    let (app, flow) = take_step(App::new(), step);
    assert_eq!(flow, Flow::Continue);
    assert_eq!(app.publisher_states, vec![State::Active]);
}

#[test]
fn updates_apply_in_arrival_order() {
    let app = ingest(App::new(), r#"{"name":"server 1","interface_type":"server","state":"Active"}"#);
    let app = ingest(app, r#"{"name":"server 1","interface_type":"server","state":"Inactive"}"#);
    assert_eq!(app.server_states, vec![State::Inactive]);
    let app = ingest(app, r#"{"name":"server 1","interface_type":"server","state":"Active"}"#);
    assert_eq!(app.server_states, vec![State::Active]);
}
