use netwatching::message::encode;
use netwatching::message::DecodeError;
use netwatching::message::HeartbeatMsg;
use netwatching::server::accept;
use netwatching::server::record_datagram;
use netwatching::server::replay;
use netwatching::server::Arrival;
use netwatching::server::HeartbeatRecord;
use netwatching::server::ServerConfig;
use netwatching::server::ServerError;
use netwatching::server::RECEIVE_BUFFER_LEN;
use netwatching::time::Timestamp;

const SENT: Timestamp = Timestamp { seconds: 1_700_000_000, nanoseconds: 250_000_000 };

const RECEIVED: Timestamp = Timestamp { seconds: 1_700_000_000, nanoseconds: 750_000_000 };

fn payload_of(name: &str, at: Timestamp) -> Vec<u8> {
    encode(&HeartbeatMsg::new(name, at)).unwrap()
}

fn datagram(payload: Vec<u8>) -> Arrival {
    Arrival::Datagram {
        payload,
        source_ip: "203.0.113.5".to_string(),
        source_port: 54321,
        receive_time: RECEIVED,
    }
}

fn assert_node_a_record(record: &HeartbeatRecord) {
    assert_eq!(record.name, "node-a");
    assert_eq!(record.source_ip, "203.0.113.5");
    assert_eq!(record.source_port, 54321);
    assert_eq!(record.source_time, SENT);
    assert_eq!(record.receive_time, RECEIVED);
}

#[test]
fn server_config_default_is_empty() {
    let config = ServerConfig::default();
    assert_eq!(config.bind_addr, "");
    assert_eq!(config.bind_port, 0);
}

#[test]
fn receive_buffer_holds_a_kibibyte() {
    assert_eq!(RECEIVE_BUFFER_LEN, 1024);
}

#[test]
fn record_takes_name_and_time_from_payload_and_address_from_transport() {
    let payload = payload_of("node-a", SENT);
    let record = record_datagram(&payload, "203.0.113.5", 54321, RECEIVED).unwrap();
    assert_node_a_record(&record);
}

#[test]
fn record_does_not_take_the_address_from_the_payload() {
    let payload = payload_of("198.51.100.7:9", SENT);
    let record = record_datagram(&payload, "203.0.113.5", 54321, RECEIVED).unwrap();
    assert_eq!(record.name, "198.51.100.7:9");
    assert_eq!(record.source_ip, "203.0.113.5");
    assert_eq!(record.source_port, 54321);
}

#[test]
fn record_keeps_a_receive_time_before_the_sending_time() {
    let payload = payload_of("node-a", RECEIVED);
    let record = record_datagram(&payload, "::1", 0, SENT).unwrap();
    assert_eq!(record.source_time, RECEIVED);
    assert_eq!(record.receive_time, SENT);
    assert_eq!(record.source_ip, "::1");
    assert_eq!(record.source_port, 0);
}

#[test]
fn record_is_not_made_of_a_corrupt_payload() {
    let mut payload = payload_of("node-a", SENT);
    payload.truncate(payload.len() - 1);
    assert_eq!(
        record_datagram(&payload, "203.0.113.5", 54321, RECEIVED).err(),
        Some(DecodeError::Malformed)
    );
    let mut bad_time = payload_of("node-a", SENT);
    let last = bad_time.len() - 1;
    bad_time[last] = b'Q';
    assert_eq!(
        record_datagram(&bad_time, "203.0.113.5", 54321, RECEIVED).err(),
        Some(DecodeError::BadTimestamp)
    );
}

#[test]
fn record_is_not_made_of_a_datagram_cut_by_the_buffer() {
    let name = "n".repeat(2000);
    let mut payload = payload_of(&name, SENT);
    assert!(payload.len() > RECEIVE_BUFFER_LEN);
    payload.truncate(RECEIVE_BUFFER_LEN);
    assert_eq!(
        record_datagram(&payload, "203.0.113.5", 54321, RECEIVED).err(),
        Some(DecodeError::Malformed)
    );
}

#[test]
fn accept_answers_a_datagram_with_its_record() {
    let record = accept(&datagram(payload_of("node-a", SENT))).unwrap();
    assert_node_a_record(&record);
}

#[test]
fn accept_reports_a_transport_failure() {
    assert_eq!(accept(&Arrival::Failed).err(), Some(ServerError::Transport));
}

#[test]
fn accept_reports_a_payload_that_does_not_decode() {
    assert_eq!(
        accept(&datagram(vec![1, 2, 3])).err(),
        Some(ServerError::Decode(DecodeError::Malformed))
    );
    assert_eq!(
        accept(&datagram(vec![0; 16])).err(),
        Some(ServerError::Decode(DecodeError::BadTimestamp))
    );
}

#[test]
fn corrupt_datagram_leaves_no_record_and_the_next_one_is_stored() {
    let arrivals = vec![datagram(vec![0xde, 0xad, 0xbe, 0xef]), datagram(payload_of("node-a", SENT))];
    let answers = replay(&arrivals);
    assert_eq!(answers.len(), 2);
    assert_eq!(answers[0].as_ref().err(), Some(&ServerError::Decode(DecodeError::Malformed)));
    let stored: Vec<&HeartbeatRecord> = answers.iter().filter_map(|a| a.as_ref().ok()).collect();
    assert_eq!(stored.len(), 1);
    assert_node_a_record(stored[0]);
    assert_node_a_record(answers[1].as_ref().unwrap());
}

#[test]
fn server_outlasts_transport_failures() {
    for n in [0usize, 1, 2, 17, 300] {
        let mut arrivals: Vec<Arrival> = (0..n).map(|_| Arrival::Failed).collect();
        let only_failures = replay(&arrivals);
        assert_eq!(only_failures.len(), n);
        assert!(only_failures.iter().all(|a| a.as_ref().err() == Some(&ServerError::Transport)));
        arrivals.push(datagram(payload_of("node-a", SENT)));
        let answers = replay(&arrivals);
        assert_eq!(answers.len(), n + 1);
        assert_eq!(answers.iter().filter(|a| a.is_ok()).count(), 1);
        assert_node_a_record(answers[n].as_ref().unwrap());
    }
}

#[test]
fn replay_stores_records_in_order_of_arrival() {
    let arrivals = vec![
        datagram(payload_of("second-sent", Timestamp::new(20, 0))),
        Arrival::Failed,
        datagram(payload_of("first-sent", Timestamp::new(10, 0))),
        datagram(vec![]),
        datagram(payload_of("second-sent", Timestamp::new(20, 0))),
    ];
    let answers = replay(&arrivals);
    let names: Vec<&str> =
        answers.iter().filter_map(|a| a.as_ref().ok()).map(|r| r.name.as_str()).collect();
    assert_eq!(names, vec!["second-sent", "first-sent", "second-sent"]);
}

#[test]
fn replay_of_no_arrivals_answers_nothing() {
    assert!(replay(&Vec::new()).is_empty());
}
