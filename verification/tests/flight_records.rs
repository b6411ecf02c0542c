use serde_json::{Number, Value};
use xcontest_feed::json::text_or_empty;
use xcontest_feed::pilot::{
    flight_from, flight_summary, flights_from_document, flights_from_response, flights_from_text,
    flights_request, route_from, Flight, PilotError, Route,
};

fn number(x: f64) -> Number {
    Number::from_f64(x).unwrap()
}

fn alice_flight() -> Flight {
    Flight {
        id: 1001,
        duration: "PT1H30M".to_string(),
        start_time: "2025-03-14T10:00:00Z".to_string(),
        url: "https://x/1001".to_string(),
        by: "Alice".to_string(),
        route: Route { route_type: "FAI".to_string(), distance: number(45.678), points: number(61.23) },
    }
}

const ALICE_RECORD: &str = "{\"id\":1001,\"stats\":{\"duration\":\"PT1H30M\"},\
    \"pilot\":{\"name\":\"Alice\"},\"pointStart\":{\"time\":\"2025-03-14T10:00:00Z\"},\
    \"league\":{\"flight\":{\"link\":\"https://x/1001\"},\
    \"route\":{\"type\":\"FAI\",\"distance\":45.678,\"points\":61.23}}}";

#[test]
fn flights_request_carries_key_and_pilot() {
    let request = flights_request(42, "K");
    assert_eq!(
        request.url,
        "https://www.xcontest.org/api/data/?flights/world/2025&lng=en&key=K&list[start]=0&list[num]=250&list[sort]=time_claim&list[dir]=down&filter[pilot]=42"
    );
    assert_eq!(
        request.headers,
        vec![
            ("Accept-Language".to_string(), "en-US,en".to_string()),
            ("Accept".to_string(), "application/json".to_string()),
            (
                "User-Agent".to_string(),
                "Mozilla/5.0 (Windows NT 10.0; Win64; x64) AppleWebKit/537.36 (KHTML, like Gecko) Chrome/115.0.0.0 Safari/537.36".to_string()
            ),
        ]
    );
}

#[test]
fn text_or_empty_reads_a_nested_string() {
    let doc: Value = serde_json::from_str("{\"pilot\":{\"name\":\"Alice\",\"age\":7}}").unwrap();
    assert_eq!(text_or_empty(&doc, "/pilot/name"), "Alice");
    assert_eq!(text_or_empty(&doc, "/pilot/nick"), "");
    assert_eq!(text_or_empty(&doc, "/pilot/age"), "");
    assert_eq!(text_or_empty(&doc, "/pilot"), "");
}

#[test]
fn one_record_is_read_in_full() {
    let body = format!("{{\"items\":[{}]}}", ALICE_RECORD);
    assert_eq!(flights_from_text(&body), Ok(vec![alice_flight()]));
}

#[test]
fn records_keep_the_order_of_the_server() {
    let body = "{\"items\":[\
        {\"id\":3,\"league\":{\"route\":{\"type\":\"a\",\"distance\":1,\"points\":2}}},\
        {\"id\":1,\"league\":{\"route\":{\"type\":\"b\",\"distance\":1,\"points\":2}}},\
        {\"id\":2,\"league\":{\"route\":{\"type\":\"c\",\"distance\":1,\"points\":2}}}]}";
    let flights = flights_from_text(body).unwrap();
    let ids: Vec<u64> = flights.iter().map(|f| f.id).collect();
    assert_eq!(ids, vec![3, 1, 2]);
}

#[test]
fn empty_items_give_no_flights() {
    assert_eq!(flights_from_text("{\"items\":[]}"), Ok(vec![]));
}

#[test]
fn missing_optional_strings_are_empty() {
    let body = "{\"items\":[{\"id\":5,\"league\":{\"route\":{\"type\":\"FAI\",\"distance\":1.5,\"points\":2}}}]}";
    let flights = flights_from_text(body).unwrap();
    assert_eq!(flights.len(), 1);
    assert_eq!(flights[0].id, 5);
    assert_eq!(flights[0].duration, "");
    assert_eq!(flights[0].by, "");
    assert_eq!(flights[0].start_time, "");
    assert_eq!(flights[0].url, "");
    assert_eq!(flights[0].route.route_type, "FAI");
}

#[test]
fn optional_strings_of_the_wrong_type_are_empty() {
    let body = "{\"items\":[{\"id\":5,\"stats\":{\"duration\":90},\"pilot\":\"Bob\",\
        \"pointStart\":{\"time\":null},\"league\":{\"flight\":{\"link\":[]},\
        \"route\":{\"type\":\"FAI\",\"distance\":1.5,\"points\":2}}}]}";
    let flights = flights_from_text(body).unwrap();
    assert_eq!(flights[0].duration, "");
    assert_eq!(flights[0].by, "");
    assert_eq!(flights[0].start_time, "");
    assert_eq!(flights[0].url, "");
}

#[test]
fn body_that_is_no_json_is_a_json_error() {
    assert!(matches!(flights_from_text("<html>"), Err(PilotError::JsonError(_))));
    assert!(matches!(flights_from_text(""), Err(PilotError::JsonError(_))));
    match flights_from_text("{\"items\":") {
        Err(PilotError::JsonError(message)) => assert!(!message.is_empty()),
        other => panic!("expected a JSON error, got {:?}", other),
    }
}

#[test]
fn missing_items_is_a_missing_field() {
    assert_eq!(flights_from_text("{}"), Err(PilotError::MissingField));
    assert_eq!(flights_from_text("{\"items\":{}}"), Err(PilotError::MissingField));
    assert_eq!(flights_from_text("{\"items\":null}"), Err(PilotError::MissingField));
    assert_eq!(flights_from_text("[1,2]"), Err(PilotError::MissingField));
    assert_eq!(flights_from_text("7"), Err(PilotError::MissingField));
}

#[test]
fn missing_id_is_a_missing_field() {
    let body = "{\"items\":[{\"league\":{\"route\":{\"type\":\"FAI\",\"distance\":1,\"points\":2}}}]}";
    assert_eq!(flights_from_text(body), Err(PilotError::MissingField));
}

#[test]
fn id_that_is_no_unsigned_integer_is_a_missing_field() {
    for id in ["-1", "1.5", "\"7\"", "null"] {
        let body = format!(
            "{{\"items\":[{{\"id\":{},\"league\":{{\"route\":{{\"type\":\"FAI\",\"distance\":1,\"points\":2}}}}}}]}}",
            id
        );
        assert_eq!(flights_from_text(&body), Err(PilotError::MissingField));
    }
}

#[test]
fn missing_route_is_a_missing_field() {
    let body = "{\"items\":[{\"id\":1,\"league\":{\"flight\":{\"link\":\"u\"}}}]}";
    assert_eq!(flights_from_text(body), Err(PilotError::MissingField));
    assert_eq!(flights_from_text("{\"items\":[{\"id\":1}]}"), Err(PilotError::MissingField));
}

#[test]
fn ill_typed_route_is_a_missing_field() {
    for route in [
        "{\"distance\":1,\"points\":2}",
        "{\"type\":\"FAI\",\"points\":2}",
        "{\"type\":\"FAI\",\"distance\":1}",
        "{\"type\":5,\"distance\":1,\"points\":2}",
        "{\"type\":\"FAI\",\"distance\":\"1\",\"points\":2}",
        "{\"type\":\"FAI\",\"distance\":1,\"points\":null}",
        "\"FAI\"",
        "null",
        "7",
    ] {
        let body = format!("{{\"items\":[{{\"id\":1,\"league\":{{\"route\":{}}}}}]}}", route);
        assert_eq!(flights_from_text(&body), Err(PilotError::MissingField));
    }
}

#[test]
fn one_bad_record_fails_the_list() {
    let body = format!("{{\"items\":[{},{{\"id\":2}}]}}", ALICE_RECORD);
    assert_eq!(flights_from_text(&body), Err(PilotError::MissingField));
}

#[test]
fn route_ignores_other_members() {
    let value: Value =
        serde_json::from_str("{\"type\":\"FLAT\",\"distance\":3,\"points\":4.5,\"extra\":true}").unwrap();
    let route = route_from(&value).unwrap();
    assert_eq!(route.route_type, "FLAT");
    assert_eq!(route.distance, Number::from(3u64));
    assert_eq!(route.points, number(4.5));
}

#[test]
fn record_is_read_from_a_value() {
    let value: Value = serde_json::from_str(ALICE_RECORD).unwrap();
    assert_eq!(flight_from(&value), Some(alice_flight()));
    let empty: Value = serde_json::from_str("{}").unwrap();
    assert_eq!(flight_from(&empty), None);
}

#[test]
fn document_is_read_from_a_value() {
    let document: Value = serde_json::from_str(&format!("{{\"items\":[{}]}}", ALICE_RECORD)).unwrap();
    assert_eq!(flights_from_document(&document), Ok(vec![alice_flight()]));
    let other: Value = serde_json::from_str("{\"flights\":[]}").unwrap();
    assert_eq!(flights_from_document(&other), Err(PilotError::MissingField));
}

#[test]
fn flights_answer_needs_a_success_status() {
    let body = format!("{{\"items\":[{}]}}", ALICE_RECORD);
    assert_eq!(flights_from_response(200, &body), Ok(vec![alice_flight()]));
    assert_eq!(
        flights_from_response(503, &body),
        Err(PilotError::Network("HTTP status 503".to_string()))
    );
    assert_eq!(
        flights_from_response(403, "denied"),
        Err(PilotError::Network("HTTP status 403".to_string()))
    );
    assert!(matches!(flights_from_response(200, "denied"), Err(PilotError::JsonError(_))));
}

#[test]
fn summary_of_a_flight() {
    assert_eq!(
        flight_summary(&alice_flight()),
        "Alice's Flight on 2025-03-14\nlasting 1h 30m\nFAI with a distance of 45.7km\nScoring 61.2 points\nURL: https://x/1001"
    );
}

#[test]
fn summary_of_a_flight_with_a_bad_duration_and_a_short_start() {
    let mut flight = alice_flight();
    flight.duration = "soon".to_string();
    flight.start_time = "2025".to_string();
    assert_eq!(
        flight_summary(&flight),
        "Alice's Flight on 2025\nlasting 0s\nFAI with a distance of 45.7km\nScoring 61.2 points\nURL: https://x/1001"
    );
}
