use amtrak_api::client::{
    decode_stations, decode_stations_with_debugging, stations_from_response,
    stations_from_response_with_debugging,
};
use amtrak_api::decode::{decode_station, decode_stations_in, Envelope};
use amtrak_api::errors::{Problem, Segment};
use amtrak_api::{DebuggingError, Error};

const NO_CODE: &str = r#"{"ABE":{"name":"Aberdeen","tz":"America/New_York","lat":39.5,"lon":-76.1,"address1":"a","address2":" ","city":"Aberdeen","state":"MD","zip":"21001","trains":[]}}"#;

fn keys(path: &[Segment]) -> Vec<String> {
    path.iter()
        .map(|s| match s {
            Segment::Key(k) => k.clone(),
            Segment::Index(i) => format!("[{i}]"),
        })
        .collect()
}

#[test]
fn missing_code_is_a_decode_failure() {
    match decode_stations(NO_CODE.as_bytes()) {
        Err(Error::DeserializeFailed(e)) => {
            assert!(matches!(e.problem, Problem::Missing));
            assert_eq!(keys(&e.path), vec!["ABE", "code"]);
        }
        _ => panic!("expected a decode failure"),
    }
}

#[test]
fn missing_code_named_in_diagnostic_mode() {
    let body = format!(r#"{{"stations":{NO_CODE}}}"#);
    match decode_stations_with_debugging(body.as_bytes()) {
        Err(DebuggingError::DeserializeFailed { error, response }) => {
            assert!(matches!(error.problem, Problem::Missing));
            assert_eq!(keys(&error.path), vec!["stations", "ABE", "code"]);
            assert_eq!(response, body);
        }
        _ => panic!("expected a decode failure"),
    }
}

#[test]
fn wrong_type_is_malformed_with_path() {
    let body = r#"{"name":"Aberdeen","code":"ABE","tz":"America/New_York","lat":"39.5","lon":-76.1,"address1":"a","address2":" ","city":"Aberdeen","state":"MD","zip":"21001","trains":[]}"#;
    let e = decode_station(body.as_bytes()).unwrap_err();
    assert!(matches!(e.problem, Problem::Malformed(_)));
    assert_eq!(keys(&e.path), vec!["lat"]);
}

#[test]
fn bad_train_entry_names_its_index() {
    let body = r#"{"name":"Aberdeen","code":"ABE","tz":"America/New_York","lat":39.5,"lon":-76.1,"address1":"a","address2":" ","city":"Aberdeen","state":"MD","zip":"21001","trains":["612-5",7]}"#;
    let e = decode_station(body.as_bytes()).unwrap_err();
    assert!(matches!(e.problem, Problem::Malformed(_)));
    match &e.path[..] {
        [Segment::Key(k), Segment::Index(1)] => assert_eq!(k, "trains"),
        _ => panic!("unexpected path"),
    }
}

#[test]
fn not_json_is_malformed() {
    match decode_stations(b"not json") {
        Err(Error::DeserializeFailed(e)) => {
            assert!(matches!(e.problem, Problem::Malformed(_)));
            assert!(e.path.is_empty());
        }
        _ => panic!("expected a decode failure"),
    }
}

#[test]
fn bare_mapping_is_not_an_envelope() {
    let body = r#"{"ABE":{},"AST":{}}"#;
    let e = decode_stations_in(body.as_bytes(), Envelope::Wrapped).unwrap_err();
    assert!(matches!(e.problem, Problem::NotEnveloped));
    assert!(e.path.is_empty());
}

#[test]
fn empty_array_in_diagnostic_mode() {
    let r = decode_stations_with_debugging(br#"{"stations":[]}"#).unwrap();
    assert_eq!(r.len(), 0);
}

#[test]
fn diagnostic_text_of_invalid_utf8() {
    match decode_stations_with_debugging(&[0xff, 0xfe]) {
        Err(DebuggingError::DeserializeFailed { response, .. }) => {
            assert_eq!(response, "Failed to convert bytes to string")
        }
        _ => panic!("expected a decode failure"),
    }
}

fn transport_error() -> reqwest::Error {
    reqwest::Client::new().get("not a url").build().unwrap_err()
}

#[test]
fn transport_failure_is_classified() {
    match stations_from_response(Err(transport_error())) {
        Err(Error::RequestFailed(_)) => {}
        _ => panic!("expected a transport failure"),
    }
    match stations_from_response_with_debugging(Err(transport_error())) {
        Err(DebuggingError::RequestFailed(_)) => {}
        _ => panic!("expected a transport failure"),
    }
}

#[test]
fn absent_and_null_times_are_none() {
    let s = amtrak_api::decode::decode_stop(br#"{"name":"n","code":"c","status":"Enroute","arr":null}"#).unwrap();
    assert!(s.arrival.is_none() && s.departure.is_none() && s.scheduled_arrival.is_none());
    let e = amtrak_api::decode::decode_stop(br#"{"name":"n","code":"c","status":"Enroute","dep":5}"#).unwrap_err();
    assert_eq!(keys(&e.path), vec!["dep"]);
}

#[test]
fn syntax_error_in_envelope_names_where_reading_stopped() {
    let body = br#"{"stations": {"ABE": {"name": }}}"#;
    match decode_stations_with_debugging(body) {
        Err(DebuggingError::DeserializeFailed { error, .. }) => match error.problem {
            Problem::MalformedAt { at, .. } => assert_eq!(at, "stations"),
            _ => panic!("expected a located failure"),
        },
        _ => panic!("expected a decode failure"),
    }
}

#[test]
fn numbers_read_as_serde_json_prints_them() {
    let body = r#"{"name":"A","code":"A","tz":"t","lat":39.500,"lon":-7.0e1,"address1":"a","address2":" ","city":"c","state":"s","zip":"z","trains":[]}"#;
    let s = decode_station(body.as_bytes()).unwrap();
    assert_eq!(s.lat, "39.5");
    assert_eq!(s.lon, "-70.0");
}
