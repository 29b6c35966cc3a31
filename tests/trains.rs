use amtrak_api::client::{decode_trains, decode_trains_with_debugging, trains_from_response};
use amtrak_api::decode::{decode_stop, decode_trains_in, Envelope};
use amtrak_api::{Client, Error, TrainStatus};

fn stop(code: &str, status: &str) -> String {
    format!(
        r#"{{"name":"Stop {code}","code":"{code}","status":"{status}","schArr":"2024-01-01T10:00:00-05:00","schDep":"2024-01-01T10:05:00-05:00","arr":null}}"#
    )
}

fn train(id: &str, num: &str, stops: &[String]) -> String {
    format!(
        r#"{{"routeName":"Keystone","trainNum":"{num}","trainID":"{id}","origCode":"HAR","origName":"Harrisburg","destCode":"NYP","destName":"New York Penn","stations":[{}]}}"#,
        stops.join(",")
    )
}

#[test]
fn train_with_stops_decodes() {
    let body = format!(
        r#"{{"612":[{}]}}"#,
        train("612-5", "612", &[stop("HAR", "Departed"), stop("PHL", "Enroute"), stop("NYP", "Station")])
    );
    let response = decode_trains(body.as_bytes()).unwrap();
    assert_eq!(response.len(), 1);
    let trains = response.get("612").unwrap();
    assert_eq!(trains.len(), 1);
    let t = &trains[0];
    assert_eq!(t.train_id, "612-5");
    assert_eq!(t.train_num, "612");
    assert_eq!(t.route_name, "Keystone");
    assert_eq!(t.origin_code, "HAR");
    assert_eq!(t.origin_name, "Harrisburg");
    assert_eq!(t.destination_code, "NYP");
    assert_eq!(t.destination_name, "New York Penn");
    assert_eq!(t.stations.len(), 3);
    assert_eq!(t.stations[0].status, TrainStatus::Departed);
    assert_eq!(t.stations[1].status, TrainStatus::Enroute);
    assert_eq!(t.stations[2].status, TrainStatus::Station);
    assert_eq!(t.stations[1].code, "PHL");
    assert_eq!(t.stations[1].name, "Stop PHL");
    assert_eq!(t.stations[0].scheduled_arrival.as_deref(), Some("2024-01-01T10:00:00-05:00"));
    assert_eq!(t.stations[0].scheduled_departure.as_deref(), Some("2024-01-01T10:05:00-05:00"));
    assert_eq!(t.stations[0].arrival, None);
    assert_eq!(t.stations[0].departure, None);
}

#[test]
fn unrecognised_status_is_unknown() {
    for word in ["Cancelled", "", "enroute", "Unknown"] {
        let s = decode_stop(stop("PHL", word).as_bytes()).unwrap();
        assert_eq!(s.status, TrainStatus::Unknown);
        assert_eq!(s.code, "PHL");
    }
}

#[test]
fn two_trains_under_one_number() {
    let body = format!(
        r#"{{"612":[{},{}],"641":[{}]}}"#,
        train("612-5", "612", &[]),
        train("612-6", "612", &[stop("PHL", "Enroute")]),
        train("641-5", "641", &[]),
    );
    let response = decode_trains(body.as_bytes()).unwrap();
    assert_eq!(response.len(), 2);
    let trains = response.get("612").unwrap();
    assert_eq!(trains.len(), 2);
    assert_eq!(trains[0].train_id, "612-5");
    assert_eq!(trains[1].train_id, "612-6");
    assert!(trains[0].stations.is_empty());
    assert_eq!(response.get("641").unwrap()[0].train_id, "641-5");
}

#[test]
fn empty_array_gives_no_trains() {
    let response = decode_trains(b"[]").unwrap();
    assert!(response.is_empty());
}

#[test]
fn non_empty_array_is_a_decode_failure() {
    match decode_trains(b"[1]") {
        Err(Error::DeserializeFailed(e)) => assert!(e.path.is_empty()),
        _ => panic!("expected a decode failure"),
    }
}

#[test]
fn lookups_of_two_trains_are_separate() {
    let client = Client::with_base_url("http://localhost");
    assert_eq!(client.train_url("612-5"), "http://localhost/trains/612-5");
    assert_eq!(client.train_url("641"), "http://localhost/trains/641");
    assert_eq!(client.trains_url(), "http://localhost/trains");
    let first = trains_from_response(Ok(format!(r#"{{"612":[{}]}}"#, train("612-5", "612", &[])).into_bytes())).unwrap();
    let second = trains_from_response(Ok(format!(r#"{{"641":[{}]}}"#, train("641-5", "641", &[])).into_bytes())).unwrap();
    assert!(first.get("641").is_none());
    assert!(second.get("612").is_none());
    assert_eq!(first.len(), 1);
    assert_eq!(second.len(), 1);
}

#[test]
fn enveloped_trains_decode_in_diagnostic_mode() {
    let body = format!(r#"{{"data":{{"612":[{}]}}}}"#, train("612-5", "612", &[]));
    let response = decode_trains_with_debugging(body.as_bytes()).unwrap();
    assert_eq!(response.get("612").unwrap()[0].train_id, "612-5");
    let same = decode_trains_in(body.as_bytes(), Envelope::Wrapped).unwrap();
    assert_eq!(same.len(), 1);
}

#[test]
fn default_client_uses_production_address() {
    assert_eq!(Client::new().base_url(), "https://api-v3.amtraker.com/v3");
    assert_eq!(Client::default().trains_url(), "https://api-v3.amtraker.com/v3/trains");
    assert_eq!(Client::new().stations_url(), "https://api-v3.amtraker.com/v3/stations");
}
