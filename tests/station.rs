use amtrak_api::client::{decode_stations, stations_from_response};
use amtrak_api::Client;

const ABERDEEN: &str = r#"
{
    "ABE": {
        "name": "Aberdeen",
        "code": "ABE",
        "tz": "America/New_York",
        "lat": 39.508447,
        "lon": -76.16326,
        "address1": "18 East Bel Air Avenue",
        "address2": " ",
        "city": "Aberdeen",
        "state": "MD",
        "zip": "21001",
        "trains": []
    }
}"#;

const ALDERSHOT: &str = r#"
{
    "AST": {
        "name": "Aldershot",
        "code": "AST",
        "tz": "America/Toronto",
        "lat": 43.313413,
        "lon": -79.855712,
        "address1": "1199 Waterdown Road",
        "address2": " ",
        "city": "Aldershot",
        "state": "ON",
        "zip": "L7T 4A8",
        "trains": []
    }
}"#;

#[test]
fn test_single_station() {
    let client = Client::with_base_url("http://127.0.0.1:1234");
    assert_eq!(client.stations_url(), "http://127.0.0.1:1234/stations");
    let response = stations_from_response(Ok(ABERDEEN.as_bytes().to_vec())).unwrap();

    assert_eq!(response.len(), 1);

    let station = response.get("ABE").unwrap();
    assert_eq!(station.name, "Aberdeen");
    assert_eq!(station.code, "ABE");
    assert_eq!(station.lat.parse::<f64>().unwrap(), 39.508447);
    assert_eq!(station.lon.parse::<f64>().unwrap(), -76.16326);
    assert_eq!(station.address1, "18 East Bel Air Avenue");
    assert_eq!(station.address2, " ");
    assert_eq!(station.city, "Aberdeen");
    assert_eq!(station.state, "MD");
    assert_eq!(station.zip, "21001");
    assert_eq!(station.trains.len(), 0);
}

#[test]
fn test_canadian_station() {
    let client = Client::with_base_url("http://127.0.0.1:1234");
    assert_eq!(client.stations_url(), "http://127.0.0.1:1234/stations");
    let response = stations_from_response(Ok(ALDERSHOT.as_bytes().to_vec())).unwrap();

    assert_eq!(response.len(), 1);

    let station = response.get("AST").unwrap();
    assert_eq!(station.name, "Aldershot");
    assert_eq!(station.code, "AST");
    assert_eq!(station.lat.parse::<f64>().unwrap(), 43.313413);
    assert_eq!(station.lon.parse::<f64>().unwrap(), -79.855712);
    assert_eq!(station.address1, "1199 Waterdown Road");
    assert_eq!(station.address2, " ");
    assert_eq!(station.city, "Aldershot");
    assert_eq!(station.state, "ON");
    assert_eq!(station.zip, "L7T 4A8");
    assert_eq!(station.trains.len(), 0);
}

#[test]
fn test_empty_station() {
    let client = Client::with_base_url("http://127.0.0.1:1234");
    assert_eq!(client.station_url("ABC"), "http://127.0.0.1:1234/stations/ABC");
    let response = stations_from_response(Ok(b"[]".to_vec())).unwrap();

    assert_eq!(response.len(), 0);
}

#[test]
fn station_literal_has_one_entry() {
    let body = r#"{"ABE":{"name":"Aberdeen","code":"ABE","tz":"America/New_York","lat":39.508447,"lon":-76.16326,"address1":"18 East Bel Air Avenue","address2":" ","city":"Aberdeen","state":"MD","zip":"21001","trains":[]}}"#;
    let response = decode_stations(body.as_bytes()).unwrap();
    assert_eq!(response.len(), 1);
    assert!(!response.is_empty());
    let (code, station) = &response.entries()[0];
    assert_eq!(code, "ABE");
    assert_eq!(station.name, "Aberdeen");
    assert_eq!(station.lat, "39.508447");
    assert_eq!(station.lon, "-76.16326");
    assert_eq!(station.tz, "America/New_York");
    assert!(station.trains.is_empty());
    assert!(response.get("XYZ").is_none());
}

#[test]
fn station_keeps_train_list_in_order() {
    let body = r#"{"PHL":{"name":"Philadelphia","code":"PHL","tz":"America/New_York","lat":39.95,"lon":-75.18,"address1":"2955 Market Street","address2":" ","city":"Philadelphia","state":"PA","zip":"19104","trains":["612-5","641-5","43-5"]}}"#;
    let response = decode_stations(body.as_bytes()).unwrap();
    let station = response.get("PHL").unwrap();
    assert_eq!(station.trains, vec!["612-5".to_string(), "641-5".to_string(), "43-5".to_string()]);
}

#[test]
fn several_stations_all_decode() {
    let body = r#"{
        "ABE":{"name":"Aberdeen","code":"ABE","tz":"America/New_York","lat":39.5,"lon":-76.1,"address1":"a","address2":" ","city":"Aberdeen","state":"MD","zip":"21001","trains":[]},
        "AST":{"name":"Aldershot","code":"AST","tz":"America/Toronto","lat":43.3,"lon":-79.8,"address1":"b","address2":" ","city":"Aldershot","state":"ON","zip":"L7T 4A8","trains":[]}
    }"#;
    let response = decode_stations(body.as_bytes()).unwrap();
    assert_eq!(response.len(), 2);
    assert_eq!(response.get("ABE").unwrap().city, "Aberdeen");
    assert_eq!(response.get("AST").unwrap().state, "ON");
}
