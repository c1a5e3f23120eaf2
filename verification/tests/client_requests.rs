//! The capability handle and the request-composition helpers.

use lta::bus::Bus;
use lta::client::{req_with_query, with_skip, LTAClient};
use lta::crowd::{passenger_vol_req, DateYm, VolType};
use lta::error::LTAError;
use lta::taxi::taxi_avail_req;
use lta::train::train_service_alert_req;

fn pairs(v: &Vec<(String, String)>) -> Vec<(&str, &str)> {
    v.iter().map(|(k, val)| (k.as_str(), val.as_str())).collect()
}

#[test]
fn builder_carries_credential_header() {
    let client = LTAClient::with_api_key("SECRET-REDACTED");
    let rb = client.get_req_builder("http://example.invalid/resource").unwrap();
    assert_eq!(rb.url(), "http://example.invalid/resource");
    assert_eq!(pairs(rb.headers()), vec![("AccountKey", "SECRET-REDACTED")]);
    assert!(rb.query_pairs().is_empty());
}

#[test]
fn empty_credential_is_configuration_error() {
    let client = LTAClient::with_api_key("");
    let r = client.get_req_builder("http://example.invalid/resource");
    assert_eq!(r.err(), Some(LTAError::MissingApiKey));
}

#[test]
fn absent_credential_is_configuration_error() {
    let client = LTAClient::new(None);
    let r = client.get_req_builder("http://example.invalid/resource");
    assert_eq!(r.err(), Some(LTAError::MissingApiKey));
}

#[test]
fn explicit_empty_credential_is_configuration_error() {
    let client = LTAClient::new(Some(String::new()));
    let r = client.get_req_builder("http://example.invalid/resource");
    assert_eq!(r.err(), Some(LTAError::MissingApiKey));
}

#[test]
fn failed_builder_does_not_corrupt_later_use() {
    let client = LTAClient::with_api_key("key");
    assert!(client.get_req_builder("http://example.invalid/a").is_ok());
    assert!(client.get_req_builder("http://example.invalid/b").is_ok());
}

#[test]
fn skip_defaults_to_zero() {
    let client = LTAClient::with_api_key("key");
    let rb = Bus::bus_services_req(&client, None).unwrap();
    assert_eq!(pairs(rb.query_pairs()), vec![("$skip", "0")]);
}

#[test]
fn skip_is_passed_exactly() {
    let client = LTAClient::with_api_key("key");
    let rb = Bus::bus_services_req(&client, Some(500)).unwrap();
    assert_eq!(pairs(rb.query_pairs()), vec![("$skip", "500")]);
}

#[test]
fn with_skip_appends_to_existing_query() {
    let client = LTAClient::with_api_key("key");
    let rb = client.get_req_builder("http://example.invalid/r").unwrap();
    let rb = rb.add_query("X", "1".to_string());
    let rb = with_skip(rb, Some(3));
    assert_eq!(pairs(rb.query_pairs()), vec![("X", "1"), ("$skip", "3")]);
}

#[test]
fn listing_req_fails_without_credential() {
    let client = LTAClient::with_api_key("");
    assert_eq!(Bus::bus_services_req(&client, None).err(), Some(LTAError::MissingApiKey));
}

#[test]
fn arrival_req_with_service_no() {
    let client = LTAClient::with_api_key("key");
    let rb = Bus::arrival_req(&client, 83139, Some("15")).unwrap();
    assert_eq!(rb.url(), "http://datamall2.mytransport.sg/ltaodataservice/BusArrivalv2");
    assert_eq!(pairs(rb.query_pairs()), vec![("BusStopCode", "83139"), ("ServiceNo", "15")]);
}

#[test]
fn arrival_req_without_service_no() {
    let client = LTAClient::with_api_key("key");
    let rb = Bus::arrival_req(&client, 83139, None).unwrap();
    assert_eq!(pairs(rb.query_pairs()), vec![("BusStopCode", "83139")]);
}

#[test]
fn lookup_applies_caller_query() {
    let client = LTAClient::with_api_key("key");
    let rb = req_with_query(&client, "http://example.invalid/r", |rb| {
        rb.add_query("Date", "201907".to_string())
    })
    .unwrap();
    assert_eq!(pairs(rb.headers()), vec![("AccountKey", "key")]);
    assert_eq!(pairs(rb.query_pairs()), vec![("Date", "201907")]);
}

#[test]
fn passenger_vol_url_choice() {
    let client = LTAClient::with_api_key("key");
    let rb = passenger_vol_req(&client, VolType::OdBusStop, None, None).unwrap();
    assert_eq!(rb.url(), "http://datamall2.mytransport.sg/ltaodataservice/PV/ODBus");
    assert_eq!(pairs(rb.query_pairs()), vec![("$skip", "0")]);
}

#[test]
fn passenger_vol_date_replaces_pagination() {
    let client = LTAClient::with_api_key("key");
    let d = DateYm { year: 2019, month: 7 };
    let rb = passenger_vol_req(&client, VolType::Train, Some(d), Some(40)).unwrap();
    assert_eq!(rb.url(), "http://datamall2.mytransport.sg/ltaodataservice/PV/Train");
    assert_eq!(pairs(rb.query_pairs()), vec![("Date", "201907")]);
}

#[test]
fn passenger_vol_date_two_digit_month() {
    let client = LTAClient::with_api_key("key");
    let d = DateYm { year: 2019, month: 11 };
    let rb = passenger_vol_req(&client, VolType::BusStops, Some(d), None).unwrap();
    assert_eq!(pairs(rb.query_pairs()), vec![("Date", "201911")]);
}

#[test]
fn train_alert_req_has_no_query() {
    let client = LTAClient::with_api_key("key");
    let rb = train_service_alert_req(&client).unwrap();
    assert_eq!(rb.url(), "http://datamall2.mytransport.sg/ltaodataservice/TrainServiceAlerts");
    assert!(rb.query_pairs().is_empty());
}

#[test]
fn taxi_avail_req_is_paginated() {
    let client = LTAClient::with_api_key("key");
    let rb = taxi_avail_req(&client, Some(2)).unwrap();
    assert_eq!(rb.url(), "http://datamall2.mytransport.sg/ltaodataservice/Taxi-Availability");
    assert_eq!(pairs(rb.query_pairs()), vec![("$skip", "2")]);
}
